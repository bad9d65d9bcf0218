//! One lookup of the arrivals at a bus stop, as a sequence of decisions.
//!
//! The caller does the outside work: it reads the configuration, sends the
//! request, receives the status of the answer and then its body. It reports
//! each piece of work as an `Event`, and `busstop_request` answers with the
//! `Step` to take next. A `Lookup` remembers how far the work has come, so
//! that an event is only taken when it is its turn.

use vstd::prelude::*;
use vstd::string::StringExecFns;
use crate::error::{ErrorView, RequestError};
use crate::json::{json_parsed, json_tree, JsonTree};
use crate::request::{arrival_request, arrival_request_spec, HttpRequest, HttpRequestView};
use crate::response::{check_status, decode_body, status_accepted};
use crate::settings::{load_settings, settings_spec, Table};

verus! {

/// How far a lookup has come.
#[derive(Clone, Copy, Debug, PartialEq, Eq, Structural)]
pub enum Stage {
    /// Nothing is done yet: the configuration is awaited.
    Unconfigured,
    /// The request is on its way: the status of the answer is awaited.
    Sent,
    /// The status was accepted: the body of the answer is awaited.
    Accepted,
    /// The lookup has ended, with a value or with an error.
    Ended,
}

/// What the caller reports.
#[derive(Clone, Debug, PartialEq, Eq)]
pub enum Event {
    /// The configuration was read into this table.
    Configured(Vec<(String, String)>),
    /// The configuration could not be read; the text says why.
    Unreadable(String),
    /// An answer has come, with this status.
    Status(u16),
    /// The body of the answer was received in full.
    Body(Vec<u8>),
    /// Sending the request or receiving the answer failed; the text says
    /// why.
    Interrupted(String),
}

/// What a lookup does next.
#[derive(Debug, PartialEq, Eq)]
pub enum Step {
    /// Send this request and report the status of the answer.
    Send(HttpRequest),
    /// Receive the body of the answer and report it.
    ReadBody,
    /// The lookup has ended with the decoded answer.
    Done(serde_json::Value),
    /// The lookup has ended with an error.
    Failed(RequestError),
}

/// A lookup of the arrivals at one bus stop.
#[derive(Debug)]
pub struct Lookup {
    stage: Stage,
    busstopcode: String,
}

/// What a `Lookup` holds.
pub struct LookupView {
    pub stage: Stage,
    pub busstopcode: Seq<char>,
}

/// What an `Event` holds.
pub enum EventView {
    Configured(Table),
    Unreadable(Seq<char>),
    Status(u16),
    Body(Seq<u8>),
    Interrupted(Seq<char>),
}

/// What a `Step` holds; a decoded answer is taken as its tree.
pub enum StepView {
    Send(HttpRequestView),
    ReadBody,
    Done(JsonTree),
    Failed(ErrorView),
}

impl View for Lookup {
    type V = LookupView;

    closed spec fn view(&self) -> LookupView {
        LookupView { stage: self.stage, busstopcode: self.busstopcode@ }
    }
}

impl View for Event {
    type V = EventView;

    open spec fn view(&self) -> EventView {
        match self {
            Event::Configured(entries) => EventView::Configured(entries.deep_view()),
            Event::Unreadable(message) => EventView::Unreadable(message@),
            Event::Status(status) => EventView::Status(*status),
            Event::Body(body) => EventView::Body(body@),
            Event::Interrupted(message) => EventView::Interrupted(message@),
        }
    }
}

impl View for Step {
    type V = StepView;

    open spec fn view(&self) -> StepView {
        match self {
            Step::Send(request) => StepView::Send(request@),
            Step::ReadBody => StepView::ReadBody,
            Step::Done(value) => StepView::Done(json_tree(*value)),
            Step::Failed(error) => StepView::Failed(error@),
        }
    }
}

/// The stage that follows an event and the step that answers it, or `None`
/// where the event is not awaited at this stage.
///
/// - Before anything is done, the configuration is awaited. If it holds the
///   three settings the request is sent; if one is missing, or the
///   configuration could not be read, the lookup ends and nothing is sent.
/// - Once the request is sent, the status is awaited. From 200 to 299 the
///   body is read; any other status ends the lookup and the body is not
///   read.
/// - Once the status is accepted, the body is awaited. A body that
///   `serde_json` parses ends the lookup with the value, any other with an
///   error.
/// - While an answer is awaited, a failure of the transport ends the lookup.
/// - Once the lookup has ended, no event is awaited.
pub open spec fn transition(lookup: LookupView, event: EventView) -> Option<(Stage, StepView)> {
    match (lookup.stage, event) {
        (Stage::Unconfigured, EventView::Configured(entries)) => match settings_spec(entries) {
            Ok(settings) => Some(
                (Stage::Sent, StepView::Send(arrival_request_spec(settings, lookup.busstopcode))),
            ),
            Err(missing) => Some(
                (Stage::Ended, StepView::Failed(ErrorView::MissingSetting(missing))),
            ),
        },
        (Stage::Unconfigured, EventView::Unreadable(message)) => Some(
            (Stage::Ended, StepView::Failed(ErrorView::Configuration(message))),
        ),
        (Stage::Sent, EventView::Status(status)) => if status_accepted(status) {
            Some((Stage::Accepted, StepView::ReadBody))
        } else {
            Some((Stage::Ended, StepView::Failed(ErrorView::Status(status))))
        },
        (Stage::Accepted, EventView::Body(body)) => match json_parsed(body) {
            Ok(tree) => Some((Stage::Ended, StepView::Done(tree))),
            Err(text) => Some((Stage::Ended, StepView::Failed(ErrorView::Decode(text)))),
        },
        (Stage::Sent, EventView::Interrupted(message)) => Some(
            (Stage::Ended, StepView::Failed(ErrorView::Network(message))),
        ),
        (Stage::Accepted, EventView::Interrupted(message)) => Some(
            (Stage::Ended, StepView::Failed(ErrorView::Network(message))),
        ),
        _ => None,
    }
}

/// The lookup after an event: at the stage `transition` gives where the
/// event is awaited, and unchanged where it is not.
pub open spec fn after(lookup: LookupView, event: EventView) -> LookupView {
    match transition(lookup, event) {
        Some((stage, _)) => LookupView { stage, busstopcode: lookup.busstopcode },
        None => lookup,
    }
}

/// The steps that a run of events brings, in order. An event that is not
/// awaited brings none.
pub open spec fn steps(lookup: LookupView, events: Seq<EventView>) -> Seq<StepView>
    decreases events.len(),
{
    if events.len() == 0 {
        Seq::empty()
    } else {
        let rest = steps(after(lookup, events[0]), events.drop_first());
        match transition(lookup, events[0]) {
            Some((_, step)) => seq![step] + rest,
            None => rest,
        }
    }
}

impl Lookup {
    /// A lookup of the stop `busstopcode`, with nothing done yet.
    pub fn new(busstopcode: &str) -> (out: Lookup)
        ensures
            out@ == (LookupView { stage: Stage::Unconfigured, busstopcode: busstopcode@ }),
    {
        Lookup { stage: Stage::Unconfigured, busstopcode: String::from_str(busstopcode) }
    }

    /// How far the lookup has come.
    pub fn stage(&self) -> (out: Stage)
        ensures
            out == self@.stage,
    {
        self.stage
    }

    /// The stop that is looked up.
    pub fn busstopcode(&self) -> (out: &str)
        ensures
            out@ == self@.busstopcode,
    {
        self.busstopcode.as_str()
    }
}

/// Takes an event of a lookup and decides what the lookup does next.
///
/// Where the event is awaited, the lookup moves on and the step is
/// returned. Where it is not, the lookup stays as it is and `None` is
/// returned.
pub fn busstop_request(lookup: &mut Lookup, event: Event) -> (out: Option<Step>)
    ensures
        final(lookup)@ == after(old(lookup)@, event@),
        match transition(old(lookup)@, event@) {
            Some((_, step)) => out matches Some(taken) && taken@ == step,
            None => out is None,
        },
{
    let (stage, step) = match lookup.stage {
        Stage::Unconfigured => match event {
            Event::Configured(entries) => match load_settings(&entries) {
                Ok(settings) => (
                    Stage::Sent,
                    Step::Send(arrival_request(&settings, lookup.busstopcode.as_str())),
                ),
                Err(error) => (Stage::Ended, Step::Failed(error)),
            },
            Event::Unreadable(message) => (
                Stage::Ended,
                Step::Failed(RequestError::Configuration(message)),
            ),
            _ => {
                return None;
            },
        },
        Stage::Sent => match event {
            Event::Status(status) => match check_status(status) {
                Ok(_) => (Stage::Accepted, Step::ReadBody),
                Err(error) => (Stage::Ended, Step::Failed(error)),
            },
            Event::Interrupted(message) => (
                Stage::Ended,
                Step::Failed(RequestError::Network(message)),
            ),
            _ => {
                return None;
            },
        },
        Stage::Accepted => match event {
            Event::Body(body) => match decode_body(body.as_slice()) {
                Ok(value) => (Stage::Ended, Step::Done(value)),
                Err(error) => (Stage::Ended, Step::Failed(error)),
            },
            Event::Interrupted(message) => (
                Stage::Ended,
                Step::Failed(RequestError::Network(message)),
            ),
            _ => {
                return None;
            },
        },
        Stage::Ended => {
            return None;
        },
    };
    lookup.stage = stage;
    Some(step)
}

/// A request is sent only in answer to a configuration that holds all three
/// settings, and only when nothing was done before.
pub proof fn law_send_needs_settings(lookup: LookupView, event: EventView)
    ensures
        (transition(lookup, event) matches Some((_, step)) && step is Send) <==> (lookup.stage
            == Stage::Unconfigured && event is Configured && settings_spec(
            event->Configured_0,
        ) is Ok),
{
}

/// The body is asked for only in answer to a status from 200 to 299.
pub proof fn law_body_needs_accepted_status(lookup: LookupView, event: EventView)
    ensures
        (transition(lookup, event) matches Some((_, step)) && step is ReadBody) <==> (lookup.stage
            == Stage::Sent && event is Status && 200 <= event->Status_0 <= 299),
{
}

/// A lookup ends with a value only in answer to a body, when the status
/// was accepted before, and then with the tree that the body parses to.
pub proof fn law_done_is_parsed_body(lookup: LookupView, event: EventView)
    ensures
        (transition(lookup, event) matches Some((_, step)) && step is Done) <==> (lookup.stage
            == Stage::Accepted && event is Body && json_parsed(event->Body_0) is Ok),
        transition(lookup, event) matches Some((_, StepView::Done(tree))) ==> (json_parsed(
            event->Body_0,
        ) matches Ok(parsed) && parsed == tree),
{
}

/// Once a lookup has ended, whatever is reported brings no further step and
/// leaves it ended.
pub proof fn law_ended_is_final(lookup: LookupView, events: Seq<EventView>)
    requires
        lookup.stage == Stage::Ended,
    ensures
        steps(lookup, events) == Seq::<StepView>::empty(),
    decreases events.len(),
{
    if events.len() > 0 {
        law_ended_is_final(lookup, events.drop_first());
    }
}

/// With a setting missing, the lookup fails at once and nothing is ever
/// sent: the failure is the only step, whatever is reported afterwards.
pub proof fn law_missing_setting_is_final(
    busstopcode: Seq<char>,
    entries: Table,
    later: Seq<EventView>,
)
    requires
        settings_spec(entries) is Err,
    ensures
        steps(
            LookupView { stage: Stage::Unconfigured, busstopcode },
            seq![EventView::Configured(entries)] + later,
        ) == seq![StepView::Failed(ErrorView::MissingSetting(settings_spec(entries)->Err_0))],
{
    let start = LookupView { stage: Stage::Unconfigured, busstopcode };
    let events = seq![EventView::Configured(entries)] + later;
    assert(events.drop_first() =~= later);
    law_ended_is_final(after(start, events[0]), later);
}

/// A status outside 200..=299 fails the lookup at once: the failure is the
/// only step, whatever is reported afterwards, so the body is neither read
/// nor decoded.
pub proof fn law_rejected_status_is_final(
    lookup: LookupView,
    status: u16,
    later: Seq<EventView>,
)
    requires
        lookup.stage == Stage::Sent,
        !(200 <= status <= 299),
    ensures
        steps(lookup, seq![EventView::Status(status)] + later) == seq![
            StepView::Failed(ErrorView::Status(status)),
        ],
{
    let events = seq![EventView::Status(status)] + later;
    assert(events.drop_first() =~= later);
    law_ended_is_final(after(lookup, events[0]), later);
}

} // verus!
