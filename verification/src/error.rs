//! The one error of a lookup, and the text it is reported as.

use vstd::prelude::*;
use vstd::string::StringExecFns;
use crate::settings::Setting;

verus! {

/// Why a lookup ended without a decoded answer.
#[derive(Clone, Debug, PartialEq, Eq)]
pub enum RequestError {
    /// The configuration table has no entry for a setting.
    MissingSetting(Setting),
    /// The configuration could not be read; the text says why.
    Configuration(String),
    /// The request could not be sent or the answer not received.
    Network(String),
    /// The answer came with a status outside 200..=299.
    Status(u16),
    /// The body of the answer is not a JSON document.
    Decode(String),
}

/// What a `RequestError` holds, as sequences of characters.
pub enum ErrorView {
    MissingSetting(Setting),
    Configuration(Seq<char>),
    Network(Seq<char>),
    Status(u16),
    Decode(Seq<char>),
}

impl View for RequestError {
    type V = ErrorView;

    open spec fn view(&self) -> ErrorView {
        match self {
            RequestError::MissingSetting(setting) => ErrorView::MissingSetting(*setting),
            RequestError::Configuration(message) => ErrorView::Configuration(message@),
            RequestError::Network(message) => ErrorView::Network(message@),
            RequestError::Status(status) => ErrorView::Status(*status),
            RequestError::Decode(message) => ErrorView::Decode(message@),
        }
    }
}

/// The character that writes the digit `d`, for `d` below ten.
pub open spec fn digit_char(d: nat) -> char {
    if d == 0 {
        '0'
    } else if d == 1 {
        '1'
    } else if d == 2 {
        '2'
    } else if d == 3 {
        '3'
    } else if d == 4 {
        '4'
    } else if d == 5 {
        '5'
    } else if d == 6 {
        '6'
    } else if d == 7 {
        '7'
    } else if d == 8 {
        '8'
    } else {
        '9'
    }
}

/// The decimal numeral of `n`, without leading zeros.
pub open spec fn decimal(n: nat) -> Seq<char>
    decreases n,
{
    if n < 10 {
        seq![digit_char(n)]
    } else {
        decimal(n / 10).push(digit_char(n % 10))
    }
}

/// The text an error is reported as.
pub open spec fn describe_spec(error: ErrorView) -> Seq<char> {
    match error {
        ErrorView::MissingSetting(setting) => "missing configuration field \""@
            + setting.name_spec() + "\""@,
        ErrorView::Configuration(message) => message,
        ErrorView::Network(message) => message,
        ErrorView::Status(status) => "HTTP status "@ + decimal(status as nat),
        ErrorView::Decode(message) => "error decoding response body: "@ + message,
    }
}

/// The numeral of one digit.
fn digit_text(d: u16) -> (out: &'static str)
    requires
        d < 10,
    ensures
        out@ == seq![digit_char(d as nat)],
{
    proof {
        reveal_strlit("0");
        reveal_strlit("1");
        reveal_strlit("2");
        reveal_strlit("3");
        reveal_strlit("4");
        reveal_strlit("5");
        reveal_strlit("6");
        reveal_strlit("7");
        reveal_strlit("8");
        reveal_strlit("9");
    }
    if d == 0 {
        "0"
    } else if d == 1 {
        "1"
    } else if d == 2 {
        "2"
    } else if d == 3 {
        "3"
    } else if d == 4 {
        "4"
    } else if d == 5 {
        "5"
    } else if d == 6 {
        "6"
    } else if d == 7 {
        "7"
    } else if d == 8 {
        "8"
    } else {
        "9"
    }
}

/// Appends the decimal numeral of `n` to `text`.
pub fn push_decimal(text: &mut String, n: u16)
    ensures
        final(text)@ == old(text)@ + decimal(n as nat),
    decreases n,
{
    if n >= 10 {
        push_decimal(text, n / 10);
    }
    text.append(digit_text(n % 10));
}

impl RequestError {
    /// The text the error is reported as.
    pub fn describe(&self) -> (out: String)
        ensures
            out@ == describe_spec(self@),
    {
        match self {
            RequestError::MissingSetting(setting) => {
                let mut out = String::from_str("missing configuration field \"");
                out.append(setting.name());
                out.append("\"");
                out
            },
            RequestError::Configuration(message) => message.clone(),
            RequestError::Network(message) => message.clone(),
            RequestError::Status(status) => {
                let mut out = String::from_str("HTTP status ");
                push_decimal(&mut out, *status);
                out
            },
            RequestError::Decode(message) => {
                let mut out = String::from_str("error decoding response body: ");
                out.append(message.as_str());
                out
            },
        }
    }
}

} // verus!
