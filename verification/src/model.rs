//! The answer of the arrivals service as typed data, and its decoding from
//! JSON.
//!
//! The answer is a JSON object. Only the stop code and the list of services
//! must be there; every other member may be absent or `null`, and members
//! that are not listed here are passed over.

use vstd::prelude::*;
use vstd::string::StringExecFns;
use crate::json::{
    json_tree,
    json_trees,
    value_is_null,
    value_is_object,
    value_items,
    value_member,
    value_text,
    value_unsigned,
    JsonNumber,
    JsonTree,
};

verus! {

/// A member of the answer that is decoded.
#[derive(Clone, Copy, Debug, PartialEq, Eq, Structural)]
pub enum Field {
    BusStopCode,
    Services,
    OdataMetadata,
    ServiceNo,
    Operator,
    NextBus,
    NextBus2,
    NextBus3,
    EstimatedArrival,
    Latitude,
    Longitude,
    Load,
    Feature,
    Type,
    VisitNumber,
    OriginCode,
    DestinationCode,
    Monitored,
}

impl Field {
    /// The name of the member in the JSON object.
    pub open spec fn key_spec(self) -> Seq<char> {
        match self {
            Field::BusStopCode => "BusStopCode"@,
            Field::Services => "Services"@,
            Field::OdataMetadata => "odata.metadata"@,
            Field::ServiceNo => "ServiceNo"@,
            Field::Operator => "Operator"@,
            Field::NextBus => "NextBus"@,
            Field::NextBus2 => "NextBus2"@,
            Field::NextBus3 => "NextBus3"@,
            Field::EstimatedArrival => "EstimatedArrival"@,
            Field::Latitude => "Latitude"@,
            Field::Longitude => "Longitude"@,
            Field::Load => "Load"@,
            Field::Feature => "Feature"@,
            Field::Type => "Type"@,
            Field::VisitNumber => "VisitNumber"@,
            Field::OriginCode => "OriginCode"@,
            Field::DestinationCode => "DestinationCode"@,
            Field::Monitored => "Monitored"@,
        }
    }

    /// The name of the member in the JSON object.
    pub fn key(&self) -> (out: &'static str)
        ensures
            out@ == self.key_spec(),
    {
        match self {
            Field::BusStopCode => "BusStopCode",
            Field::Services => "Services",
            Field::OdataMetadata => "odata.metadata",
            Field::ServiceNo => "ServiceNo",
            Field::Operator => "Operator",
            Field::NextBus => "NextBus",
            Field::NextBus2 => "NextBus2",
            Field::NextBus3 => "NextBus3",
            Field::EstimatedArrival => "EstimatedArrival",
            Field::Latitude => "Latitude",
            Field::Longitude => "Longitude",
            Field::Load => "Load",
            Field::Feature => "Feature",
            Field::Type => "Type",
            Field::VisitNumber => "VisitNumber",
            Field::OriginCode => "OriginCode",
            Field::DestinationCode => "DestinationCode",
            Field::Monitored => "Monitored",
        }
    }
}

/// Why a JSON value is not the typed data asked for.
#[derive(Clone, Copy, Debug, PartialEq, Eq, Structural)]
pub enum DecodeError {
    /// The value to decode is not a JSON object.
    NotAnObject,
    /// A member that must be there is absent.
    Missing(Field),
    /// A member holds a value of a kind that its field cannot take.
    Invalid(Field),
}

/// One predicted arrival of a bus.
#[derive(Clone, Debug, PartialEq, Eq)]
pub struct BusArrival {
    pub estimated_arrival: Option<String>,
    pub latitude: Option<String>,
    pub longitude: Option<String>,
    pub load: Option<String>,
    pub feature: Option<String>,
    pub bus_type: Option<String>,
    pub visit_number: Option<String>,
    pub origin_code: Option<String>,
    pub destination_code: Option<String>,
    pub monitored: Option<u8>,
}

/// One bus service at a stop, with up to three predicted arrivals.
#[derive(Clone, Debug, PartialEq, Eq)]
pub struct BusService {
    pub service_no: Option<String>,
    pub operator: Option<String>,
    pub next_bus: Option<BusArrival>,
    pub next_bus2: Option<BusArrival>,
    pub next_bus3: Option<BusArrival>,
}

/// The answer for one bus stop.
#[derive(Clone, Debug, PartialEq, Eq)]
pub struct BusStopResponse {
    pub bus_stop_code: String,
    pub services: Vec<BusService>,
    pub odata_metadata: Option<String>,
}

/// What a `BusArrival` holds.
pub struct BusArrivalView {
    pub estimated_arrival: Option<Seq<char>>,
    pub latitude: Option<Seq<char>>,
    pub longitude: Option<Seq<char>>,
    pub load: Option<Seq<char>>,
    pub feature: Option<Seq<char>>,
    pub bus_type: Option<Seq<char>>,
    pub visit_number: Option<Seq<char>>,
    pub origin_code: Option<Seq<char>>,
    pub destination_code: Option<Seq<char>>,
    pub monitored: Option<u8>,
}

/// What a `BusService` holds.
pub struct BusServiceView {
    pub service_no: Option<Seq<char>>,
    pub operator: Option<Seq<char>>,
    pub next_bus: Option<BusArrivalView>,
    pub next_bus2: Option<BusArrivalView>,
    pub next_bus3: Option<BusArrivalView>,
}

/// What a `BusStopResponse` holds.
pub struct BusStopResponseView {
    pub bus_stop_code: Seq<char>,
    pub services: Seq<BusServiceView>,
    pub odata_metadata: Option<Seq<char>>,
}

/// What an optional text holds.
pub open spec fn text_view(text: Option<String>) -> Option<Seq<char>> {
    match text {
        Some(text) => Some(text@),
        None => None,
    }
}

/// What an optional arrival holds.
pub open spec fn arrival_view(arrival: Option<BusArrival>) -> Option<BusArrivalView> {
    match arrival {
        Some(arrival) => Some(arrival@),
        None => None,
    }
}

/// What a list of services holds, in order.
pub open spec fn services_view(services: Seq<BusService>) -> Seq<BusServiceView> {
    services.map_values(|service: BusService| service@)
}

impl View for BusArrival {
    type V = BusArrivalView;

    open spec fn view(&self) -> BusArrivalView {
        BusArrivalView {
            estimated_arrival: text_view(self.estimated_arrival),
            latitude: text_view(self.latitude),
            longitude: text_view(self.longitude),
            load: text_view(self.load),
            feature: text_view(self.feature),
            bus_type: text_view(self.bus_type),
            visit_number: text_view(self.visit_number),
            origin_code: text_view(self.origin_code),
            destination_code: text_view(self.destination_code),
            monitored: self.monitored,
        }
    }
}

impl View for BusService {
    type V = BusServiceView;

    open spec fn view(&self) -> BusServiceView {
        BusServiceView {
            service_no: text_view(self.service_no),
            operator: text_view(self.operator),
            next_bus: arrival_view(self.next_bus),
            next_bus2: arrival_view(self.next_bus2),
            next_bus3: arrival_view(self.next_bus3),
        }
    }
}

impl View for BusStopResponse {
    type V = BusStopResponseView;

    open spec fn view(&self) -> BusStopResponseView {
        BusStopResponseView {
            bus_stop_code: self.bus_stop_code@,
            services: services_view(self.services@),
            odata_metadata: text_view(self.odata_metadata),
        }
    }
}

/// The member of an object that stands under the name of `field`; `None`
/// where there is none or the tree is no object.
pub open spec fn member(tree: JsonTree, field: Field) -> Option<JsonTree> {
    match tree {
        JsonTree::Object(members) => if members.contains_key(field.key_spec()) {
            Some(members[field.key_spec()])
        } else {
            None
        },
        _ => None,
    }
}

/// Whether a member is there with a value: neither absent nor `null`.
pub open spec fn present(tree: JsonTree, field: Field) -> bool {
    member(tree, field) matches Some(child) && !(child is Null)
}

/// An optional text member: absent and `null` give `None`, a string gives
/// its text, any other value is invalid.
pub open spec fn text_member_spec(tree: JsonTree, field: Field) -> Result<
    Option<Seq<char>>,
    DecodeError,
> {
    if !present(tree, field) {
        Ok(None)
    } else {
        match member(tree, field)->Some_0 {
            JsonTree::Text(text) => Ok(Some(text)),
            _ => Err(DecodeError::Invalid(field)),
        }
    }
}

/// An optional member that holds a number from 0 to 255: absent and `null`
/// give `None`, such an integer gives its value, any other value is invalid.
pub open spec fn byte_member_spec(tree: JsonTree, field: Field) -> Result<
    Option<u8>,
    DecodeError,
> {
    if !present(tree, field) {
        Ok(None)
    } else {
        match member(tree, field)->Some_0 {
            JsonTree::Number(JsonNumber::Unsigned(n)) => if n <= 255 {
                Ok(Some(n as u8))
            } else {
                Err(DecodeError::Invalid(field))
            },
            _ => Err(DecodeError::Invalid(field)),
        }
    }
}

/// The arrival that an object holds. The members are taken in the order of
/// the fields of `BusArrival`, and the first invalid one is reported.
pub open spec fn arrival_spec(tree: JsonTree) -> Result<BusArrivalView, DecodeError> {
    if !(tree is Object) {
        Err(DecodeError::NotAnObject)
    } else if text_member_spec(tree, Field::EstimatedArrival) is Err {
        Err(DecodeError::Invalid(Field::EstimatedArrival))
    } else if text_member_spec(tree, Field::Latitude) is Err {
        Err(DecodeError::Invalid(Field::Latitude))
    } else if text_member_spec(tree, Field::Longitude) is Err {
        Err(DecodeError::Invalid(Field::Longitude))
    } else if text_member_spec(tree, Field::Load) is Err {
        Err(DecodeError::Invalid(Field::Load))
    } else if text_member_spec(tree, Field::Feature) is Err {
        Err(DecodeError::Invalid(Field::Feature))
    } else if text_member_spec(tree, Field::Type) is Err {
        Err(DecodeError::Invalid(Field::Type))
    } else if text_member_spec(tree, Field::VisitNumber) is Err {
        Err(DecodeError::Invalid(Field::VisitNumber))
    } else if text_member_spec(tree, Field::OriginCode) is Err {
        Err(DecodeError::Invalid(Field::OriginCode))
    } else if text_member_spec(tree, Field::DestinationCode) is Err {
        Err(DecodeError::Invalid(Field::DestinationCode))
    } else if byte_member_spec(tree, Field::Monitored) is Err {
        Err(DecodeError::Invalid(Field::Monitored))
    } else {
        Ok(
            BusArrivalView {
                estimated_arrival: text_member_spec(tree, Field::EstimatedArrival)->Ok_0,
                latitude: text_member_spec(tree, Field::Latitude)->Ok_0,
                longitude: text_member_spec(tree, Field::Longitude)->Ok_0,
                load: text_member_spec(tree, Field::Load)->Ok_0,
                feature: text_member_spec(tree, Field::Feature)->Ok_0,
                bus_type: text_member_spec(tree, Field::Type)->Ok_0,
                visit_number: text_member_spec(tree, Field::VisitNumber)->Ok_0,
                origin_code: text_member_spec(tree, Field::OriginCode)->Ok_0,
                destination_code: text_member_spec(tree, Field::DestinationCode)->Ok_0,
                monitored: byte_member_spec(tree, Field::Monitored)->Ok_0,
            },
        )
    }
}

/// An optional arrival member: absent and `null` give `None`, an object
/// gives the arrival it holds or the error of decoding it, any other value
/// is invalid.
pub open spec fn arrival_member_spec(tree: JsonTree, field: Field) -> Result<
    Option<BusArrivalView>,
    DecodeError,
> {
    if !present(tree, field) {
        Ok(None)
    } else if !(member(tree, field)->Some_0 is Object) {
        Err(DecodeError::Invalid(field))
    } else {
        match arrival_spec(member(tree, field)->Some_0) {
            Ok(arrival) => Ok(Some(arrival)),
            Err(error) => Err(error),
        }
    }
}

/// The service that an object holds. The members are taken in the order of
/// the fields of `BusService`, and the first error is reported.
pub open spec fn service_spec(tree: JsonTree) -> Result<BusServiceView, DecodeError> {
    if !(tree is Object) {
        Err(DecodeError::NotAnObject)
    } else if text_member_spec(tree, Field::ServiceNo) is Err {
        Err(DecodeError::Invalid(Field::ServiceNo))
    } else if text_member_spec(tree, Field::Operator) is Err {
        Err(DecodeError::Invalid(Field::Operator))
    } else if arrival_member_spec(tree, Field::NextBus) is Err {
        Err(arrival_member_spec(tree, Field::NextBus)->Err_0)
    } else if arrival_member_spec(tree, Field::NextBus2) is Err {
        Err(arrival_member_spec(tree, Field::NextBus2)->Err_0)
    } else if arrival_member_spec(tree, Field::NextBus3) is Err {
        Err(arrival_member_spec(tree, Field::NextBus3)->Err_0)
    } else {
        Ok(
            BusServiceView {
                service_no: text_member_spec(tree, Field::ServiceNo)->Ok_0,
                operator: text_member_spec(tree, Field::Operator)->Ok_0,
                next_bus: arrival_member_spec(tree, Field::NextBus)->Ok_0,
                next_bus2: arrival_member_spec(tree, Field::NextBus2)->Ok_0,
                next_bus3: arrival_member_spec(tree, Field::NextBus3)->Ok_0,
            },
        )
    }
}

/// The service that one element of the list of services holds: an element
/// that is no object is an invalid list.
pub open spec fn service_item_spec(tree: JsonTree) -> Result<BusServiceView, DecodeError> {
    if tree is Object {
        service_spec(tree)
    } else {
        Err(DecodeError::Invalid(Field::Services))
    }
}

/// The services that a list holds, in order, or the error of the first
/// element that has one.
pub open spec fn services_spec(items: Seq<JsonTree>) -> Result<Seq<BusServiceView>, DecodeError>
    decreases items.len(),
{
    if items.len() == 0 {
        Ok(Seq::empty())
    } else {
        match services_spec(items.drop_last()) {
            Err(error) => Err(error),
            Ok(front) => match service_item_spec(items.last()) {
                Err(error) => Err(error),
                Ok(service) => Ok(front.push(service)),
            },
        }
    }
}

/// The list of services of an answer: it must be there, and be a list.
pub open spec fn services_member_spec(tree: JsonTree) -> Result<
    Seq<BusServiceView>,
    DecodeError,
> {
    match member(tree, Field::Services) {
        None => Err(DecodeError::Missing(Field::Services)),
        Some(JsonTree::List(items)) => services_spec(items),
        Some(_) => Err(DecodeError::Invalid(Field::Services)),
    }
}

/// The stop code of an answer: it must be there, and be a string.
pub open spec fn stop_code_spec(tree: JsonTree) -> Result<Seq<char>, DecodeError> {
    match member(tree, Field::BusStopCode) {
        None => Err(DecodeError::Missing(Field::BusStopCode)),
        Some(JsonTree::Text(code)) => Ok(code),
        Some(_) => Err(DecodeError::Invalid(Field::BusStopCode)),
    }
}

/// The answer that an object holds. The stop code is taken first, then the
/// services, then the metadata, and the first error is reported.
pub open spec fn response_spec(tree: JsonTree) -> Result<BusStopResponseView, DecodeError> {
    if !(tree is Object) {
        Err(DecodeError::NotAnObject)
    } else if stop_code_spec(tree) is Err {
        Err(stop_code_spec(tree)->Err_0)
    } else if services_member_spec(tree) is Err {
        Err(services_member_spec(tree)->Err_0)
    } else if text_member_spec(tree, Field::OdataMetadata) is Err {
        Err(DecodeError::Invalid(Field::OdataMetadata))
    } else {
        Ok(
            BusStopResponseView {
                bus_stop_code: stop_code_spec(tree)->Ok_0,
                services: services_member_spec(tree)->Ok_0,
                odata_metadata: text_member_spec(tree, Field::OdataMetadata)->Ok_0,
            },
        )
    }
}

/// The member of `value` under the name of `field`, where it is there with
/// a value other than `null`.
fn present_member<'a>(value: &'a serde_json::Value, field: Field) -> (out: Option<
    &'a serde_json::Value,
>)
    ensures
        match out {
            Some(child) => present(json_tree(*value), field) && member(json_tree(*value), field)
                == Some(json_tree(*child)),
            None => !present(json_tree(*value), field),
        },
{
    match value_member(value, field.key()) {
        None => None,
        Some(child) => if value_is_null(child) {
            None
        } else {
            Some(child)
        },
    }
}

/// Decodes an optional text member.
fn text_member(value: &serde_json::Value, field: Field) -> (out: Result<
    Option<String>,
    DecodeError,
>)
    ensures
        match text_member_spec(json_tree(*value), field) {
            Ok(text) => out matches Ok(found) && text_view(found) == text,
            Err(error) => out matches Err(reason) && reason == error,
        },
{
    match present_member(value, field) {
        None => Ok(None),
        Some(child) => match value_text(child) {
            Some(text) => Ok(Some(String::from_str(text))),
            None => Err(DecodeError::Invalid(field)),
        },
    }
}

/// Decodes an optional member that holds a number from 0 to 255.
fn byte_member(value: &serde_json::Value, field: Field) -> (out: Result<Option<u8>, DecodeError>)
    ensures
        out == byte_member_spec(json_tree(*value), field),
{
    match present_member(value, field) {
        None => Ok(None),
        Some(child) => match value_unsigned(child) {
            Some(n) => if n <= 255 {
                Ok(Some(n as u8))
            } else {
                Err(DecodeError::Invalid(field))
            },
            None => Err(DecodeError::Invalid(field)),
        },
    }
}

impl BusArrival {
    /// Decodes an arrival from a JSON value.
    ///
    /// The value must be an object. Each member may be absent or `null`;
    /// one that is there must be a string, and `Monitored` an integer from
    /// 0 to 255. Every member that is there is kept as it is.
    pub fn from_json(value: &serde_json::Value) -> (out: Result<BusArrival, DecodeError>)
        ensures
            match arrival_spec(json_tree(*value)) {
                Ok(arrival) => out matches Ok(found) && found@ == arrival,
                Err(error) => out matches Err(reason) && reason == error,
            },
    {
        if !value_is_object(value) {
            return Err(DecodeError::NotAnObject);
        }
        let estimated_arrival = text_member(value, Field::EstimatedArrival)?;
        let latitude = text_member(value, Field::Latitude)?;
        let longitude = text_member(value, Field::Longitude)?;
        let load = text_member(value, Field::Load)?;
        let feature = text_member(value, Field::Feature)?;
        let bus_type = text_member(value, Field::Type)?;
        let visit_number = text_member(value, Field::VisitNumber)?;
        let origin_code = text_member(value, Field::OriginCode)?;
        let destination_code = text_member(value, Field::DestinationCode)?;
        let monitored = byte_member(value, Field::Monitored)?;
        Ok(
            BusArrival {
                estimated_arrival,
                latitude,
                longitude,
                load,
                feature,
                bus_type,
                visit_number,
                origin_code,
                destination_code,
                monitored,
            },
        )
    }
}

/// Decodes an optional arrival member.
fn arrival_member(value: &serde_json::Value, field: Field) -> (out: Result<
    Option<BusArrival>,
    DecodeError,
>)
    ensures
        match arrival_member_spec(json_tree(*value), field) {
            Ok(arrival) => out matches Ok(found) && arrival_view(found) == arrival,
            Err(error) => out matches Err(reason) && reason == error,
        },
{
    match present_member(value, field) {
        None => Ok(None),
        Some(child) => if value_is_object(child) {
            Ok(Some(BusArrival::from_json(child)?))
        } else {
            Err(DecodeError::Invalid(field))
        },
    }
}

impl BusService {
    /// Decodes a service from a JSON value.
    ///
    /// The value must be an object. Each member may be absent or `null`;
    /// the service number and the operator, where there, must be strings,
    /// and each of the three arrivals an object that decodes as an arrival.
    pub fn from_json(value: &serde_json::Value) -> (out: Result<BusService, DecodeError>)
        ensures
            match service_spec(json_tree(*value)) {
                Ok(service) => out matches Ok(found) && found@ == service,
                Err(error) => out matches Err(reason) && reason == error,
            },
    {
        if !value_is_object(value) {
            return Err(DecodeError::NotAnObject);
        }
        let service_no = text_member(value, Field::ServiceNo)?;
        let operator = text_member(value, Field::Operator)?;
        let next_bus = arrival_member(value, Field::NextBus)?;
        let next_bus2 = arrival_member(value, Field::NextBus2)?;
        let next_bus3 = arrival_member(value, Field::NextBus3)?;
        Ok(BusService { service_no, operator, next_bus, next_bus2, next_bus3 })
    }
}

/// An error among the first `upto` elements is the error of the whole list.
proof fn lemma_services_error_stays(items: Seq<JsonTree>, upto: int)
    requires
        0 <= upto <= items.len(),
        services_spec(items.take(upto)) is Err,
    ensures
        services_spec(items) == services_spec(items.take(upto)),
    decreases items.len() - upto,
{
    if upto == items.len() {
        assert(items.take(upto) =~= items);
    } else {
        assert(items.take(upto + 1).drop_last() =~= items.take(upto));
        lemma_services_error_stays(items, upto + 1);
    }
}

/// Decodes the elements of the list of services, in order.
fn services_from(items: &Vec<serde_json::Value>) -> (out: Result<Vec<BusService>, DecodeError>)
    ensures
        match services_spec(json_trees(items@)) {
            Ok(services) => out matches Ok(found) && services_view(found@) == services,
            Err(error) => out matches Err(reason) && reason == error,
        },
{
    let ghost trees = json_trees(items@);
    let mut found: Vec<BusService> = Vec::new();
    let mut i: usize = 0;
    while i < items.len()
        invariant
            i <= items.len(),
            trees == json_trees(items@),
            services_spec(trees.take(i as int)) matches Ok(services) && services == services_view(
                found@,
            ),
        decreases items.len() - i,
    {
        let item = &items[i];
        assert(trees.take(i + 1).drop_last() =~= trees.take(i as int));
        if !value_is_object(item) {
            proof {
                lemma_services_error_stays(trees, i + 1);
            }
            return Err(DecodeError::Invalid(Field::Services));
        }
        match BusService::from_json(item) {
            Ok(service) => {
                found.push(service);
            },
            Err(error) => {
                proof {
                    lemma_services_error_stays(trees, i + 1);
                }
                return Err(error);
            },
        }
        i += 1;
    }
    assert(trees.take(i as int) =~= trees);
    Ok(found)
}

impl BusStopResponse {
    /// Decodes the answer for a bus stop from a JSON value.
    ///
    /// The value must be an object with the stop code as a string and the
    /// services as a list of objects; the metadata may be absent or `null`.
    /// Every member that is decoded is kept as it is, and the services stay
    /// in their order.
    pub fn from_json(value: &serde_json::Value) -> (out: Result<BusStopResponse, DecodeError>)
        ensures
            match response_spec(json_tree(*value)) {
                Ok(response) => out matches Ok(found) && found@ == response,
                Err(error) => out matches Err(reason) && reason == error,
            },
    {
        if !value_is_object(value) {
            return Err(DecodeError::NotAnObject);
        }
        let bus_stop_code = match value_member(value, Field::BusStopCode.key()) {
            None => {
                return Err(DecodeError::Missing(Field::BusStopCode));
            },
            Some(child) => match value_text(child) {
                Some(code) => String::from_str(code),
                None => {
                    return Err(DecodeError::Invalid(Field::BusStopCode));
                },
            },
        };
        let services = match value_member(value, Field::Services.key()) {
            None => {
                return Err(DecodeError::Missing(Field::Services));
            },
            Some(child) => match value_items(child) {
                Some(items) => services_from(items)?,
                None => {
                    return Err(DecodeError::Invalid(Field::Services));
                },
            },
        };
        let odata_metadata = text_member(value, Field::OdataMetadata)?;
        Ok(BusStopResponse { bus_stop_code, services, odata_metadata })
    }
}

} // verus!
