//! Typed data written as JSON trees, and the law that decoding reads back
//! exactly what was written.

use vstd::prelude::*;
use crate::json::{JsonNumber, JsonTree};
use crate::model::{
    arrival_spec,
    response_spec,
    service_spec,
    services_spec,
    BusArrivalView,
    BusServiceView,
    BusStopResponseView,
    Field,
};

verus! {

/// The members of an object, by name.
pub type Members = Map<Seq<char>, JsonTree>;

/// `members` with `field` set to `value` where there is one, and left as
/// they are where there is none.
pub open spec fn with_member(members: Members, field: Field, value: Option<JsonTree>) -> Members {
    match value {
        Some(value) => members.insert(field.key_spec(), value),
        None => members,
    }
}

/// An optional text as a JSON string.
pub open spec fn text_tree(text: Option<Seq<char>>) -> Option<JsonTree> {
    match text {
        Some(text) => Some(JsonTree::Text(text)),
        None => None,
    }
}

/// An optional byte as a JSON number.
pub open spec fn byte_tree(byte: Option<u8>) -> Option<JsonTree> {
    match byte {
        Some(byte) => Some(JsonTree::Number(JsonNumber::Unsigned(byte as u64))),
        None => None,
    }
}

/// The members of the object that an arrival is written as: one for each
/// field that holds a value.
pub open spec fn arrival_members(arrival: BusArrivalView) -> Members {
    let m = Map::empty();
    let m = with_member(m, Field::EstimatedArrival, text_tree(arrival.estimated_arrival));
    let m = with_member(m, Field::Latitude, text_tree(arrival.latitude));
    let m = with_member(m, Field::Longitude, text_tree(arrival.longitude));
    let m = with_member(m, Field::Load, text_tree(arrival.load));
    let m = with_member(m, Field::Feature, text_tree(arrival.feature));
    let m = with_member(m, Field::Type, text_tree(arrival.bus_type));
    let m = with_member(m, Field::VisitNumber, text_tree(arrival.visit_number));
    let m = with_member(m, Field::OriginCode, text_tree(arrival.origin_code));
    let m = with_member(m, Field::DestinationCode, text_tree(arrival.destination_code));
    with_member(m, Field::Monitored, byte_tree(arrival.monitored))
}

/// An arrival written as a JSON object.
pub open spec fn arrival_tree(arrival: BusArrivalView) -> JsonTree {
    JsonTree::Object(arrival_members(arrival))
}

/// An optional arrival as a JSON object.
pub open spec fn optional_arrival_tree(arrival: Option<BusArrivalView>) -> Option<JsonTree> {
    match arrival {
        Some(arrival) => Some(arrival_tree(arrival)),
        None => None,
    }
}

/// The members of the object that a service is written as.
pub open spec fn service_members(service: BusServiceView) -> Members {
    let m = Map::empty();
    let m = with_member(m, Field::ServiceNo, text_tree(service.service_no));
    let m = with_member(m, Field::Operator, text_tree(service.operator));
    let m = with_member(m, Field::NextBus, optional_arrival_tree(service.next_bus));
    let m = with_member(m, Field::NextBus2, optional_arrival_tree(service.next_bus2));
    with_member(m, Field::NextBus3, optional_arrival_tree(service.next_bus3))
}

/// A service written as a JSON object.
pub open spec fn service_tree(service: BusServiceView) -> JsonTree {
    JsonTree::Object(service_members(service))
}

/// A list of services written as JSON objects, in order.
pub open spec fn service_trees(services: Seq<BusServiceView>) -> Seq<JsonTree> {
    services.map_values(|service: BusServiceView| service_tree(service))
}

/// The members of the object that an answer is written as.
pub open spec fn response_members(response: BusStopResponseView) -> Members {
    let m = Map::empty();
    let m = m.insert(Field::BusStopCode.key_spec(), JsonTree::Text(response.bus_stop_code));
    let m = m.insert(Field::Services.key_spec(), JsonTree::List(service_trees(response.services)));
    with_member(m, Field::OdataMetadata, text_tree(response.odata_metadata))
}

/// An answer written as a JSON object.
pub open spec fn response_tree(response: BusStopResponseView) -> JsonTree {
    JsonTree::Object(response_members(response))
}

/// No two fields share a member name.
pub proof fn lemma_keys_differ(a: Field, b: Field)
    requires
        a != b,
    ensures
        a.key_spec() != b.key_spec(),
{
    reveal_strlit("BusStopCode");
    reveal_strlit("Services");
    reveal_strlit("odata.metadata");
    reveal_strlit("ServiceNo");
    reveal_strlit("Operator");
    reveal_strlit("NextBus");
    reveal_strlit("NextBus2");
    reveal_strlit("NextBus3");
    reveal_strlit("EstimatedArrival");
    reveal_strlit("Latitude");
    reveal_strlit("Longitude");
    reveal_strlit("Load");
    reveal_strlit("Feature");
    reveal_strlit("Type");
    reveal_strlit("VisitNumber");
    reveal_strlit("OriginCode");
    reveal_strlit("DestinationCode");
    reveal_strlit("Monitored");
    let x = a.key_spec();
    let y = b.key_spec();
    if x.len() == y.len() {
        assert(x[0] != y[0] || x[7] != y[7]);
    }
}

/// Decoding an arrival that was written as a JSON object gives the arrival
/// back: no field is lost or changed.
pub proof fn law_arrival_round_trip(arrival: BusArrivalView)
    ensures
        arrival_spec(arrival_tree(arrival)) matches Ok(decoded) && decoded == arrival,
{
    assert forall|a: Field, b: Field| a != b implies a.key_spec() != b.key_spec() by {
        lemma_keys_differ(a, b);
    }
}

/// Decoding a service that was written as a JSON object gives the service
/// back, with each of its arrivals.
pub proof fn law_service_round_trip(service: BusServiceView)
    ensures
        service_spec(service_tree(service)) matches Ok(decoded) && decoded == service,
{
    assert forall|a: Field, b: Field| a != b implies a.key_spec() != b.key_spec() by {
        lemma_keys_differ(a, b);
    }
    if service.next_bus is Some {
        law_arrival_round_trip(service.next_bus->Some_0);
    }
    if service.next_bus2 is Some {
        law_arrival_round_trip(service.next_bus2->Some_0);
    }
    if service.next_bus3 is Some {
        law_arrival_round_trip(service.next_bus3->Some_0);
    }
}

/// Decoding a list of services that were written as JSON objects gives the
/// services back, in their order.
pub proof fn law_services_round_trip(services: Seq<BusServiceView>)
    ensures
        services_spec(service_trees(services)) matches Ok(decoded) && decoded == services,
    decreases services.len(),
{
    let trees = service_trees(services);
    if services.len() > 0 {
        assert(trees.drop_last() =~= service_trees(services.drop_last()));
        law_services_round_trip(services.drop_last());
        law_service_round_trip(services.last());
    }
}

/// Decoding an answer that was written as a JSON object gives the answer
/// back: the stop code, every service in its place, and the metadata.
pub proof fn law_response_round_trip(response: BusStopResponseView)
    ensures
        response_spec(response_tree(response)) matches Ok(decoded) && decoded == response,
{
    assert forall|a: Field, b: Field| a != b implies a.key_spec() != b.key_spec() by {
        lemma_keys_differ(a, b);
    }
    law_services_round_trip(response.services);
}

} // verus!
