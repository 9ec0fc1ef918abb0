//! The shape of the carrier's JSON, and how a document of that shape is read.

use crate::errors::Error;
use crate::json::{json_document, json_view, member, parse, Json};
use crate::model::rfc3339::{deserialize, deserialize_option, rfc3339_instant};
use crate::model::{
    APIResponse, APIResponseView, Event, EventView, Shipment, ShipmentView, TimelineEvent,
    TimelineEventView, Timestamp,
};
use serde_json::Value;
use vstd::prelude::*;

verus! {

/// The timestamp in member `key`, which must be there.
pub open spec fn instant_at(doc: Json, key: Seq<char>) -> Option<Timestamp> {
    match doc.member(key) {
        Some(Json::Text(text)) => rfc3339_instant(text),
        _ => None,
    }
}

/// The timestamp in member `key`, which may be missing or `null`. The outer `None` says
/// that the member holds something else.
pub open spec fn optional_instant_at(doc: Json, key: Seq<char>) -> Option<Option<Timestamp>> {
    match doc.member(key) {
        None => Some(None),
        Some(Json::Null) => Some(None),
        Some(Json::Text(text)) => match rfc3339_instant(text) {
            Some(instant) => Some(Some(instant)),
            None => None,
        },
        Some(_) => None,
    }
}

/// The text in member `key`.
pub open spec fn text_at(doc: Json, key: Seq<char>) -> Option<Seq<char>> {
    match doc.member(key) {
        Some(found) => found.text(),
        None => None,
    }
}

/// The number from 0 to 255 in member `key`.
pub open spec fn small_at(doc: Json, key: Seq<char>) -> Option<u8> {
    match doc.member(key) {
        Some(found) => found.small(),
        None => None,
    }
}

/// The `true` or `false` in member `key`.
pub open spec fn flag_at(doc: Json, key: Seq<char>) -> Option<bool> {
    match doc.member(key) {
        Some(found) => found.flag(),
        None => None,
    }
}

/// An entry of the log: an object with `code`, `date`, `label` and `order`.
pub open spec fn event_of(doc: Json) -> Option<EventView> {
    match (
        text_at(doc, "code"@),
        instant_at(doc, "date"@),
        text_at(doc, "label"@),
        small_at(doc, "order"@),
    ) {
        (Some(code), Some(date), Some(label), Some(order)) => Some(
            EventView { code, date, label, order },
        ),
        _ => None,
    }
}

/// A step of the timeline: an object with `code`, `id`, `shortLabel`, `status` and,
/// once the step is achieved, `date`.
pub open spec fn timeline_event_of(doc: Json) -> Option<TimelineEventView> {
    match (
        text_at(doc, "code"@),
        optional_instant_at(doc, "date"@),
        small_at(doc, "id"@),
        text_at(doc, "shortLabel"@),
        flag_at(doc, "status"@),
    ) {
        (Some(code), Some(date), Some(id), Some(label), Some(achieved)) => Some(
            TimelineEventView { code, date, id, label, achieved },
        ),
        _ => None,
    }
}

/// The log: an array of entries, in the order of the array.
pub open spec fn events_of(doc: Json) -> Option<Seq<EventView>> {
    match doc {
        Json::Array(items) => if forall|i: int|
            0 <= i < items.len() ==> event_of(#[trigger] items[i]) is Some {
            Some(Seq::new(items.len(), |i: int| event_of(items[i])->0))
        } else {
            None
        },
        _ => None,
    }
}

/// The timeline: an array of exactly five steps.
pub open spec fn timeline_of(doc: Json) -> Option<Seq<TimelineEventView>> {
    match doc {
        Json::Array(items) => if items.len() == 5 && forall|i: int|
            0 <= i < 5 ==> timeline_event_of(#[trigger] items[i]) is Some {
            Some(Seq::new(5, |i: int| timeline_event_of(items[i])->0))
        } else {
            None
        },
        _ => None,
    }
}

/// The log in member `key`.
pub open spec fn events_at(doc: Json, key: Seq<char>) -> Option<Seq<EventView>> {
    match doc.member(key) {
        Some(found) => events_of(found),
        None => None,
    }
}

/// The timeline in member `key`.
pub open spec fn timeline_at(doc: Json, key: Seq<char>) -> Option<Seq<TimelineEventView>> {
    match doc.member(key) {
        Some(found) => timeline_of(found),
        None => None,
    }
}

/// A shipment: an object with `entryDate`, `estimDate`, `event`, `idShip`, `product` and
/// `timeline`.
pub open spec fn shipment_of(doc: Json) -> Option<ShipmentView> {
    match (
        instant_at(doc, "entryDate"@),
        instant_at(doc, "estimDate"@),
        events_at(doc, "event"@),
        text_at(doc, "idShip"@),
        text_at(doc, "product"@),
        timeline_at(doc, "timeline"@),
    ) {
        (
            Some(entry_date),
            Some(estimated_date),
            Some(events),
            Some(id),
            Some(service),
            Some(timeline),
        ) => Some(ShipmentView { entry_date, estimated_date, events, id, service, timeline }),
        _ => None,
    }
}

/// The shipment in member `key`, which may be missing or `null`. The outer `None` says
/// that the member holds something that is no shipment.
pub open spec fn optional_shipment_at(doc: Json, key: Seq<char>) -> Option<Option<ShipmentView>> {
    match doc.member(key) {
        None => Some(None),
        Some(Json::Null) => Some(None),
        Some(found) => match shipment_of(found) {
            Some(shipment) => Some(Some(shipment)),
            None => None,
        },
    }
}

/// The text in member `key`, which may be missing or `null`. The outer `None` says that
/// the member holds something else.
pub open spec fn optional_text_at(doc: Json, key: Seq<char>) -> Option<Option<Seq<char>>> {
    match doc.member(key) {
        None => Some(None),
        Some(Json::Null) => Some(None),
        Some(Json::Text(text)) => Some(Some(text)),
        Some(_) => None,
    }
}

/// The envelope: an object that may have a `shipment` and a `returnMessage`.
pub open spec fn envelope_of(doc: Json) -> Option<APIResponseView> {
    match (doc, optional_shipment_at(doc, "shipment"@), optional_text_at(doc, "returnMessage"@)) {
        (Json::Object(_), Some(shipment), Some(return_message)) => Some(
            APIResponseView { shipment, return_message },
        ),
        _ => None,
    }
}

/// The envelope in the bytes of a response body.
pub open spec fn envelope_in(body: Seq<u8>) -> Option<APIResponseView> {
    match json_document(body) {
        Some(doc) => envelope_of(doc),
        None => None,
    }
}

/// A shipment that is read is the document's, member by member: the texts and the
/// timestamps of its members, every entry of the log in the order of the array, and
/// the five steps of the timeline in theirs.
pub proof fn lemma_shipment_is_read_whole(doc: Json)
    requires
        shipment_of(doc) is Some,
    ensures
        ({
            let shipment = shipment_of(doc)->0;
            &&& doc.member("idShip"@) == Some(Json::Text(shipment.id))
            &&& doc.member("product"@) == Some(Json::Text(shipment.service))
            &&& instant_at(doc, "entryDate"@) == Some(shipment.entry_date)
            &&& instant_at(doc, "estimDate"@) == Some(shipment.estimated_date)
            &&& doc.member("event"@) matches Some(Json::Array(entries))
            &&& shipment.events.len() == entries.len()
            &&& forall|i: int|
                0 <= i < entries.len() ==> event_of(#[trigger] entries[i]) == Some(
                    shipment.events[i],
                )
            &&& doc.member("timeline"@) matches Some(Json::Array(steps))
            &&& shipment.timeline.len() == 5 == steps.len()
            &&& forall|i: int|
                0 <= i < 5 ==> timeline_event_of(#[trigger] steps[i]) == Some(
                    shipment.timeline[i],
                )
        }),
{
}

/// `found` is what `expected` describes.
pub open spec fn describes<T: View>(expected: Option<T::V>, found: Option<T>) -> bool {
    match expected {
        Some(view) => found matches Some(value) && value@ == view,
        None => found is None,
    }
}

fn read_text(doc: &Value, key: &str) -> (r: Option<String>)
    ensures
        describes(text_at(json_view(*doc), key@), r),
{
    match member(doc, key) {
        Some(found) => match found.as_str() {
            Some(text) => Some(text.to_owned()),
            None => None,
        },
        None => None,
    }
}

fn read_small(doc: &Value, key: &str) -> (r: Option<u8>)
    ensures
        r == small_at(json_view(*doc), key@),
{
    match member(doc, key) {
        Some(found) => match found.as_u64() {
            Some(n) => if n <= 255 {
                Some(n as u8)
            } else {
                None
            },
            None => None,
        },
        None => None,
    }
}

fn read_flag(doc: &Value, key: &str) -> (r: Option<bool>)
    ensures
        r == flag_at(json_view(*doc), key@),
{
    match member(doc, key) {
        Some(found) => found.as_bool(),
        None => None,
    }
}

fn read_instant(doc: &Value, key: &str) -> (r: Option<Timestamp>)
    ensures
        r == instant_at(json_view(*doc), key@),
{
    match member(doc, key) {
        Some(found) => match found.as_str() {
            Some(text) => match deserialize(text) {
                Ok(instant) => Some(instant),
                Err(_) => None,
            },
            None => None,
        },
        None => None,
    }
}

fn read_optional_instant(doc: &Value, key: &str) -> (r: Option<Option<Timestamp>>)
    ensures
        r == optional_instant_at(json_view(*doc), key@),
{
    match member(doc, key) {
        None => Some(None),
        Some(found) => if found.is_null() {
            Some(None)
        } else {
            match found.as_str() {
                Some(text) => match deserialize_option(Some(text)) {
                    Ok(instant) => Some(instant),
                    Err(_) => None,
                },
                None => None,
            }
        },
    }
}

impl Event {
    /// Reads an entry of the log.
    pub fn from_json(doc: &Value) -> (r: Option<Event>)
        ensures
            describes(event_of(json_view(*doc)), r),
    {
        let code = read_text(doc, "code");
        let date = read_instant(doc, "date");
        let label = read_text(doc, "label");
        let order = read_small(doc, "order");
        match (code, date, label, order) {
            (Some(code), Some(date), Some(label), Some(order)) => Some(
                Event { code, date, label, order },
            ),
            _ => None,
        }
    }
}

impl TimelineEvent {
    /// Reads a step of the timeline.
    pub fn from_json(doc: &Value) -> (r: Option<TimelineEvent>)
        ensures
            describes(timeline_event_of(json_view(*doc)), r),
    {
        let code = read_text(doc, "code");
        let date = read_optional_instant(doc, "date");
        let id = read_small(doc, "id");
        let label = read_text(doc, "shortLabel");
        let achieved = read_flag(doc, "status");
        match (code, date, id, label, achieved) {
            (Some(code), Some(date), Some(id), Some(label), Some(achieved)) => Some(
                TimelineEvent { code, date, id, label, achieved },
            ),
            _ => None,
        }
    }
}

/// Reads the log in member `key`, entry by entry.
fn read_events(doc: &Value, key: &str) -> (r: Option<Vec<Event>>)
    ensures
        match events_at(json_view(*doc), key@) {
            Some(events) => r matches Some(read) && events == Seq::new(
                read@.len(),
                |i: int| read@[i]@,
            ),
            None => r is None,
        },
{
    let items = match member(doc, key) {
        Some(found) => match found.as_array() {
            Some(items) => items,
            None => {
                return None;
            },
        },
        None => {
            return None;
        },
    };
    let ghost docs = Seq::new(items@.len(), |i: int| json_view(items@[i]));
    let mut read: Vec<Event> = Vec::new();
    let mut at: usize = 0;
    while at < items.len()
        invariant
            at <= items@.len(),
            docs == Seq::new(items@.len(), |i: int| json_view(items@[i])),
            events_at(json_view(*doc), key@) == events_of(Json::Array(docs)),
            read@.len() == at,
            forall|i: int| 0 <= i < at ==> event_of(#[trigger] docs[i]) == Some(read@[i]@),
        decreases items@.len() - at,
    {
        match Event::from_json(&items[at]) {
            Some(event) => {
                read.push(event);
            },
            None => {
                assert(event_of(docs[at as int]) is None);
                return None;
            },
        }
        at += 1;
    }
    assert(events_of(Json::Array(docs))->0 =~= Seq::new(read@.len(), |i: int| read@[i]@));
    Some(read)
}

/// Reads the timeline in member `key`: five steps, no more and no fewer.
fn read_timeline(doc: &Value, key: &str) -> (r: Option<[TimelineEvent; 5]>)
    ensures
        match timeline_at(json_view(*doc), key@) {
            Some(timeline) => r matches Some(read) && timeline == Seq::new(
                5,
                |i: int| read@[i]@,
            ),
            None => r is None,
        },
{
    let items = match member(doc, key) {
        Some(found) => match found.as_array() {
            Some(items) => items,
            None => {
                return None;
            },
        },
        None => {
            return None;
        },
    };
    if items.len() != 5 {
        return None;
    }
    let ghost docs = Seq::new(5, |i: int| json_view(items@[i]));
    let first = TimelineEvent::from_json(&items[0]);
    let second = TimelineEvent::from_json(&items[1]);
    let third = TimelineEvent::from_json(&items[2]);
    let fourth = TimelineEvent::from_json(&items[3]);
    let fifth = TimelineEvent::from_json(&items[4]);
    match (first, second, third, fourth, fifth) {
        (Some(first), Some(second), Some(third), Some(fourth), Some(fifth)) => {
            let read = [first, second, third, fourth, fifth];
            assert(timeline_of(Json::Array(docs))->0 =~= Seq::new(5, |i: int| read@[i]@));
            Some(read)
        },
        _ => {
            assert(timeline_event_of(docs[0]) is None || timeline_event_of(docs[1]) is None
                || timeline_event_of(docs[2]) is None || timeline_event_of(docs[3]) is None
                || timeline_event_of(docs[4]) is None);
            None
        },
    }
}

impl Shipment {
    /// Reads a shipment.
    pub fn from_json(doc: &Value) -> (r: Option<Shipment>)
        ensures
            describes(shipment_of(json_view(*doc)), r),
    {
        let entry_date = read_instant(doc, "entryDate");
        let estimated_date = read_instant(doc, "estimDate");
        let events = read_events(doc, "event");
        let id = read_text(doc, "idShip");
        let service = read_text(doc, "product");
        let timeline = read_timeline(doc, "timeline");
        match (entry_date, estimated_date, events, id, service, timeline) {
            (
                Some(entry_date),
                Some(estimated_date),
                Some(events),
                Some(id),
                Some(service),
                Some(timeline),
            ) => Some(Shipment { entry_date, estimated_date, events, id, service, timeline }),
            _ => None,
        }
    }
}

impl APIResponse {
    /// Reads the envelope.
    pub fn from_json(doc: &Value) -> (r: Option<APIResponse>)
        ensures
            describes(envelope_of(json_view(*doc)), r),
    {
        if !doc.is_object() {
            return None;
        }
        let shipment = match member(doc, "shipment") {
            None => None,
            Some(found) => if found.is_null() {
                None
            } else {
                match Shipment::from_json(found) {
                    Some(shipment) => Some(shipment),
                    None => {
                        return None;
                    },
                }
            },
        };
        let return_message = match member(doc, "returnMessage") {
            None => None,
            Some(found) => if found.is_null() {
                None
            } else {
                match found.as_str() {
                    Some(text) => Some(text.to_owned()),
                    None => {
                        return None;
                    },
                }
            },
        };
        Some(APIResponse { shipment, return_message })
    }

    /// Reads the envelope from the body of a response. A body that is no JSON, or JSON
    /// of another shape, is a malformed response.
    pub fn from_slice(body: &[u8]) -> (r: Result<APIResponse, Error>)
        ensures
            match envelope_in(body@) {
                Some(envelope) => r matches Ok(read) && read@ == envelope,
                None => r matches Err(e) && e is Response,
            },
    {
        match parse(body) {
            Ok(doc) => match APIResponse::from_json(&doc) {
                Some(envelope) => Ok(envelope),
                None => Err(Error::Response),
            },
            Err(_) => Err(Error::Response),
        }
    }
}

} // verus!
