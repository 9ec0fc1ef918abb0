//! What the carrier says of a shipment, and the envelope it comes in.

use crate::errors::{Error, ErrorView};
use vstd::prelude::*;

pub mod decode;
pub mod rfc3339;

verus! {

/// An instant with the offset from UTC that it was written with.
#[derive(Clone, Copy, Debug, PartialEq, Eq, Structural)]
pub struct Timestamp {
    /// Seconds since 1970-01-01T00:00:00Z, leap seconds not counted.
    pub seconds: i64,
    /// Nanoseconds since the last full second; above 999,999,999 within a leap second.
    pub nanos: u32,
    /// Seconds that local time is ahead of UTC.
    pub offset: i32,
}

/// One entry of the carrier's log of a shipment.
#[derive(Debug)]
pub struct Event {
    /// Short code describing the event
    pub code: String,
    pub date: Timestamp,
    pub label: String,
    /// The rank that the carrier gave the entry.
    pub order: u8,
}

/// Represents one of the five possible timeline events
#[derive(Debug)]
pub struct TimelineEvent {
    pub code: String,
    /// There once the step is achieved.
    pub date: Option<Timestamp>,
    /// 1; 2; 3; 4 or 5
    pub id: u8,
    pub label: String,
    /// If true, this event is "achieved" or "unlocked".
    pub achieved: bool,
}

#[derive(Debug)]
pub struct Shipment {
    /// Date on which the shipment entered the logistic circuit
    pub entry_date: Timestamp,
    /// Estimated delivery date
    pub estimated_date: Timestamp,
    /// Arbitrary-length list of events associated with a date
    pub events: Vec<Event>,
    /// Shipment ID. Corresponds to the ID used to fetch all of this data.
    pub id: String,
    /// The carrier's product, such as `"colissimo"`.
    pub service: String,
    /// A five-step timeline of key events that the shipment has or will "achieve"
    pub timeline: [TimelineEvent; 5],
}

/// The carrier's answer as it arrives: a shipment, or a message that says why there is none.
#[derive(Debug)]
pub struct APIResponse {
    pub shipment: Option<Shipment>,
    pub return_message: Option<String>,
}

pub struct EventView {
    pub code: Seq<char>,
    pub date: Timestamp,
    pub label: Seq<char>,
    pub order: u8,
}

pub struct TimelineEventView {
    pub code: Seq<char>,
    pub date: Option<Timestamp>,
    pub id: u8,
    pub label: Seq<char>,
    pub achieved: bool,
}

pub struct ShipmentView {
    pub entry_date: Timestamp,
    pub estimated_date: Timestamp,
    pub events: Seq<EventView>,
    pub id: Seq<char>,
    pub service: Seq<char>,
    pub timeline: Seq<TimelineEventView>,
}

pub struct APIResponseView {
    pub shipment: Option<ShipmentView>,
    pub return_message: Option<Seq<char>>,
}

impl View for Event {
    type V = EventView;

    open spec fn view(&self) -> EventView {
        EventView { code: self.code@, date: self.date, label: self.label@, order: self.order }
    }
}

impl View for TimelineEvent {
    type V = TimelineEventView;

    open spec fn view(&self) -> TimelineEventView {
        TimelineEventView {
            code: self.code@,
            date: self.date,
            id: self.id,
            label: self.label@,
            achieved: self.achieved,
        }
    }
}

impl View for Shipment {
    type V = ShipmentView;

    open spec fn view(&self) -> ShipmentView {
        ShipmentView {
            entry_date: self.entry_date,
            estimated_date: self.estimated_date,
            events: Seq::new(self.events@.len(), |i: int| self.events@[i]@),
            id: self.id@,
            service: self.service@,
            timeline: Seq::new(5, |i: int| self.timeline@[i]@),
        }
    }
}

impl View for APIResponse {
    type V = APIResponseView;

    open spec fn view(&self) -> APIResponseView {
        APIResponseView {
            shipment: match self.shipment {
                Some(shipment) => Some(shipment@),
                None => None,
            },
            return_message: match self.return_message {
                Some(message) => Some(message@),
                None => None,
            },
        }
    }
}

impl APIResponseView {
    /// What the envelope comes to: its shipment where it has only that, the carrier's
    /// message where it has only that, and a malformed response otherwise.
    pub open spec fn collapse(self) -> Result<ShipmentView, ErrorView> {
        match (self.shipment, self.return_message) {
            (Some(shipment), None) => Ok(shipment),
            (None, Some(message)) => Err(ErrorView::Server(message)),
            _ => Err(ErrorView::Response),
        }
    }
}

/// The outcome of a retrieval, seen through the views of its two sides.
pub open spec fn outcome_view(outcome: Result<Shipment, Error>) -> Result<ShipmentView, ErrorView> {
    match outcome {
        Ok(shipment) => Ok(shipment@),
        Err(error) => Err(error@),
    }
}

impl ShipmentView {
    /// The step at `at` is achieved and none before it is.
    pub open spec fn is_current(self, at: int) -> bool {
        &&& 0 <= at < self.timeline.len()
        &&& self.timeline[at].achieved
        &&& forall|before: int| 0 <= before < at ==> !(#[trigger] self.timeline[before]).achieved
    }

    /// The `id` of the first achieved step of the timeline, 0 where none is achieved.
    pub open spec fn timeline_step(self) -> u8 {
        if exists|at: int| self.is_current(at) {
            self.timeline[choose|at: int| self.is_current(at)].id
        } else {
            0
        }
    }
}

impl Shipment {
    /// The step that the shipment has reached: the `id` of the first achieved step in
    /// the order of the timeline, whatever the later ones say; 0 where none is achieved.
    pub fn timeline_step(&self) -> (step: u8)
        ensures
            step == self@.timeline_step(),
            forall|at: int| self@.is_current(at) ==> step == self@.timeline[at].id,
            (forall|at: int| 0 <= at < 5 ==> !(#[trigger] self@.timeline[at]).achieved) ==> step == 0,
    {
        let mut at: usize = 0;
        while at < 5
            invariant
                at <= 5,
                forall|before: int| 0 <= before < at ==> !(#[trigger] self@.timeline[before]).achieved,
            decreases 5 - at,
        {
            if self.timeline[at].achieved {
                assert(self@.is_current(at as int));
                return self.timeline[at].id;
            }
            at += 1;
        }
        0
    }
}

impl From<APIResponse> for Result<Shipment, Error> {
    /// Collapses the envelope: a shipment alone is the result, a message alone is what the
    /// carrier reports, and anything else is no answer.
    fn from(api_response: APIResponse) -> (r: Self)
        ensures
            outcome_view(r) == api_response@.collapse(),
    {
        match api_response {
            APIResponse { shipment: Some(shipment), return_message: None } => Ok(shipment),
            APIResponse { shipment: None, return_message: Some(error) } => Err(
                Error::Server(error),
            ),
            _ => Err(Error::Response),
        }
    }
}

impl vstd::std_specs::convert::FromSpecImpl<APIResponse> for Result<Shipment, Error> {
    open spec fn obeys_from_spec() -> bool {
        true
    }

    open spec fn from_spec(api_response: APIResponse) -> Self {
        match (api_response.shipment, api_response.return_message) {
            (Some(shipment), None) => Ok(shipment),
            (None, Some(error)) => Err(Error::Server(error)),
            _ => Err(Error::Response),
        }
    }
}

} // verus!
