//! The data of the events service: events, places, people and answers to
//! invitations, shaped after schema.org.

use vstd::prelude::*;

verus! {

/// Asks for an event by its identifier.
#[derive(Clone, Debug, PartialEq, Eq)]
pub struct EventRequest {
    pub identifier: String,
}

/// Asks to create an event on behalf of the holder of an access token.
#[derive(Clone, Debug, PartialEq, Eq)]
pub struct CreateEventRequest {
    pub access_token: String,
    pub description: String,
    /// The event's tag line.
    pub disambiguating_description: String,
    pub identifier: String,
    pub name: String,
    pub url: String,
    /// Seconds since the Unix epoch, UTC.
    pub end_date: i64,
    pub location: Place,
    pub organizer: Person,
    /// Seconds since the Unix epoch, UTC.
    pub start_date: i64,
}

/// Asks for the answers to the invitation to an event.
#[derive(Clone, Debug, PartialEq, Eq)]
pub struct EventRsvpRequest {
    pub target_identifier: String,
}

/// An event.
#[derive(Clone, Debug, PartialEq, Eq)]
pub struct Event {
    pub description: String,
    /// The event's tag line.
    pub disambiguating_description: String,
    pub identifier: String,
    pub name: String,
    pub url: String,
    /// Seconds since the Unix epoch, UTC.
    pub end_date: i64,
    pub location: Place,
    pub organizer: Person,
    /// Seconds since the Unix epoch, UTC.
    pub start_date: i64,
}

/// A place.
#[derive(Clone, Debug, PartialEq, Eq)]
pub struct Place {
    pub name: String,
    pub address: String,
}

/// A person.
#[derive(Clone, Debug, PartialEq, Eq)]
pub struct Person {
    pub identifier: String,
    pub name: String,
}

/// An answer to an invitation.
#[derive(Clone, Debug, PartialEq, Eq)]
pub struct RsvpAction {
    /// Nobody, where the answer is anonymous.
    pub agent: Option<Person>,
    /// One of yes, no and maybe.
    pub rsvp_response: String,
    pub target: Event,
}

/// A collection of members.
#[derive(Clone, Debug, PartialEq, Eq)]
pub struct Collection<T> {
    pub member: Vec<T>,
}

/// Asks to answer an invitation on behalf of the holder of an access token.
#[derive(Clone, Debug, PartialEq, Eq)]
pub struct RsvpForEventRequest {
    pub access_token: String,
}

} // verus!
