//! The records that clients send and the server writes to its database.
//!
//! Floating-point fields (coordinates, prices) are held as the text that `f64`'s
//! `Display` writes for them: that text is all the server does with them.

use vstd::prelude::*;

use crate::timestamp::Timestamp;

verus! {

/// A user profile.
pub struct Profile {
    pub profile_id: i32,
    pub first_name: String,
    pub last_name: String,
    pub pwd: String,
    pub gender: i16,
    pub phone_number: String,
    pub email: String,
    pub date_of_birth: Timestamp,
    pub photo_url: Option<String>,
    pub emergency_contact: i16,
    pub is_active: bool,
    pub is_verified: bool,
    pub verified_doc_id: Option<i16>,
    pub about: Option<String>,
    pub date_joined: Timestamp,
    pub score: i64,
    /// Latitude, as the text of an `f64`.
    pub lat: String,
    /// Longitude, as the text of an `f64`.
    pub lon: String,
    pub comments_id: Option<i32>,
}

/// An event with all its details.
#[allow(non_camel_case_types)]
pub struct Event_Detail {
    pub event_id: i32,
    pub name: String,
    pub description: Option<String>,
    pub start_time: Timestamp,
    pub end_time: Timestamp,
    /// Latitude, as the text of an `f64`.
    pub latitude: String,
    /// Longitude, as the text of an `f64`.
    pub longitude: String,
    pub address: Option<String>,
    pub town_name: Option<String>,
    pub organizer_id: Option<i32>,
    pub created_at: Timestamp,
    pub updated_at: Timestamp,
    pub attendees: i32,
    pub max_attendees: i32,
    /// Ticket price, as the text of an `f64`.
    pub ticket_price: Option<String>,
    pub category: Option<String>,
}

/// A user's attendance of an event.
pub struct Attend {
    pub attendee_id: i64,
    pub profile_id: i64,
    pub event_id: i64,
    /// e.g. "attending", "interested", "cancelled"
    pub status: String,
    pub ticket_qr_code: String,
    pub created_at: Timestamp,
}

/// The page of nearby events that a request asks for when it names none.
pub fn default_page() -> (page: i32)
    ensures
        page == 1,
{
    1
}

/// The number of nearby events per page when a request names none.
pub fn default_limit() -> (limit: i32)
    ensures
        limit == 20,
{
    20
}

} // verus!
