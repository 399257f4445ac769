//! The answers the server's routes give, decided from what its database returned.

use vstd::prelude::*;
use vstd::string::*;

verus! {

/// An HTTP answer: a success carrying its payload, or an error status with a text body.
pub enum Reply<T> {
    /// 200, with the payload (as JSON or as a text body, by route).
    Success(T),
    /// 404 with a text body.
    NotFound(String),
    /// 500 with a text body.
    InternalServerError(String),
    /// 400 with a text body.
    BadRequest(String),
    /// 401 with a text body.
    Unauthorized(String),
}

/// Whether `r` is a 500 whose body is `msg`.
pub open spec fn is_server_error<T>(r: Reply<T>, msg: Seq<char>) -> bool {
    r matches Reply::InternalServerError(m) && m@ == msg
}

/// Whether `r` is a 404 whose body is `msg`.
pub open spec fn is_not_found<T>(r: Reply<T>, msg: Seq<char>) -> bool {
    r matches Reply::NotFound(m) && m@ == msg
}

/// Whether `r` is a 200 whose text body is `msg`.
pub open spec fn is_ok_text(r: Reply<String>, msg: Seq<char>) -> bool {
    r matches Reply::Success(m) && m@ == msg
}

/// The answer to `POST /profile`: the new profile's id, or a 500.
pub fn create_profile_reply(created: Result<i32, ()>) -> (r: Reply<i32>)
    ensures
        created matches Ok(id) ==> r == Reply::<i32>::Success(id),
        created is Err ==> is_server_error(r, "Failed to create profile"@),
{
    match created {
        Ok(id) => Reply::Success(id),
        Err(_) => Reply::InternalServerError(String::from_str("Failed to create profile")),
    }
}

/// The answer to `POST /profile/update/{uuid}`.
pub fn update_profile_reply(updated: Result<(), ()>) -> (r: Reply<String>)
    ensures
        updated is Ok ==> is_ok_text(r, "Profile updated successfully"@),
        updated is Err ==> is_server_error(r, "Failed to update profile"@),
{
    match updated {
        Ok(_) => Reply::Success(String::from_str("Profile updated successfully")),
        Err(_) => Reply::InternalServerError(String::from_str("Failed to update profile")),
    }
}

/// The answer to `DELETE /profile/{uuid}`.
pub fn delete_profile_reply(deleted: Result<(), ()>) -> (r: Reply<String>)
    ensures
        deleted is Ok ==> is_ok_text(r, "Profile successfully deleted."@),
        deleted is Err ==> is_server_error(r, "Failed to delete profile"@),
{
    match deleted {
        Ok(_) => Reply::Success(String::from_str("Profile successfully deleted.")),
        Err(_) => Reply::InternalServerError(String::from_str("Failed to delete profile")),
    }
}

/// The answer to `GET /profile/{uuid}`: the profile found, a 404 when there is none.
pub fn profile_by_id_reply<T>(found: Result<Option<T>, ()>) -> (r: Reply<T>)
    ensures
        found matches Ok(Some(p)) ==> r == Reply::<T>::Success(p),
        found matches Ok(None) ==> is_not_found(r, "Profile not found"@),
        found is Err ==> is_server_error(r, "Failed to fetch profile data"@),
{
    match found {
        Ok(Some(p)) => Reply::Success(p),
        Ok(None) => Reply::NotFound(String::from_str("Profile not found")),
        Err(_) => Reply::InternalServerError(String::from_str("Failed to fetch profile data")),
    }
}

/// The answer to `POST /event`.
pub fn create_event_reply(created: Result<i32, ()>) -> (r: Reply<String>)
    ensures
        created is Ok ==> is_ok_text(r, "Event created successfully"@),
        created is Err ==> is_server_error(r, "Failed to create event"@),
{
    match created {
        Ok(_) => Reply::Success(String::from_str("Event created successfully")),
        Err(_) => Reply::InternalServerError(String::from_str("Failed to create event")),
    }
}

/// The answer to `GET /events`: the events found.
pub fn nearby_events_reply<T>(found: Result<T, ()>) -> (r: Reply<T>)
    ensures
        found matches Ok(events) ==> r == Reply::<T>::Success(events),
        found is Err ==> is_server_error(r, "Failed to get nearby events"@),
{
    match found {
        Ok(events) => Reply::Success(events),
        Err(_) => Reply::InternalServerError(String::from_str("Failed to get nearby events")),
    }
}

/// The answer to `GET /event/{event_id}`: the event found, a 404 when there is none.
pub fn event_by_id_reply<T>(found: Result<Option<T>, ()>) -> (r: Reply<T>)
    ensures
        found matches Ok(Some(e)) ==> r == Reply::<T>::Success(e),
        found matches Ok(None) ==> is_not_found(r, "Event not found"@),
        found is Err ==> is_server_error(r, "Failed to get event detail"@),
{
    match found {
        Ok(Some(e)) => Reply::Success(e),
        Ok(None) => Reply::NotFound(String::from_str("Event not found")),
        Err(_) => Reply::InternalServerError(String::from_str("Failed to get event detail")),
    }
}

/// The answer to `POST /event/attend`.
pub fn attend_reply(created: Result<i32, ()>) -> (r: Reply<String>)
    ensures
        created is Ok ==> is_ok_text(r, "Attended successfully"@),
        created is Err ==> is_server_error(r, "Failed to create attend"@),
{
    match created {
        Ok(_) => Reply::Success(String::from_str("Attended successfully")),
        Err(_) => Reply::InternalServerError(String::from_str("Failed to create attend")),
    }
}

/// What `GET /event/{event_id}/attendees` does once it has the attendees' ids.
pub enum AttendeesNext<T> {
    /// Read the profiles with these ids (bound as an array to `$1` of
    /// `PROFILES_BY_IDS_STATEMENT`), then answer with `attendee_profiles_reply`.
    FetchProfiles(Vec<i32>),
    /// Answer now.
    Respond(Reply<Vec<T>>),
}

/// The first decision of `GET /event/{event_id}/attendees`: with no attendees the
/// answer is an empty list and no profile is read.
pub fn attendee_ids_next<T>(ids: Result<Vec<i32>, ()>) -> (n: AttendeesNext<T>)
    ensures
        ids matches Ok(v) ==> (if v@.len() == 0 {
            (n matches AttendeesNext::Respond(Reply::Success(l)) && l@.len() == 0)
        } else {
            n == AttendeesNext::<T>::FetchProfiles(v)
        }),
        ids is Err ==> (n matches AttendeesNext::Respond(r) && is_server_error(
            r,
            "Failed to get event detail"@,
        )),
{
    match ids {
        Ok(v) => {
            if v.len() == 0 {
                AttendeesNext::Respond(Reply::Success(Vec::new()))
            } else {
                AttendeesNext::FetchProfiles(v)
            }
        },
        Err(_) => AttendeesNext::Respond(
            Reply::InternalServerError(String::from_str("Failed to get event detail")),
        ),
    }
}

/// The answer of `GET /event/{event_id}/attendees` once the profiles are read.
pub fn attendee_profiles_reply<T>(profiles: Result<Vec<T>, ()>) -> (r: Reply<Vec<T>>)
    ensures
        profiles matches Ok(v) ==> r == Reply::<Vec<T>>::Success(v),
        profiles is Err ==> is_server_error(r, "Failed to get event detail"@),
{
    match profiles {
        Ok(v) => Reply::Success(v),
        Err(_) => Reply::InternalServerError(String::from_str("Failed to get event detail")),
    }
}

/// The answer to `GET /ping`.
pub fn ping_reply() -> (r: Reply<String>)
    ensures
        is_ok_text(r, "pong"@),
{
    Reply::Success(String::from_str("pong"))
}

/// The id of a path as the `i32` that the database holds; `None` where the number
/// does not fit (the route then fails, as the conversion there panics).
pub fn path_id(id: i64) -> (r: Option<i32>)
    ensures
        r is Some <==> i32::MIN <= id <= i32::MAX,
        r matches Some(v) ==> v == id,
{
    if id < i32::MIN as i64 || id > i32::MAX as i64 {
        None
    } else {
        Some(id as i32)
    }
}

/// Whether `(page - 1) * limit` fits in an `i32`, as the offset of a page of events must.
pub open spec fn page_offset_fits(page: int, limit: int) -> bool {
    i32::MIN <= (page - 1) * limit <= i32::MAX
}

/// The number of events to skip for page `page` of `limit` events each (pages count from 1).
pub fn page_offset(page: i32, limit: i32) -> (offset: i32)
    requires
        page_offset_fits(page as int, limit as int),
    ensures
        offset == (page - 1) * limit,
{
    let p: i64 = page as i64 - 1;
    let l: i64 = limit as i64;
    assert(-2147483649 <= p <= 2147483646);
    assert(-2147483648 <= l <= 2147483647);
    assert(-4611686020574871552 <= p * l <= 4611686020574871552) by (nonlinear_arith)
        requires
            -2147483649 <= p <= 2147483646,
            -2147483648 <= l <= 2147483647,
    ;
    (p * l) as i32
}

/// The offset of page `page`, or `None` where `(page - 1) * limit` overflows an `i32`
/// (where the route's arithmetic overflows).
pub fn checked_page_offset(page: i32, limit: i32) -> (offset: Option<i32>)
    ensures
        offset is Some <==> page_offset_fits(page as int, limit as int),
        offset matches Some(o) ==> o == (page - 1) * limit,
{
    let p: i64 = page as i64 - 1;
    let l: i64 = limit as i64;
    assert(-4611686020574871552 <= p * l <= 4611686020574871552) by (nonlinear_arith)
        requires
            -2147483649 <= p <= 2147483646,
            -2147483648 <= l <= 2147483647,
    ;
    let product = p * l;
    if product < i32::MIN as i64 || product > i32::MAX as i64 {
        None
    } else {
        Some(page_offset(page, limit))
    }
}

} // verus!
