//! The SQL statements that the server sends to its PostgreSQL database.
//!
//! Values are written into the statements as text, between single quotes where the
//! statement quotes them; nothing escapes a quote inside a value.

use vstd::prelude::*;
use vstd::string::*;

use crate::models::{Attend, Event_Detail, Profile};
use crate::text::{bool_str, bool_text, fill, fill_template, i64_text, int_text, quoted_join, quoted_list, str_views, string_views};
use crate::timestamp::datetime_text;

verus! {

/// The text of an optional string, empty when there is none.
pub open spec fn text_or_empty(o: Option<String>) -> Seq<char> {
    match o {
        Some(s) => s@,
        None => Seq::empty(),
    }
}

fn string_or_empty(o: &Option<String>) -> (s: String)
    ensures
        s@ == text_or_empty(*o),
{
    match o {
        Some(s) => s.clone(),
        None => String::new(),
    }
}

// ---------------------------------------------------------------------------
// Generic statements on one table.

/// `INSERT INTO {table} ({columns}) VALUES ({values}) RETURNING {return_val}`.
pub fn create_statement(table: &str, columns: &str, values: &str, return_val: &str) -> (s: String)
    ensures
        s@ == "INSERT INTO "@ + table@ + " ("@ + columns@ + ") VALUES ("@ + values@
            + ") RETURNING "@ + return_val@,
{
    let mut s = String::from_str("INSERT INTO ");
    s.append(table);
    s.append(" (");
    s.append(columns);
    s.append(") VALUES (");
    s.append(values);
    s.append(") RETURNING ");
    s.append(return_val);
    s
}

/// `UPDATE {table} SET {updates} WHERE {col_id} = $1`.
pub fn update_statement(table: &str, col_id: &str, updates: &str) -> (s: String)
    ensures
        s@ == "UPDATE "@ + table@ + " SET "@ + updates@ + " WHERE "@ + col_id@ + " = $1"@,
{
    let mut s = String::from_str("UPDATE ");
    s.append(table);
    s.append(" SET ");
    s.append(updates);
    s.append(" WHERE ");
    s.append(col_id);
    s.append(" = $1");
    s
}

/// `DELETE FROM {table} WHERE {col_id} = $1`.
pub fn delete_statement(table: &str, col_id: &str) -> (s: String)
    ensures
        s@ == "DELETE FROM "@ + table@ + " WHERE "@ + col_id@ + " = $1"@,
{
    let mut s = String::from_str("DELETE FROM ");
    s.append(table);
    s.append(" WHERE ");
    s.append(col_id);
    s.append(" = $1");
    s
}

/// `SELECT * FROM {table} WHERE {col_id} = $1`.
pub fn select_by_id_statement(table: &str, col_id: &str) -> (s: String)
    ensures
        s@ == "SELECT * FROM "@ + table@ + " WHERE "@ + col_id@ + " = $1"@,
{
    let mut s = String::from_str("SELECT * FROM ");
    s.append(table);
    s.append(" WHERE ");
    s.append(col_id);
    s.append(" = $1");
    s
}

/// `SELECT {id_column} FROM {table} WHERE {column} = $1 LIMIT 1`.
pub fn record_exists_statement(table: &str, column: &str, id_column: &str) -> (s: String)
    ensures
        s@ == "SELECT "@ + id_column@ + " FROM "@ + table@ + " WHERE "@ + column@
            + " = $1 LIMIT 1"@,
{
    let mut s = String::from_str("SELECT ");
    s.append(id_column);
    s.append(" FROM ");
    s.append(table);
    s.append(" WHERE ");
    s.append(column);
    s.append(" = $1 LIMIT 1");
    s
}

/// The user ids of an event's attendees.
pub fn attendee_ids_statement(event_id: i32) -> (s: String)
    ensures
        s@ == "SELECT user_id FROM attendees WHERE event_id = "@ + int_text(event_id as int),
{
    let mut s = String::from_str("SELECT user_id FROM attendees WHERE event_id = ");
    s.append(i64_text(event_id as i64).as_str());
    s
}

/// The public view of the profiles whose ids are bound as an array to `$1`.
pub const PROFILES_BY_IDS_STATEMENT: &'static str = "SELECT profile_id, first_name, phone_number, email, date_joined, is_verified, about, photo_url FROM profile WHERE profile_id = ANY($1)";

/// The events within `$3` meters of the point (`$1`, `$2`), nearest first, `$4` of them
/// after skipping `$5`.
pub fn nearby_events_statement(table: &str) -> (s: String)
    ensures
        s@ == "\n            SELECT event_id, name, start_time, address, town_name, attendees, category\n            FROM "@ + table@ + "\n            WHERE ST_Distance(\n                ST_MakePoint(latitude, longitude)::geography,\n                ST_MakePoint($1, $2)::geography\n            ) <= $3\n            ORDER BY ST_Distance(\n                ST_MakePoint(latitude, longitude)::geography,\n                ST_MakePoint($1, $2)::geography\n            )\n            LIMIT $4 OFFSET $5\n            "@,
{
    let mut s = String::from_str("\n            SELECT event_id, name, start_time, address, town_name, attendees, category\n            FROM ");
    s.append(table);
    s.append("\n            WHERE ST_Distance(\n                ST_MakePoint(latitude, longitude)::geography,\n                ST_MakePoint($1, $2)::geography\n            ) <= $3\n            ORDER BY ST_Distance(\n                ST_MakePoint(latitude, longitude)::geography,\n                ST_MakePoint($1, $2)::geography\n            )\n            LIMIT $4 OFFSET $5\n            ");
    s
}

// ---------------------------------------------------------------------------
// Profiles.

/// The columns that a new profile fills.
pub const PROFILE_COLUMNS: &'static str = "first_name, last_name, pwd, gender, phone_number, email, date_of_birth, photo_url, emergency_contact, is_active, is_verified, verified_doc_id, about, date_joined, score, lat, lon, comments_id";

/// The values of a profile in the order of `PROFILE_COLUMNS`, each as its text:
/// missing optional texts are empty, missing optional numbers are 0.
pub open spec fn profile_fields(p: Profile) -> Seq<Seq<char>> {
    seq![
        p.first_name@,
        p.last_name@,
        p.pwd@,
        int_text(p.gender as int),
        p.phone_number@,
        p.email@,
        datetime_text(p.date_of_birth),
        text_or_empty(p.photo_url),
        int_text(p.emergency_contact as int),
        bool_text(p.is_active),
        bool_text(p.is_verified),
        int_text(
            match p.verified_doc_id {
                Some(v) => v as int,
                None => 0,
            },
        ),
        text_or_empty(p.about),
        datetime_text(p.date_joined),
        int_text(p.score as int),
        p.lat@,
        p.lon@,
        int_text(
            match p.comments_id {
                Some(v) => v as int,
                None => 0,
            },
        ),
    ]
}

fn profile_field_texts(p: &Profile) -> (v: Vec<String>)
    ensures
        string_views(v@) == profile_fields(*p),
{
    let mut v: Vec<String> = Vec::new();
    v.push(p.first_name.clone());
    v.push(p.last_name.clone());
    v.push(p.pwd.clone());
    v.push(i64_text(p.gender as i64));
    v.push(p.phone_number.clone());
    v.push(p.email.clone());
    v.push(p.date_of_birth.text());
    v.push(string_or_empty(&p.photo_url));
    v.push(i64_text(p.emergency_contact as i64));
    v.push(String::from_str(bool_str(p.is_active)));
    v.push(String::from_str(bool_str(p.is_verified)));
    let doc: i64 = match p.verified_doc_id {
        Some(d) => d as i64,
        None => 0,
    };
    v.push(i64_text(doc));
    v.push(string_or_empty(&p.about));
    v.push(p.date_joined.text());
    v.push(i64_text(p.score));
    v.push(p.lat.clone());
    v.push(p.lon.clone());
    let comments: i64 = match p.comments_id {
        Some(c) => c as i64,
        None => 0,
    };
    v.push(i64_text(comments));
    assert(string_views(v@) =~= profile_fields(*p));
    v
}

/// The values list of a new profile: `'first', 'last', ...` in the order of `PROFILE_COLUMNS`.
pub fn profile_values(p: &Profile) -> (s: String)
    ensures
        s@ == quoted_join(profile_fields(*p)),
{
    let fields = profile_field_texts(p);
    quoted_list(fields.as_slice())
}

/// The statement that stores a new profile and returns its id.
pub fn create_profile_statement(p: &Profile) -> (s: String)
    ensures
        s@ == "INSERT INTO "@ + "profile"@ + " ("@ + PROFILE_COLUMNS@ + ") VALUES ("@
            + quoted_join(profile_fields(*p)) + ") RETURNING "@ + "profile_id"@,
{
    let values = profile_values(p);
    create_statement("profile", PROFILE_COLUMNS, values.as_str(), "profile_id")
}

/// The statement text of a profile update, cut where the values go.
pub open spec fn update_profile_parts() -> Seq<Seq<char>> {
    seq![
        "UPDATE profile SET \n            first_name = '"@,
        "', \n            last_name = '"@,
        "', \n            pwd = '"@,
        "', \n            gender = "@,
        ", \n            phone_number = '"@,
        "', \n            email = '"@,
        "', \n            date_of_birth = "@,
        ", \n            photo_url = '"@,
        "', \n            emergency_contact = "@,
        ", \n            is_active = "@,
        ", \n            is_verified = "@,
        ", \n            verified_doc_id = "@,
        ", \n            about = '"@,
        "', \n            date_joined = '"@,
        "'::TIMESTAMP, \n            score = "@,
        ", \n            lat = "@,
        ", \n            lon = "@,
        ", \n            comments_id = "@,
        " \n        WHERE profile_id = '"@,
        "'"@,
    ]
}

/// The statement that overwrites the profile whose id is `uuid` with `p`:
/// the update statement's text with the profile's values and then `uuid` in its places.
pub fn update_profile_statement(p: &Profile, uuid: &str) -> (s: String)
    ensures
        s@ == fill(update_profile_parts(), profile_fields(*p).push(uuid@)),
{
    let parts: Vec<&str> = vec![
        "UPDATE profile SET \n            first_name = '",
        "', \n            last_name = '",
        "', \n            pwd = '",
        "', \n            gender = ",
        ", \n            phone_number = '",
        "', \n            email = '",
        "', \n            date_of_birth = ",
        ", \n            photo_url = '",
        "', \n            emergency_contact = ",
        ", \n            is_active = ",
        ", \n            is_verified = ",
        ", \n            verified_doc_id = ",
        ", \n            about = '",
        "', \n            date_joined = '",
        "'::TIMESTAMP, \n            score = ",
        ", \n            lat = ",
        ", \n            lon = ",
        ", \n            comments_id = ",
        " \n        WHERE profile_id = '",
        "'",
    ];
    let mut args = profile_field_texts(p);
    args.push(uuid.to_owned());
    proof {
        assert(str_views(parts@) =~= update_profile_parts());
        assert(string_views(args@) =~= profile_fields(*p).push(uuid@));
    }
    fill_template(parts.as_slice(), args.as_slice())
}

/// The statement that deletes a profile by id.
pub fn delete_profile_statement() -> (s: String)
    ensures
        s@ == "DELETE FROM "@ + "profile"@ + " WHERE "@ + "profile_id"@ + " = $1"@,
{
    delete_statement("profile", "profile_id")
}

/// The statement that reads a profile by id.
pub fn profile_by_id_statement() -> (s: String)
    ensures
        s@ == "SELECT * FROM "@ + "profile"@ + " WHERE "@ + "profile_id"@ + " = $1"@,
{
    select_by_id_statement("profile", "profile_id")
}

/// The statement that finds the id of the profile with a given email.
pub fn profile_id_by_email_statement() -> (s: String)
    ensures
        s@ == "SELECT "@ + "profile_id"@ + " FROM "@ + "profile"@ + " WHERE "@ + "email"@
            + " = $1 LIMIT 1"@,
{
    record_exists_statement("profile", "email", "profile_id")
}

// ---------------------------------------------------------------------------
// Events.

/// The columns that a new event fills.
pub const EVENT_COLUMNS: &'static str = "name, description, start_time, end_time, \n            latitude, longitude, address, town_name, organizer_id, \n            created_at, updated_at, attendees, max_attendees, ticket_price, category";

/// The values of an event in the order of `EVENT_COLUMNS`, each as its text:
/// missing optional texts are empty, a missing organizer is 0, a missing price is `0`.
pub open spec fn event_fields(e: Event_Detail) -> Seq<Seq<char>> {
    seq![
        e.name@,
        text_or_empty(e.description),
        datetime_text(e.start_time),
        datetime_text(e.end_time),
        e.latitude@,
        e.longitude@,
        text_or_empty(e.address),
        text_or_empty(e.town_name),
        int_text(
            match e.organizer_id {
                Some(v) => v as int,
                None => 0,
            },
        ),
        datetime_text(e.created_at),
        datetime_text(e.updated_at),
        int_text(e.attendees as int),
        int_text(e.max_attendees as int),
        price_or_zero(e.ticket_price),
        text_or_empty(e.category),
    ]
}

/// The text of an optional ticket price: `0` when there is none.
pub open spec fn price_or_zero(o: Option<String>) -> Seq<char> {
    match o {
        Some(t) => t@,
        None => seq!['0'],
    }
}

fn price_text(o: &Option<String>) -> (s: String)
    ensures
        s@ == price_or_zero(*o),
{
    match o {
        Some(t) => t.clone(),
        None => {
            proof {
                reveal_strlit("0");
            }
            String::from_str("0")
        },
    }
}

/// The values list of a new event: its first ten values and its last five quoted and
/// separated by `", "`, with a bare `","` between the two groups.
pub fn event_values(e: &Event_Detail) -> (s: String)
    ensures
        s@ == quoted_join(event_fields(*e).take(10)) + seq![','] + quoted_join(
            event_fields(*e).skip(10),
        ),
{
    let mut head: Vec<String> = Vec::new();
    head.push(e.name.clone());
    head.push(string_or_empty(&e.description));
    head.push(e.start_time.text());
    head.push(e.end_time.text());
    head.push(e.latitude.clone());
    head.push(e.longitude.clone());
    head.push(string_or_empty(&e.address));
    head.push(string_or_empty(&e.town_name));
    let organizer: i64 = match e.organizer_id {
        Some(o) => o as i64,
        None => 0,
    };
    head.push(i64_text(organizer));
    head.push(e.created_at.text());
    let mut tail: Vec<String> = Vec::new();
    tail.push(e.updated_at.text());
    tail.push(i64_text(e.attendees as i64));
    tail.push(i64_text(e.max_attendees as i64));
    let price = price_text(&e.ticket_price);
    tail.push(price);
    tail.push(string_or_empty(&e.category));
    proof {
        assert(string_views(head@) =~= event_fields(*e).take(10));
        assert(string_views(tail@) =~= event_fields(*e).skip(10));
        reveal_strlit(",");
    }
    let mut s = quoted_list(head.as_slice());
    s.append(",");
    s.append(quoted_list(tail.as_slice()).as_str());
    s
}

/// The statement that stores a new event and returns its id.
pub fn create_event_statement(e: &Event_Detail) -> (s: String)
    ensures
        s@ == "INSERT INTO "@ + "events"@ + " ("@ + EVENT_COLUMNS@ + ") VALUES ("@
            + quoted_join(event_fields(*e).take(10)) + seq![','] + quoted_join(event_fields(*e).skip(10))
            + ") RETURNING "@ + "event_id"@,
{
    let values = event_values(e);
    create_statement("events", EVENT_COLUMNS, values.as_str(), "event_id")
}

/// The statement that reads an event by id.
pub fn event_by_id_statement() -> (s: String)
    ensures
        s@ == "SELECT * FROM "@ + "events"@ + " WHERE "@ + "event_id"@ + " = $1"@,
{
    select_by_id_statement("events", "event_id")
}

/// The statement that lists the events near a point.
pub fn nearby_events_in_events_statement() -> (s: String)
    ensures
        s@ == "\n            SELECT event_id, name, start_time, address, town_name, attendees, category\n            FROM "@ + "events"@ + "\n            WHERE ST_Distance(\n                ST_MakePoint(latitude, longitude)::geography,\n                ST_MakePoint($1, $2)::geography\n            ) <= $3\n            ORDER BY ST_Distance(\n                ST_MakePoint(latitude, longitude)::geography,\n                ST_MakePoint($1, $2)::geography\n            )\n            LIMIT $4 OFFSET $5\n            "@,
{
    nearby_events_statement("events")
}

// ---------------------------------------------------------------------------
// Attendance.

/// The columns that a new attendance fills.
pub const ATTEND_COLUMNS: &'static str = "profile_id, \n        event_id, \n        status, \n        ticket_qr_code, \n        created_at";

/// The values of an attendance in the order of `ATTEND_COLUMNS`.
pub open spec fn attend_fields(a: Attend) -> Seq<Seq<char>> {
    seq![
        int_text(a.profile_id as int),
        int_text(a.event_id as int),
        a.status@,
        a.ticket_qr_code@,
        datetime_text(a.created_at),
    ]
}

/// The values list of a new attendance: `'profile', 'event', ...` in the order of
/// `ATTEND_COLUMNS`.
pub fn attend_values(a: &Attend) -> (s: String)
    ensures
        s@ == quoted_join(attend_fields(*a)),
{
    let mut v: Vec<String> = Vec::new();
    v.push(i64_text(a.profile_id));
    v.push(i64_text(a.event_id));
    v.push(a.status.clone());
    v.push(a.ticket_qr_code.clone());
    v.push(a.created_at.text());
    assert(string_views(v@) =~= attend_fields(*a));
    quoted_list(v.as_slice())
}

/// The statement that stores a new attendance and returns its id.
pub fn attend_statement(a: &Attend) -> (s: String)
    ensures
        s@ == "INSERT INTO "@ + "attendees"@ + " ("@ + ATTEND_COLUMNS@ + ") VALUES ("@
            + quoted_join(attend_fields(*a)) + ") RETURNING "@ + "attendee_id"@,
{
    let values = attend_values(a);
    create_statement("attendees", ATTEND_COLUMNS, values.as_str(), "attendee_id")
}


// ---------------------------------------------------------------------------
// Which value goes in which column.

/// The column names of `PROFILE_COLUMNS`, in order: `first_name`, `last_name`, `pwd`, `gender`, `phone_number`, `email`, `date_of_birth`, `photo_url`, `emergency_contact`, `is_active`, `is_verified`, `verified_doc_id`, `about`, `date_joined`, `score`, `lat`, `lon`, `comments_id`.
pub proof fn lemma_profile_column_names()
    ensures
        PROFILE_COLUMNS@ == "first_name"@ + ", "@ + "last_name"@ + ", "@ + "pwd"@ + ", "@ + "gender"@ + ", "@ + "phone_number"@ + ", "@ + "email"@ + ", "@ + "date_of_birth"@ + ", "@ + "photo_url"@ + ", "@ + "emergency_contact"@ + ", "@ + "is_active"@ + ", "@ + "is_verified"@ + ", "@ + "verified_doc_id"@ + ", "@ + "about"@ + ", "@ + "date_joined"@ + ", "@ + "score"@ + ", "@ + "lat"@ + ", "@ + "lon"@ + ", "@ + "comments_id"@,
{
    reveal_strlit(", ");
    reveal_strlit("about");
    reveal_strlit("comments_id");
    reveal_strlit("date_joined");
    reveal_strlit("date_of_birth");
    reveal_strlit("email");
    reveal_strlit("emergency_contact");
    reveal_strlit("first_name");
    reveal_strlit("first_name, last_name, pwd, gender, phone_number, email, date_of_birth, photo_url, emergency_contact, is_active, is_verified, verified_doc_id, about, date_joined, score, lat, lon, comments_id");
    reveal_strlit("gender");
    reveal_strlit("is_active");
    reveal_strlit("is_verified");
    reveal_strlit("last_name");
    reveal_strlit("lat");
    reveal_strlit("lon");
    reveal_strlit("phone_number");
    reveal_strlit("photo_url");
    reveal_strlit("pwd");
    reveal_strlit("score");
    reveal_strlit("verified_doc_id");
    assert(PROFILE_COLUMNS@ =~= "first_name"@ + ", "@ + "last_name"@ + ", "@ + "pwd"@ + ", "@ + "gender"@ + ", "@ + "phone_number"@ + ", "@ + "email"@ + ", "@ + "date_of_birth"@ + ", "@ + "photo_url"@ + ", "@ + "emergency_contact"@ + ", "@ + "is_active"@ + ", "@ + "is_verified"@ + ", "@ + "verified_doc_id"@ + ", "@ + "about"@ + ", "@ + "date_joined"@ + ", "@ + "score"@ + ", "@ + "lat"@ + ", "@ + "lon"@ + ", "@ + "comments_id"@);
}

/// The column names of `EVENT_COLUMNS`, in order: `name`, `description`, `start_time`, `end_time`, `latitude`, `longitude`, `address`, `town_name`, `organizer_id`, `created_at`, `updated_at`, `attendees`, `max_attendees`, `ticket_price`, `category`.
pub proof fn lemma_event_column_names()
    ensures
        EVENT_COLUMNS@ == "name"@ + ", "@ + "description"@ + ", "@ + "start_time"@ + ", "@ + "end_time"@ + ", \n            "@ + "latitude"@ + ", "@ + "longitude"@ + ", "@ + "address"@ + ", "@ + "town_name"@ + ", "@ + "organizer_id"@ + ", \n            "@ + "created_at"@ + ", "@ + "updated_at"@ + ", "@ + "attendees"@ + ", "@ + "max_attendees"@ + ", "@ + "ticket_price"@ + ", "@ + "category"@,
{
    reveal_strlit(", ");
    reveal_strlit(", \n            ");
    reveal_strlit("address");
    reveal_strlit("attendees");
    reveal_strlit("category");
    reveal_strlit("created_at");
    reveal_strlit("description");
    reveal_strlit("end_time");
    reveal_strlit("latitude");
    reveal_strlit("longitude");
    reveal_strlit("max_attendees");
    reveal_strlit("name");
    reveal_strlit("name, description, start_time, end_time, \n            latitude, longitude, address, town_name, organizer_id, \n            created_at, updated_at, attendees, max_attendees, ticket_price, category");
    reveal_strlit("organizer_id");
    reveal_strlit("start_time");
    reveal_strlit("ticket_price");
    reveal_strlit("town_name");
    reveal_strlit("updated_at");
    assert(EVENT_COLUMNS@ =~= "name"@ + ", "@ + "description"@ + ", "@ + "start_time"@ + ", "@ + "end_time"@ + ", \n            "@ + "latitude"@ + ", "@ + "longitude"@ + ", "@ + "address"@ + ", "@ + "town_name"@ + ", "@ + "organizer_id"@ + ", \n            "@ + "created_at"@ + ", "@ + "updated_at"@ + ", "@ + "attendees"@ + ", "@ + "max_attendees"@ + ", "@ + "ticket_price"@ + ", "@ + "category"@);
}

/// The column names of `ATTEND_COLUMNS`, in order: `profile_id`, `event_id`, `status`, `ticket_qr_code`, `created_at`.
pub proof fn lemma_attend_column_names()
    ensures
        ATTEND_COLUMNS@ == "profile_id"@ + ", \n        "@ + "event_id"@ + ", \n        "@ + "status"@ + ", \n        "@ + "ticket_qr_code"@ + ", \n        "@ + "created_at"@,
{
    reveal_strlit(", \n        ");
    reveal_strlit("created_at");
    reveal_strlit("event_id");
    reveal_strlit("profile_id");
    reveal_strlit("profile_id, \n        event_id, \n        status, \n        ticket_qr_code, \n        created_at");
    reveal_strlit("status");
    reveal_strlit("ticket_qr_code");
    assert(ATTEND_COLUMNS@ =~= "profile_id"@ + ", \n        "@ + "event_id"@ + ", \n        "@ + "status"@ + ", \n        "@ + "ticket_qr_code"@ + ", \n        "@ + "created_at"@);
}

/// The value list of a new or updated profile holds, at each position, the text of the
/// profile field that `PROFILE_COLUMNS` names at that position: first name, last name,
/// password, gender, phone number, email, date of birth, photo address, emergency contact,
/// active, verified, verified document, about, date joined, score, latitude, longitude,
/// comments. Missing optional texts are written empty and missing optional numbers as 0.
pub proof fn lemma_profile_values_by_column(p: Profile)
    ensures
        profile_fields(p).len() == 18,
        profile_fields(p)[0] == p.first_name@,
        profile_fields(p)[1] == p.last_name@,
        profile_fields(p)[2] == p.pwd@,
        profile_fields(p)[3] == int_text(p.gender as int),
        profile_fields(p)[4] == p.phone_number@,
        profile_fields(p)[5] == p.email@,
        profile_fields(p)[6] == datetime_text(p.date_of_birth),
        p.photo_url matches Some(u) ==> profile_fields(p)[7] == u@,
        p.photo_url is None ==> profile_fields(p)[7] == Seq::<char>::empty(),
        profile_fields(p)[8] == int_text(p.emergency_contact as int),
        profile_fields(p)[9] == (if p.is_active {
            seq!['t', 'r', 'u', 'e']
        } else {
            seq!['f', 'a', 'l', 's', 'e']
        }),
        profile_fields(p)[10] == (if p.is_verified {
            seq!['t', 'r', 'u', 'e']
        } else {
            seq!['f', 'a', 'l', 's', 'e']
        }),
        p.verified_doc_id matches Some(d) ==> profile_fields(p)[11] == int_text(d as int),
        p.verified_doc_id is None ==> profile_fields(p)[11] == seq!['0'],
        p.about matches Some(t) ==> profile_fields(p)[12] == t@,
        p.about is None ==> profile_fields(p)[12] == Seq::<char>::empty(),
        profile_fields(p)[13] == datetime_text(p.date_joined),
        profile_fields(p)[14] == int_text(p.score as int),
        profile_fields(p)[15] == p.lat@,
        profile_fields(p)[16] == p.lon@,
        p.comments_id matches Some(c) ==> profile_fields(p)[17] == int_text(c as int),
        p.comments_id is None ==> profile_fields(p)[17] == seq!['0'],
{
}

/// The value list of a new event holds, at each position, the text of the event field
/// that `EVENT_COLUMNS` names at that position: name, description, start, end, latitude,
/// longitude, address, town, organizer, created, updated, attendees, maximum attendees,
/// ticket price, category. Missing optional texts are written empty, a missing organizer
/// and a missing price as 0.
pub proof fn lemma_event_values_by_column(e: Event_Detail)
    ensures
        event_fields(e).len() == 15,
        event_fields(e)[0] == e.name@,
        e.description matches Some(d) ==> event_fields(e)[1] == d@,
        e.description is None ==> event_fields(e)[1] == Seq::<char>::empty(),
        event_fields(e)[2] == datetime_text(e.start_time),
        event_fields(e)[3] == datetime_text(e.end_time),
        event_fields(e)[4] == e.latitude@,
        event_fields(e)[5] == e.longitude@,
        e.address matches Some(t) ==> event_fields(e)[6] == t@,
        e.address is None ==> event_fields(e)[6] == Seq::<char>::empty(),
        e.town_name matches Some(t) ==> event_fields(e)[7] == t@,
        e.town_name is None ==> event_fields(e)[7] == Seq::<char>::empty(),
        e.organizer_id matches Some(o) ==> event_fields(e)[8] == int_text(o as int),
        e.organizer_id is None ==> event_fields(e)[8] == seq!['0'],
        event_fields(e)[9] == datetime_text(e.created_at),
        event_fields(e)[10] == datetime_text(e.updated_at),
        event_fields(e)[11] == int_text(e.attendees as int),
        event_fields(e)[12] == int_text(e.max_attendees as int),
        e.ticket_price matches Some(t) ==> event_fields(e)[13] == t@,
        e.ticket_price is None ==> event_fields(e)[13] == seq!['0'],
        e.category matches Some(t) ==> event_fields(e)[14] == t@,
        e.category is None ==> event_fields(e)[14] == Seq::<char>::empty(),
{
}

/// The value list of a new attendance holds, in the order of `ATTEND_COLUMNS`, the
/// profile id, the event id, the status and the ticket code as sent, and the creation time.
pub proof fn lemma_attend_values_by_column(a: Attend)
    ensures
        attend_fields(a).len() == 5,
        attend_fields(a)[0] == int_text(a.profile_id as int),
        attend_fields(a)[1] == int_text(a.event_id as int),
        attend_fields(a)[2] == a.status@,
        attend_fields(a)[3] == a.ticket_qr_code@,
        attend_fields(a)[4] == datetime_text(a.created_at),
{
}


/// The update of a profile sets each column to the profile's field of that name, quoting
/// texts and dates (`date_joined` cast to `TIMESTAMP`) and leaving numbers, booleans and
/// the date of birth bare, for the row whose `profile_id` is `uuid` (quoted).
pub proof fn lemma_update_profile_sets_each_column(p: Profile, uuid: Seq<char>)
    ensures
        fill(update_profile_parts(), profile_fields(p).push(uuid)) == "UPDATE profile SET \n            first_name = '"@
            + p.first_name@ + "', \n            last_name = '"@
            + p.last_name@ + "', \n            pwd = '"@
            + p.pwd@ + "', \n            gender = "@
            + int_text(p.gender as int) + ", \n            phone_number = '"@
            + p.phone_number@ + "', \n            email = '"@
            + p.email@ + "', \n            date_of_birth = "@
            + datetime_text(p.date_of_birth) + ", \n            photo_url = '"@
            + text_or_empty(p.photo_url) + "', \n            emergency_contact = "@
            + int_text(p.emergency_contact as int) + ", \n            is_active = "@
            + bool_text(p.is_active) + ", \n            is_verified = "@
            + bool_text(p.is_verified) + ", \n            verified_doc_id = "@
            + int_text(match p.verified_doc_id { Some(v) => v as int, None => 0 }) + ", \n            about = '"@
            + text_or_empty(p.about) + "', \n            date_joined = '"@
            + datetime_text(p.date_joined) + "'::TIMESTAMP, \n            score = "@
            + int_text(p.score as int) + ", \n            lat = "@
            + p.lat@ + ", \n            lon = "@
            + p.lon@ + ", \n            comments_id = "@
            + int_text(match p.comments_id { Some(v) => v as int, None => 0 }) + " \n        WHERE profile_id = '"@
            + uuid + "'"@,
{
    reveal_with_fuel(fill, 20);
    let args = profile_fields(p).push(uuid);
    let parts = update_profile_parts();
    assert(fill(parts, args) =~= "UPDATE profile SET \n            first_name = '"@
            + p.first_name@ + "', \n            last_name = '"@
            + p.last_name@ + "', \n            pwd = '"@
            + p.pwd@ + "', \n            gender = "@
            + int_text(p.gender as int) + ", \n            phone_number = '"@
            + p.phone_number@ + "', \n            email = '"@
            + p.email@ + "', \n            date_of_birth = "@
            + datetime_text(p.date_of_birth) + ", \n            photo_url = '"@
            + text_or_empty(p.photo_url) + "', \n            emergency_contact = "@
            + int_text(p.emergency_contact as int) + ", \n            is_active = "@
            + bool_text(p.is_active) + ", \n            is_verified = "@
            + bool_text(p.is_verified) + ", \n            verified_doc_id = "@
            + int_text(match p.verified_doc_id { Some(v) => v as int, None => 0 }) + ", \n            about = '"@
            + text_or_empty(p.about) + "', \n            date_joined = '"@
            + datetime_text(p.date_joined) + "'::TIMESTAMP, \n            score = "@
            + int_text(p.score as int) + ", \n            lat = "@
            + p.lat@ + ", \n            lon = "@
            + p.lon@ + ", \n            comments_id = "@
            + int_text(match p.comments_id { Some(v) => v as int, None => 0 }) + " \n        WHERE profile_id = '"@
            + uuid + "'"@);
}

} // verus!
