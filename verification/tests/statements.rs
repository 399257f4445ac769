use townlink_server::models::{Attend, Event_Detail, Profile};
use townlink_server::sql::{
    attend_statement, attendee_ids_statement, create_event_statement, create_profile_statement,
    create_statement, delete_profile_statement, delete_statement, event_by_id_statement,
    event_values, nearby_events_in_events_statement, nearby_events_statement, profile_by_id_statement,
    profile_id_by_email_statement, profile_values, record_exists_statement, select_by_id_statement,
    update_profile_statement, update_statement, ATTEND_COLUMNS, EVENT_COLUMNS, PROFILE_COLUMNS,
    PROFILES_BY_IDS_STATEMENT,
};
use townlink_server::timestamp::Timestamp;

fn ts(secs: i64) -> Timestamp {
    Timestamp::from_secs(secs).unwrap()
}

fn sample_profile() -> Profile {
    Profile {
        profile_id: 9,
        first_name: "Ann".to_string(),
        last_name: "Lee".to_string(),
        pwd: "pw".to_string(),
        gender: 1,
        phone_number: "555".to_string(),
        email: "a@b.c".to_string(),
        date_of_birth: ts(0),
        photo_url: None,
        emergency_contact: -1,
        is_active: true,
        is_verified: false,
        verified_doc_id: None,
        about: Some("hi".to_string()),
        date_joined: Timestamp::new(86400, 5_000_000).unwrap(),
        score: 7,
        lat: "1.5".to_string(),
        lon: "-2.25".to_string(),
        comments_id: Some(3),
    }
}

#[test]
fn generic_statements() {
    assert_eq!(
        create_statement("t", "a, b", "'1', '2'", "id"),
        "INSERT INTO t (a, b) VALUES ('1', '2') RETURNING id"
    );
    assert_eq!(update_statement("t", "id", "a = 1"), "UPDATE t SET a = 1 WHERE id = $1");
    assert_eq!(delete_statement("t", "id"), "DELETE FROM t WHERE id = $1");
    assert_eq!(select_by_id_statement("t", "id"), "SELECT * FROM t WHERE id = $1");
    assert_eq!(
        record_exists_statement("profile", "email", "profile_id"),
        "SELECT profile_id FROM profile WHERE email = $1 LIMIT 1"
    );
    assert_eq!(
        attendee_ids_statement(-5),
        "SELECT user_id FROM attendees WHERE event_id = -5"
    );
    assert_eq!(
        attendee_ids_statement(42),
        format!("SELECT user_id FROM attendees WHERE event_id = {}", 42)
    );
    assert!(PROFILES_BY_IDS_STATEMENT.ends_with("FROM profile WHERE profile_id = ANY($1)"));
}

#[test]
fn nearby_events_statement_names_its_table() {
    let s = nearby_events_statement("events");
    let expected = format!(
        r#"
            SELECT event_id, name, start_time, address, town_name, attendees, category
            FROM {}
            WHERE ST_Distance(
                ST_MakePoint(latitude, longitude)::geography,
                ST_MakePoint($1, $2)::geography
            ) <= $3
            ORDER BY ST_Distance(
                ST_MakePoint(latitude, longitude)::geography,
                ST_MakePoint($1, $2)::geography
            )
            LIMIT $4 OFFSET $5
            "#,
        "events"
    );
    assert_eq!(s, expected);
    assert_eq!(nearby_events_in_events_statement(), expected);
}

#[test]
fn profile_statements() {
    let p = sample_profile();
    let values = "'Ann', 'Lee', 'pw', '1', '555', 'a@b.c', '1970-01-01 00:00:00', '', '-1', 'true', 'false', '0', 'hi', '1970-01-02 00:00:00.005', '7', '1.5', '-2.25', '3'";
    assert_eq!(profile_values(&p), values);
    assert_eq!(
        create_profile_statement(&p),
        format!("INSERT INTO profile ({}) VALUES ({}) RETURNING profile_id", PROFILE_COLUMNS, values)
    );
    assert_eq!(delete_profile_statement(), "DELETE FROM profile WHERE profile_id = $1");
    assert_eq!(profile_by_id_statement(), "SELECT * FROM profile WHERE profile_id = $1");
    assert_eq!(
        profile_id_by_email_statement(),
        "SELECT profile_id FROM profile WHERE email = $1 LIMIT 1"
    );
}

#[test]
fn profile_update_statement_matches_its_format() {
    let p = sample_profile();
    let expected = format!(
        "UPDATE profile SET 
            first_name = '{}', 
            last_name = '{}', 
            pwd = '{}', 
            gender = {}, 
            phone_number = '{}', 
            email = '{}', 
            date_of_birth = {}, 
            photo_url = '{}', 
            emergency_contact = {}, 
            is_active = {}, 
            is_verified = {}, 
            verified_doc_id = {}, 
            about = '{}', 
            date_joined = '{}'::TIMESTAMP, 
            score = {}, 
            lat = {}, 
            lon = {}, 
            comments_id = {} 
        WHERE profile_id = '{}'",
        "Ann", "Lee", "pw", 1, "555", "a@b.c", "1970-01-01 00:00:00", "", -1, true, false, 0, "hi",
        "1970-01-02 00:00:00.005", 7, "1.5", "-2.25", 3, "abc-42"
    );
    assert_eq!(update_profile_statement(&p, "abc-42"), expected);
}

#[test]
fn event_statement_keeps_its_missing_space() {
    let e = Event_Detail {
        event_id: 1,
        name: "Fair".to_string(),
        description: None,
        start_time: ts(0),
        end_time: ts(3600),
        latitude: "10".to_string(),
        longitude: "20.5".to_string(),
        address: Some("Main St".to_string()),
        town_name: None,
        organizer_id: None,
        created_at: ts(60),
        updated_at: ts(120),
        attendees: 3,
        max_attendees: 50,
        ticket_price: None,
        category: Some("music".to_string()),
    };
    let values = "'Fair', '', '1970-01-01 00:00:00', '1970-01-01 01:00:00', '10', '20.5', 'Main St', '', '0', '1970-01-01 00:01:00','1970-01-01 00:02:00', '3', '50', '0', 'music'";
    assert_eq!(event_values(&e), values);
    assert_eq!(
        create_event_statement(&e),
        format!("INSERT INTO events ({}) VALUES ({}) RETURNING event_id", EVENT_COLUMNS, values)
    );
    assert!(EVENT_COLUMNS.starts_with("name, description, start_time, end_time, \n"));
    assert_eq!(event_by_id_statement(), "SELECT * FROM events WHERE event_id = $1");
    let priced = Event_Detail { ticket_price: Some("12.5".to_string()), organizer_id: Some(8), ..e };
    assert!(event_values(&priced).contains("'8', '1970-01-01 00:01:00','1970-01-01 00:02:00', '3', '50', '12.5'"));
}

#[test]
fn attend_statement_lists_the_attendance() {
    let a = Attend {
        attendee_id: 0,
        profile_id: 4,
        event_id: -2,
        status: "attending".to_string(),
        ticket_qr_code: "qr".to_string(),
        created_at: ts(0),
    };
    assert_eq!(
        attend_statement(&a),
        format!(
            "INSERT INTO attendees ({}) VALUES ('4', '-2', 'attending', 'qr', '1970-01-01 00:00:00') RETURNING attendee_id",
            ATTEND_COLUMNS
        )
    );
    assert_eq!(ATTEND_COLUMNS, "profile_id, \n        event_id, \n        status, \n        ticket_qr_code, \n        created_at");
}
