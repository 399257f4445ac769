use townlink_server::auth::{
    check_decoded, check_start, extract_token, verify_jwt_reply, Access, AuthError, Claims,
    JwtMiddleware, TokenCheck, SECRET, TOKEN_LIFETIME_SECS,
};
use townlink_server::routes::{
    attend_reply, attendee_ids_next, attendee_profiles_reply, checked_page_offset,
    create_event_reply, create_profile_reply, delete_profile_reply, event_by_id_reply,
    nearby_events_reply, page_offset, path_id, ping_reply, profile_by_id_reply,
    update_profile_reply, AttendeesNext, Reply,
};

fn body<T>(r: Reply<T>) -> (u16, Option<T>, String) {
    match r {
        Reply::Success(t) => (200, Some(t), String::new()),
        Reply::NotFound(m) => (404, None, m),
        Reply::InternalServerError(m) => (500, None, m),
        Reply::BadRequest(m) => (400, None, m),
        Reply::Unauthorized(m) => (401, None, m),
    }
}

#[test]
fn bearer_header_yields_its_token() {
    assert_eq!(extract_token(Some(b"Bearer abc.def.ghi")), Ok("abc.def.ghi".to_string()));
    assert_eq!(extract_token(Some(b"Bearer ")), Ok(String::new()));
    assert_eq!(extract_token(Some(b"Bearer a\tb")), Ok("a\tb".to_string()));
}

#[test]
fn header_errors_each_have_their_kind() {
    assert_eq!(extract_token(None), Err(AuthError::MissingHeader));
    assert_eq!(extract_token(Some(b"Basic abc")), Err(AuthError::InvalidTokenFormat));
    assert_eq!(extract_token(Some(b"Bearer")), Err(AuthError::InvalidTokenFormat));
    assert_eq!(extract_token(Some(b"bearer abc")), Err(AuthError::InvalidTokenFormat));
    assert_eq!(extract_token(Some(b"Bearer ab\x80")), Err(AuthError::InvalidHeader));
    assert_eq!(extract_token(Some(b"Bearer a\nb")), Err(AuthError::InvalidHeader));
    assert_eq!(extract_token(Some(b"x\x7f")), Err(AuthError::InvalidHeader));
}

#[test]
fn token_check_steps() {
    match check_start(Some(b"Bearer tok")) {
        TokenCheck::Decode(t) => assert_eq!(t, "tok"),
        TokenCheck::Refused(_) => panic!("refused a bearer header"),
    }
    assert!(matches!(check_start(None), TokenCheck::Refused(AuthError::MissingHeader)));
    assert_eq!(check_decoded(Ok(Claims { user_id: 12, exp: 5 })), Ok(12));
    assert_eq!(check_decoded(Err(())), Err(AuthError::InvalidToken));
}

#[test]
fn verify_token_answers() {
    assert_eq!(body(verify_jwt_reply(Ok(77))), (200, Some(77), String::new()));
    let cases = [
        (AuthError::MissingHeader, "Error verifying token: Missing Authorization header"),
        (AuthError::InvalidHeader, "Error verifying token: Invalid Authorization header"),
        (AuthError::InvalidTokenFormat, "Error verifying token: Invalid token format"),
        (AuthError::InvalidToken, "Error verifying token: Invalid token"),
    ];
    for (e, msg) in cases {
        assert_eq!(body(verify_jwt_reply(Err(e))), (401, None, msg.to_string()));
    }
}

#[test]
fn claims_expire_after_thirty_days() {
    let c = Claims::for_user(5, 1_000);
    assert_eq!(c.user_id, 5);
    assert_eq!(c.exp, 1_000 + 30 * 24 * 60 * 60);
    assert_eq!(TOKEN_LIFETIME_SECS, 2_592_000);
}

#[test]
fn guard_keeps_its_key_and_forwards_decoded_users() {
    let m = JwtMiddleware::new(SECRET.to_string());
    assert_eq!(m.secret(), "thisisnojoke");
    let svc = m.new_transform(41u8);
    assert_eq!(svc.secret(), "thisisnojoke");
    assert_eq!(**svc.service(), 41u8);
    assert!(matches!(svc.access(Ok(3)), Access::Forward(3)));
    assert!(matches!(svc.access(Err(AuthError::InvalidToken)), Access::Refuse));
}

#[test]
fn route_answers() {
    assert_eq!(body(create_profile_reply(Ok(4))), (200, Some(4), String::new()));
    assert_eq!(body(create_profile_reply(Err(()))).2, "Failed to create profile");
    assert_eq!(body(update_profile_reply(Ok(()))).1.unwrap(), "Profile updated successfully");
    assert_eq!(body(update_profile_reply(Err(()))), (500, None, "Failed to update profile".to_string()));
    assert_eq!(body(delete_profile_reply(Ok(()))).1.unwrap(), "Profile successfully deleted.");
    assert_eq!(body(delete_profile_reply(Err(()))).2, "Failed to delete profile");
    assert_eq!(body(profile_by_id_reply(Ok(Some("p")))), (200, Some("p"), String::new()));
    assert_eq!(body(profile_by_id_reply::<u8>(Ok(None))), (404, None, "Profile not found".to_string()));
    assert_eq!(body(profile_by_id_reply::<u8>(Err(()))).2, "Failed to fetch profile data");
    assert_eq!(body(create_event_reply(Ok(1))).1.unwrap(), "Event created successfully");
    assert_eq!(body(create_event_reply(Err(()))).2, "Failed to create event");
    assert_eq!(body(nearby_events_reply(Ok(vec![1, 2]))).1.unwrap(), vec![1, 2]);
    assert_eq!(body(nearby_events_reply::<u8>(Err(()))).2, "Failed to get nearby events");
    assert_eq!(body(event_by_id_reply::<u8>(Ok(None))), (404, None, "Event not found".to_string()));
    assert_eq!(body(event_by_id_reply::<u8>(Err(()))).2, "Failed to get event detail");
    assert_eq!(body(attend_reply(Ok(1))).1.unwrap(), "Attended successfully");
    assert_eq!(body(attend_reply(Err(()))).2, "Failed to create attend");
    assert_eq!(body(ping_reply()).1.unwrap(), "pong");
}

#[test]
fn attendees_flow() {
    match attendee_ids_next::<u8>(Ok(vec![])) {
        AttendeesNext::Respond(r) => assert_eq!(body(r), (200, Some(vec![]), String::new())),
        AttendeesNext::FetchProfiles(_) => panic!("read profiles for no attendee"),
    }
    match attendee_ids_next::<u8>(Ok(vec![3, 9])) {
        AttendeesNext::FetchProfiles(ids) => assert_eq!(ids, vec![3, 9]),
        AttendeesNext::Respond(_) => panic!("answered before reading the profiles"),
    }
    match attendee_ids_next::<u8>(Err(())) {
        AttendeesNext::Respond(r) => assert_eq!(body(r).2, "Failed to get event detail"),
        AttendeesNext::FetchProfiles(_) => panic!("read profiles after an error"),
    }
    assert_eq!(body(attendee_profiles_reply(Ok(vec![5u8]))).1.unwrap(), vec![5u8]);
    assert_eq!(body(attendee_profiles_reply::<u8>(Err(()))).2, "Failed to get event detail");
}

#[test]
fn paths_and_pages() {
    assert_eq!(path_id(12), Some(12));
    assert_eq!(path_id(i32::MAX as i64 + 1), None);
    assert_eq!(path_id(i32::MIN as i64), Some(i32::MIN));
    assert_eq!(page_offset(1, 20), 0);
    assert_eq!(page_offset(3, 20), 40);
    assert_eq!(page_offset(0, 20), -20);
    assert_eq!(checked_page_offset(i32::MIN, 2), None);
    assert_eq!(checked_page_offset(i32::MAX, 1), Some(i32::MAX - 1));
    assert_eq!(checked_page_offset(2, 5), Some(5));
    assert_eq!(townlink_server::models::default_page(), 1);
    assert_eq!(townlink_server::models::default_limit(), 20);
}
