use townlink_server::database::{
    create_database_statement, database_creation, database_name, database_url, server_url,
    CreateDatabaseError, DatabaseCreation,
};
use townlink_server::login::{
    login_start, LoginAction, LoginEvent, LoginRequest, LoginState,
};
use townlink_server::routes::Reply;
use townlink_server::social::{
    clean_profile_picture_url, profile_from_user_info, token_check_url, token_subject,
    user_info_keys, user_info_url, Provider, UserInfo,
};
use townlink_server::timestamp::Timestamp;

fn request(provider: &str) -> LoginRequest {
    LoginRequest {
        provider: provider.to_string(),
        access_token: "tok".to_string(),
        lat: "1.5".to_string(),
        lon: "2".to_string(),
    }
}

fn info() -> UserInfo {
    UserInfo {
        first_name: Some("Ann".to_string()),
        last_name: None,
        email: Some("ann@x.org".to_string()),
        photo: Some("https://p/ann.jpg=s96-c".to_string()),
    }
}

fn step(s: LoginState, e: LoginEvent) -> (LoginState, LoginAction) {
    assert!(s.expects(&e));
    s.step(e)
}

#[test]
fn providers_and_addresses() {
    assert_eq!(Provider::from_name("google"), Some(Provider::Google));
    assert_eq!(Provider::from_name("facebook"), Some(Provider::Facebook));
    assert_eq!(Provider::from_name("twitter"), None);
    assert_eq!(
        token_check_url(Provider::Google, "T"),
        "https://www.googleapis.com/oauth2/v3/tokeninfo?access_token=T"
    );
    assert_eq!(
        token_check_url(Provider::Facebook, "T"),
        "https://graph.facebook.com/me?access_token=T&fields=id,name,email"
    );
    assert_eq!(
        user_info_url(Provider::Google, "T"),
        "https://www.googleapis.com/oauth2/v3/userinfo?access_token=T"
    );
    assert_eq!(
        user_info_url(Provider::Facebook, "T"),
        "https://graph.facebook.com/me?access_token=T&fields=id,name,email"
    );
    let g = user_info_keys(Provider::Google);
    assert_eq!((g.first_name, g.last_name, g.email, g.photo), ("given_name", "family_name", "email", "picture"));
    let f = user_info_keys(Provider::Facebook);
    assert_eq!((f.first_name, f.last_name, f.email, f.photo), ("first_name", "last_name", "email", "imageURL"));
    assert_eq!(token_subject(Some("123".to_string())), "123");
    assert_eq!(token_subject(None), "");
}

#[test]
fn picture_addresses_lose_their_parameters() {
    assert_eq!(clean_profile_picture_url("https://p/a.jpg=s96-c"), "https://p/a.jpg");
    assert_eq!(clean_profile_picture_url("https://p/a.jpg"), "https://p/a.jpg");
    assert_eq!(clean_profile_picture_url("a=b=c"), "a");
    let once = clean_profile_picture_url("x=y");
    assert_eq!(clean_profile_picture_url(&once), once);
}

#[test]
fn provider_details_make_a_profile() {
    let now = Timestamp::new(1000, 5).unwrap();
    let p = profile_from_user_info(Provider::Google, info(), "1.5".to_string(), "2".to_string(), now);
    assert_eq!(p.profile_id, 0);
    assert_eq!(p.first_name, "Ann");
    assert_eq!(p.last_name, "");
    assert_eq!(p.email, "ann@x.org");
    assert_eq!(p.photo_url, Some("https://p/ann.jpg".to_string()));
    assert_eq!((p.gender, p.emergency_contact, p.score), (-1, -1, 0));
    assert!(p.is_active && !p.is_verified);
    assert_eq!(p.verified_doc_id, Some(-1));
    assert_eq!(p.comments_id, Some(-1));
    assert_eq!(p.about, Some(String::new()));
    assert_eq!((p.date_of_birth.secs(), p.date_joined.nanos()), (1000, 5));
    assert_eq!((p.lat.as_str(), p.lon.as_str()), ("1.5", "2"));
    let g = UserInfo { photo: None, ..info() };
    let p = profile_from_user_info(Provider::Google, g, String::new(), String::new(), now);
    assert_eq!(p.photo_url, Some(String::new()));
    let p = profile_from_user_info(Provider::Facebook, info(), String::new(), String::new(), now);
    assert_eq!(p.photo_url, Some("https://p/ann.jpg=s96-c".to_string()));
    let f = UserInfo { photo: None, ..info() };
    let p = profile_from_user_info(Provider::Facebook, f, String::new(), String::new(), now);
    assert_eq!(p.photo_url, None);
}

fn answer(a: LoginAction) -> (u16, String) {
    match a {
        LoginAction::Respond(Reply::BadRequest(m)) => (400, m),
        LoginAction::Respond(Reply::NotFound(m)) => (404, m),
        LoginAction::Respond(Reply::InternalServerError(m)) => (500, m),
        LoginAction::Respond(Reply::Unauthorized(m)) => (401, m),
        LoginAction::Respond(Reply::Success(g)) => (200, format!("{}|{}|{}", g.access_token, g.user_id, g.username)),
        _ => panic!("not an answer"),
    }
}

/// Runs a login up to the look-up of the email.
fn to_lookup(provider: &str) -> LoginState {
    let (s, a) = login_start(request(provider));
    assert!(matches!(a, LoginAction::CheckToken(_)));
    let (s, a) = step(s, LoginEvent::TokenChecked(Ok("sub".to_string())));
    match &a {
        LoginAction::FetchUserInfo(url, keys) => {
            assert!(url.ends_with("access_token=tok") || url.ends_with("&fields=id,name,email"));
            assert_eq!(keys.email, "email");
        }
        _ => panic!("expected a user-info fetch"),
    }
    let now = Timestamp::from_secs(0).unwrap();
    let (s, a) = step(s, LoginEvent::UserInfoFetched(Ok(info()), now));
    match a {
        LoginAction::LookUpProfile(stmt, email) => {
            assert_eq!(stmt, "SELECT profile_id FROM profile WHERE email = $1 LIMIT 1");
            assert_eq!(email, "ann@x.org");
        }
        _ => panic!("expected a look-up"),
    }
    s
}

#[test]
fn unknown_provider_is_refused() {
    let (s, a) = login_start(request("github"));
    assert!(matches!(s, LoginState::Done));
    assert_eq!(answer(a), (400, "Error verifying token: Unsupported provider".to_string()));
}

#[test]
fn provider_errors_are_bad_requests() {
    let (s, a) = login_start(request("google"));
    match a {
        LoginAction::CheckToken(url) => assert_eq!(url, "https://www.googleapis.com/oauth2/v3/tokeninfo?access_token=tok"),
        _ => panic!("expected a token check"),
    }
    let (s2, a) = step(s, LoginEvent::TokenChecked(Err("timeout".to_string())));
    assert!(matches!(s2, LoginState::Done));
    assert_eq!(answer(a), (400, "Error verifying token: timeout".to_string()));
    let (s, _) = login_start(request("facebook"));
    let (s, _) = step(s, LoginEvent::TokenChecked(Ok(String::new())));
    let (s, a) = step(s, LoginEvent::UserInfoFetched(Err("bad json".to_string()), Timestamp::from_secs(0).unwrap()));
    assert!(matches!(s, LoginState::Done));
    assert_eq!(answer(a), (400, "Error to get user info: bad json".to_string()));
}

#[test]
fn known_user_gets_a_token_with_the_stored_name() {
    let s = to_lookup("google");
    let (s, a) = step(s, LoginEvent::ProfileLookedUp(Ok(Some(31))));
    match a {
        LoginAction::FetchProfile(stmt, id) => {
            assert_eq!(stmt, "SELECT * FROM profile WHERE profile_id = $1");
            assert_eq!(id, 31);
        }
        _ => panic!("expected a profile read"),
    }
    let (s, a) = step(s, LoginEvent::ProfileFetched(Ok(Some("Annie".to_string()))));
    assert!(matches!(a, LoginAction::SignToken(31)));
    let (s, a) = step(s, LoginEvent::TokenSigned(Ok("jwt".to_string())));
    assert!(matches!(s, LoginState::Done));
    assert_eq!(answer(a), (200, "jwt|31|Annie".to_string()));
}

#[test]
fn new_user_is_stored_then_signed() {
    let s = to_lookup("google");
    let (s, a) = step(s, LoginEvent::ProfileLookedUp(Ok(None)));
    match a {
        LoginAction::CreateProfile(stmt) => {
            assert!(stmt.starts_with("INSERT INTO profile (first_name, last_name"));
            assert!(stmt.contains("VALUES ('Ann', '', '', '-1', '', 'ann@x.org', '1970-01-01 00:00:00', 'https://p/ann.jpg', '-1', 'true', 'false', '-1', '', '1970-01-01 00:00:00', '0', '1.5', '2', '-1')"));
            assert!(stmt.ends_with(") RETURNING profile_id"));
        }
        _ => panic!("expected an insert"),
    }
    let (s, a) = step(s, LoginEvent::ProfileCreated(Ok(77)));
    assert!(matches!(a, LoginAction::SignToken(77)));
    let (_, a) = step(s, LoginEvent::TokenSigned(Ok("t2".to_string())));
    assert_eq!(answer(a), (200, "t2|77|Ann".to_string()));
}

#[test]
fn login_failures_have_their_answers() {
    let (_, a) = step(to_lookup("google"), LoginEvent::ProfileLookedUp(Err(())));
    assert_eq!(answer(a), (500, "Database query failed".to_string()));
    let (s, _) = step(to_lookup("google"), LoginEvent::ProfileLookedUp(Ok(Some(1))));
    let (_, a) = step(s, LoginEvent::ProfileFetched(Ok(None)));
    assert_eq!(answer(a), (404, "Profile not found".to_string()));
    let (s, _) = step(to_lookup("google"), LoginEvent::ProfileLookedUp(Ok(Some(1))));
    let (_, a) = step(s, LoginEvent::ProfileFetched(Err(())));
    assert_eq!(answer(a), (500, "Failed to fetch profile data".to_string()));
    let (s, _) = step(to_lookup("google"), LoginEvent::ProfileLookedUp(Ok(Some(1))));
    let (s, _) = step(s, LoginEvent::ProfileFetched(Ok(Some("A".to_string()))));
    let (_, a) = step(s, LoginEvent::TokenSigned(Err(())));
    assert_eq!(answer(a), (401, "Failed to generate token".to_string()));
    let (s, _) = step(to_lookup("google"), LoginEvent::ProfileLookedUp(Ok(None)));
    let (_, a) = step(s, LoginEvent::ProfileCreated(Err(())));
    assert_eq!(answer(a), (500, "Failed to create profile".to_string()));
    let (s, _) = step(to_lookup("google"), LoginEvent::ProfileLookedUp(Ok(None)));
    let (s, _) = step(s, LoginEvent::ProfileCreated(Ok(2)));
    let (s, a) = step(s, LoginEvent::TokenSigned(Err(())));
    assert_eq!(answer(a), (401, "Invalid credentials".to_string()));
    assert!(!s.expects(&LoginEvent::TokenSigned(Err(()))));
}

#[test]
fn database_addresses() {
    let base = server_url("u", "p", "localhost:5432");
    assert_eq!(base, "postgres://u:p@localhost:5432");
    assert_eq!(create_database_statement("town"), "CREATE DATABASE \"town\"");
    let url = database_url(&base, "town");
    assert_eq!(url, "postgres://u:p@localhost:5432/town");
    assert_eq!(database_name(&url), "town");
    assert_eq!(database_name("no-slash"), "no-slash");
}

#[test]
fn database_creation_outcomes() {
    assert_eq!(database_creation(&Ok(())), DatabaseCreation::Created);
    let exists = Err(CreateDatabaseError::Database("database \"town\" already exists".to_string()));
    assert_eq!(database_creation(&exists), DatabaseCreation::AlreadyExists);
    let denied = Err(CreateDatabaseError::Database("permission denied".to_string()));
    assert_eq!(database_creation(&denied), DatabaseCreation::Failed);
    assert_eq!(database_creation(&Err(CreateDatabaseError::Other)), DatabaseCreation::Ignored);
}
