//! `GET /login`: sign-in with a Google or Facebook access token.
//!
//! The flow alternates requests to the provider and to the database with decisions; the
//! decisions are a state machine. The caller performs each `LoginAction` and hands back
//! the `LoginEvent` it produced, until the action is `Respond`:
//!
//! 1. check the access token with the provider;
//! 2. read the user's details from the provider and make a profile of them;
//! 3. look the profile's email up in the database;
//! 4. read the stored profile when there is one, else store the new profile;
//! 5. sign a token for the profile's id, and answer with it.

use vstd::prelude::*;
use vstd::string::*;

use crate::models::Profile;
use crate::routes::Reply;
use crate::social::{
    has_user_info_keys, is_user_info_profile, lemma_provider_addresses,
    lemma_user_info_profile_carries_details, profile_from_user_info, provider_named,
    token_check_url, token_check_url_text, user_info_keys, user_info_url, user_info_url_text,
    Provider, UserInfo, UserInfoKeys,
};
use crate::sql::{create_profile_statement, profile_by_id_statement, profile_fields, profile_id_by_email_statement, PROFILE_COLUMNS};
use crate::text::quoted_join;
use crate::timestamp::Timestamp;

verus! {

/// The query of a login.
pub struct LoginRequest {
    /// `google` or `facebook`.
    pub provider: String,
    pub access_token: String,
    /// Latitude, as the text of an `f64`.
    pub lat: String,
    /// Longitude, as the text of an `f64`.
    pub lon: String,
}

/// The answer to a successful login (sent as JSON).
pub struct LoginGrant {
    pub access_token: String,
    pub user_id: i32,
    pub username: String,
}

/// What the caller does next.
pub enum LoginAction {
    /// GET this address; hand back `TokenChecked`.
    CheckToken(String),
    /// GET this address and read the strings at these keys of its JSON; hand back
    /// `UserInfoFetched`.
    FetchUserInfo(String, UserInfoKeys),
    /// Run this statement with the email bound to `$1`; hand back `ProfileLookedUp`.
    LookUpProfile(String, String),
    /// Run this statement with the id bound to `$1`; hand back `ProfileFetched`.
    FetchProfile(String, i32),
    /// Run this statement, which returns the new profile's id; hand back `ProfileCreated`.
    CreateProfile(String),
    /// Sign a token for this user id; hand back `TokenSigned`.
    SignToken(i32),
    /// Answer the request; the login is over.
    Respond(Reply<LoginGrant>),
}

/// What the caller hands back after an action.
pub enum LoginEvent {
    /// The provider checked the token: the user id it gave, or the text of the error.
    TokenChecked(Result<String, String>),
    /// The user's details, or the text of the error; and the current time.
    UserInfoFetched(Result<UserInfo, String>, Timestamp),
    /// The id of the profile with the email, if any; or a database error.
    ProfileLookedUp(Result<Option<i32>, ()>),
    /// The first name of the stored profile, if there is one; or a database error.
    ProfileFetched(Result<Option<String>, ()>),
    /// The id of the stored new profile, or a database error.
    ProfileCreated(Result<i32, ()>),
    /// The signed token, or a failure to sign.
    TokenSigned(Result<String, ()>),
}

/// Where a login stands.
pub enum LoginState {
    /// The provider is checking the access token.
    CheckingToken { provider: Provider, access_token: String, lat: String, lon: String },
    /// The provider is giving the user's details.
    FetchingUserInfo { provider: Provider, lat: String, lon: String },
    /// The database is looking for the profile's email.
    LookingUp { profile: Profile },
    /// The database is reading the stored profile.
    FetchingProfile { profile_id: i32 },
    /// The database is storing the new profile.
    CreatingProfile { profile: Profile },
    /// A token is being signed for the user; `created` tells whether the profile is new.
    Signing { user_id: i32, username: String, created: bool },
    /// The login has been answered.
    Done,
}

/// The first state and action of a login: check the access token with the named provider,
/// or answer 400 when the provider is unknown.
pub open spec fn login_start_spec(req: LoginRequest, s: LoginState, a: LoginAction) -> bool {
    match provider_named(req.provider@) {
        Some(p) => {
            &&& s matches LoginState::CheckingToken { provider, access_token, lat, lon } && provider
                == p && access_token@ == req.access_token@ && lat@ == req.lat@ && lon@
                == req.lon@
            &&& a matches LoginAction::CheckToken(url) && url@ == token_check_url_text(
                p,
                req.access_token@,
            )
        },
        None => {
            &&& s is Done
            &&& a matches LoginAction::Respond(Reply::BadRequest(m)) && m@
                == "Error verifying token: "@ + "Unsupported provider"@
        },
    }
}

/// Whether the state expects the event.
pub open spec fn expects(s: LoginState, e: LoginEvent) -> bool {
    match s {
        LoginState::CheckingToken { .. } => e is TokenChecked,
        LoginState::FetchingUserInfo { .. } => e is UserInfoFetched,
        LoginState::LookingUp { .. } => e is ProfileLookedUp,
        LoginState::FetchingProfile { .. } => e is ProfileFetched,
        LoginState::CreatingProfile { .. } => e is ProfileCreated,
        LoginState::Signing { .. } => e is TokenSigned,
        LoginState::Done => false,
    }
}

/// The steps of a login: from state `s` and event `e`, the next state `n` and action `a`.
pub open spec fn login_step_spec(s: LoginState, e: LoginEvent, n: LoginState, a: LoginAction) -> bool {
    match (s, e) {
        (
            LoginState::CheckingToken { provider, access_token, lat, lon },
            LoginEvent::TokenChecked(checked),
        ) => match checked {
            Ok(_) => {
                &&& n matches LoginState::FetchingUserInfo { provider: p2, lat: lat2, lon: lon2 }
                    && p2 == provider && lat2@ == lat@ && lon2@ == lon@
                &&& a matches LoginAction::FetchUserInfo(url, keys) && url@ == user_info_url_text(
                    provider,
                    access_token@,
                ) && has_user_info_keys(provider, keys)
            },
            Err(err) => {
                &&& n is Done
                &&& a matches LoginAction::Respond(Reply::BadRequest(m)) && m@
                    == "Error verifying token: "@ + err@
            },
        },
        (
            LoginState::FetchingUserInfo { provider, lat, lon },
            LoginEvent::UserInfoFetched(fetched, now),
        ) => match fetched {
            Ok(info) => {
                &&& n matches LoginState::LookingUp { profile } && is_user_info_profile(
                    provider,
                    info,
                    lat@,
                    lon@,
                    now,
                    profile,
                )
                &&& a matches LoginAction::LookUpProfile(stmt, email) && stmt@ == "SELECT "@
                    + "profile_id"@ + " FROM "@ + "profile"@ + " WHERE "@ + "email"@
                    + " = $1 LIMIT 1"@ && email@ == (n->LookingUp_profile).email@
            },
            Err(err) => {
                &&& n is Done
                &&& a matches LoginAction::Respond(Reply::BadRequest(m)) && m@
                    == "Error to get user info: "@ + err@
            },
        },
        (LoginState::LookingUp { profile }, LoginEvent::ProfileLookedUp(found)) => match found {
            Ok(Some(id)) => {
                &&& n == LoginState::FetchingProfile { profile_id: id }
                &&& a matches LoginAction::FetchProfile(stmt, fid) && fid == id && stmt@
                    == "SELECT * FROM "@ + "profile"@ + " WHERE "@ + "profile_id"@ + " = $1"@
            },
            Ok(None) => {
                &&& n == LoginState::CreatingProfile { profile }
                &&& a matches LoginAction::CreateProfile(stmt) && stmt@ == "INSERT INTO "@
                    + "profile"@ + " ("@ + PROFILE_COLUMNS@ + ") VALUES ("@ + quoted_join(
                    profile_fields(profile),
                ) + ") RETURNING "@ + "profile_id"@
            },
            Err(_) => {
                &&& n is Done
                &&& a matches LoginAction::Respond(Reply::InternalServerError(m)) && m@
                    == "Database query failed"@
            },
        },
        (LoginState::FetchingProfile { profile_id }, LoginEvent::ProfileFetched(found)) => match found {
            Ok(Some(first_name)) => {
                &&& n matches LoginState::Signing { user_id, username, created } && user_id
                    == profile_id && username@ == first_name@ && !created
                &&& a == LoginAction::SignToken(profile_id)
            },
            Ok(None) => {
                &&& n is Done
                &&& a matches LoginAction::Respond(Reply::NotFound(m)) && m@
                    == "Profile not found"@
            },
            Err(_) => {
                &&& n is Done
                &&& a matches LoginAction::Respond(Reply::InternalServerError(m)) && m@
                    == "Failed to fetch profile data"@
            },
        },
        (LoginState::CreatingProfile { profile }, LoginEvent::ProfileCreated(created)) => match created {
            Ok(id) => {
                &&& n matches LoginState::Signing { user_id, username, created } && user_id == id
                    && username@ == profile.first_name@ && created
                &&& a == LoginAction::SignToken(id)
            },
            Err(_) => {
                &&& n is Done
                &&& a matches LoginAction::Respond(Reply::InternalServerError(m)) && m@
                    == "Failed to create profile"@
            },
        },
        (LoginState::Signing { user_id, username, created }, LoginEvent::TokenSigned(signed)) => {
            &&& n is Done
            &&& match signed {
                Ok(token) => a matches LoginAction::Respond(Reply::Success(g)) && g.access_token@
                    == token@ && g.user_id == user_id && g.username@ == username@,
                Err(_) => a matches LoginAction::Respond(Reply::Unauthorized(m)) && m@ == (if created {
                    "Invalid credentials"@
                } else {
                    "Failed to generate token"@
                }),
            }
        },
        _ => false,
    }
}

fn message(prefix: &str, detail: &str) -> (m: String)
    ensures
        m@ == prefix@ + detail@,
{
    let mut m = String::from_str(prefix);
    m.append(detail);
    m
}

/// Starts a login.
pub fn login_start(req: LoginRequest) -> (r: (LoginState, LoginAction))
    ensures
        login_start_spec(req, r.0, r.1),
{
    match Provider::from_name(req.provider.as_str()) {
        Some(p) => {
            let url = token_check_url(p, req.access_token.as_str());
            (
                LoginState::CheckingToken {
                    provider: p,
                    access_token: req.access_token,
                    lat: req.lat,
                    lon: req.lon,
                },
                LoginAction::CheckToken(url),
            )
        },
        None => (
            LoginState::Done,
            LoginAction::Respond(
                Reply::BadRequest(message("Error verifying token: ", "Unsupported provider")),
            ),
        ),
    }
}

impl LoginState {
    /// Whether this state expects the event.
    pub fn expects(&self, e: &LoginEvent) -> (b: bool)
        ensures
            b == expects(*self, *e),
    {
        match (self, e) {
            (LoginState::CheckingToken { .. }, LoginEvent::TokenChecked(_)) => true,
            (LoginState::FetchingUserInfo { .. }, LoginEvent::UserInfoFetched(_, _)) => true,
            (LoginState::LookingUp { .. }, LoginEvent::ProfileLookedUp(_)) => true,
            (LoginState::FetchingProfile { .. }, LoginEvent::ProfileFetched(_)) => true,
            (LoginState::CreatingProfile { .. }, LoginEvent::ProfileCreated(_)) => true,
            (LoginState::Signing { .. }, LoginEvent::TokenSigned(_)) => true,
            _ => false,
        }
    }

    /// One step of a login: the state after the event, and what to do next.
    pub fn step(self, e: LoginEvent) -> (r: (LoginState, LoginAction))
        requires
            expects(self, e),
        ensures
            login_step_spec(self, e, r.0, r.1),
    {
        match self {
            LoginState::CheckingToken { provider, access_token, lat, lon } => {
                match e {
                    LoginEvent::TokenChecked(Ok(_)) => {
                        let url = user_info_url(provider, access_token.as_str());
                        (
                            LoginState::FetchingUserInfo { provider, lat, lon },
                            LoginAction::FetchUserInfo(url, user_info_keys(provider)),
                        )
                    },
                    LoginEvent::TokenChecked(Err(err)) => (
                        LoginState::Done,
                        LoginAction::Respond(
                            Reply::BadRequest(message("Error verifying token: ", err.as_str())),
                        ),
                    ),
                    _ => unreached(),
                }
            },
            LoginState::FetchingUserInfo { provider, lat, lon } => {
                match e {
                    LoginEvent::UserInfoFetched(Ok(info), now) => {
                        let profile = profile_from_user_info(provider, info, lat, lon, now);
                        let email = profile.email.clone();
                        (
                            LoginState::LookingUp { profile },
                            LoginAction::LookUpProfile(profile_id_by_email_statement(), email),
                        )
                    },
                    LoginEvent::UserInfoFetched(Err(err), _) => (
                        LoginState::Done,
                        LoginAction::Respond(
                            Reply::BadRequest(message("Error to get user info: ", err.as_str())),
                        ),
                    ),
                    _ => unreached(),
                }
            },
            LoginState::LookingUp { profile } => {
                match e {
                    LoginEvent::ProfileLookedUp(Ok(Some(id))) => (
                        LoginState::FetchingProfile { profile_id: id },
                        LoginAction::FetchProfile(profile_by_id_statement(), id),
                    ),
                    LoginEvent::ProfileLookedUp(Ok(None)) => {
                        let stmt = create_profile_statement(&profile);
                        (LoginState::CreatingProfile { profile }, LoginAction::CreateProfile(stmt))
                    },
                    LoginEvent::ProfileLookedUp(Err(_)) => (
                        LoginState::Done,
                        LoginAction::Respond(
                            Reply::InternalServerError(String::from_str("Database query failed")),
                        ),
                    ),
                    _ => unreached(),
                }
            },
            LoginState::FetchingProfile { profile_id } => {
                match e {
                    LoginEvent::ProfileFetched(Ok(Some(first_name))) => (
                        LoginState::Signing {
                            user_id: profile_id,
                            username: first_name,
                            created: false,
                        },
                        LoginAction::SignToken(profile_id),
                    ),
                    LoginEvent::ProfileFetched(Ok(None)) => (
                        LoginState::Done,
                        LoginAction::Respond(
                            Reply::NotFound(String::from_str("Profile not found")),
                        ),
                    ),
                    LoginEvent::ProfileFetched(Err(_)) => (
                        LoginState::Done,
                        LoginAction::Respond(
                            Reply::InternalServerError(
                                String::from_str("Failed to fetch profile data"),
                            ),
                        ),
                    ),
                    _ => unreached(),
                }
            },
            LoginState::CreatingProfile { profile } => {
                match e {
                    LoginEvent::ProfileCreated(Ok(id)) => (
                        LoginState::Signing {
                            user_id: id,
                            username: profile.first_name,
                            created: true,
                        },
                        LoginAction::SignToken(id),
                    ),
                    LoginEvent::ProfileCreated(Err(_)) => (
                        LoginState::Done,
                        LoginAction::Respond(
                            Reply::InternalServerError(String::from_str("Failed to create profile")),
                        ),
                    ),
                    _ => unreached(),
                }
            },
            LoginState::Signing { user_id, username, created } => {
                match e {
                    LoginEvent::TokenSigned(Ok(token)) => (
                        LoginState::Done,
                        LoginAction::Respond(
                            Reply::Success(LoginGrant { access_token: token, user_id, username }),
                        ),
                    ),
                    _ => {
                        let m = if created {
                            String::from_str("Invalid credentials")
                        } else {
                            String::from_str("Failed to generate token")
                        };
                        (LoginState::Done, LoginAction::Respond(Reply::Unauthorized(m)))
                    },
                }
            },
            LoginState::Done => unreached(),
        }
    }
}


/// How many steps a login has left at most.
pub open spec fn steps_left(s: LoginState) -> int {
    match s {
        LoginState::CheckingToken { .. } => 5,
        LoginState::FetchingUserInfo { .. } => 4,
        LoginState::LookingUp { .. } => 3,
        LoginState::FetchingProfile { .. } => 2,
        LoginState::CreatingProfile { .. } => 2,
        LoginState::Signing { .. } => 1,
        LoginState::Done => 0,
    }
}

/// A login is answered exactly once and within six actions: the first action answers
/// exactly when the login is over at once, every step brings the login nearer its end,
/// a step answers exactly when the login is then over, and an answered login expects no
/// further event.
pub proof fn lemma_login_answers_once(
    req: LoginRequest,
    s0: LoginState,
    a0: LoginAction,
    s: LoginState,
    e: LoginEvent,
    n: LoginState,
    a: LoginAction,
)
    requires
        login_start_spec(req, s0, a0),
        login_step_spec(s, e, n, a),
    ensures
        (s0 is Done) == (a0 is Respond),
        steps_left(s0) <= 5,
        steps_left(n) < steps_left(s),
        (n is Done) == (a is Respond),
        !expects(LoginState::Done, e),
{
}

/// A token is signed only for the id the database gave: the id of the stored profile
/// with the user's email, or the id of the profile just stored.
pub proof fn lemma_login_signs_database_id(s: LoginState, e: LoginEvent, n: LoginState, id: i32)
    requires
        login_step_spec(s, e, n, LoginAction::SignToken(id)),
    ensures
        ({
            ||| (s matches LoginState::FetchingProfile { profile_id } && profile_id == id
                && e is ProfileFetched && e->ProfileFetched_0 matches Ok(Some(_)))
            ||| (s is CreatingProfile && e == LoginEvent::ProfileCreated(Ok::<i32, ()>(id)))
        }),
{
}

/// A login grants access only with the token just signed, for the user it was signed for.
pub proof fn lemma_login_grant_carries_signed_token(
    s: LoginState,
    e: LoginEvent,
    n: LoginState,
    g: LoginGrant,
)
    requires
        login_step_spec(s, e, n, LoginAction::Respond(Reply::Success(g))),
    ensures
        s matches LoginState::Signing { user_id, username, .. } && g.user_id == user_id
            && g.username@ == username@,
        e matches LoginEvent::TokenSigned(signed) && signed matches Ok(t) && g.access_token@
            == t@,
{
}

/// The statement that stores a new user holds the profile made from the provider's
/// details: over two steps, the details handed back become the looked-up profile, and
/// when no profile has its email, the insert carries that profile's values.
pub proof fn lemma_login_stores_provider_profile(
    s0: LoginState,
    info: UserInfo,
    now: Timestamp,
    s1: LoginState,
    a1: LoginAction,
    s2: LoginState,
    stmt: String,
)
    requires
        s0 matches LoginState::FetchingUserInfo { .. },
        login_step_spec(s0, LoginEvent::UserInfoFetched(Ok(info), now), s1, a1),
        login_step_spec(
            s1,
            LoginEvent::ProfileLookedUp(Ok(None)),
            s2,
            LoginAction::CreateProfile(stmt),
        ),
    ensures
        s1 matches LoginState::LookingUp { profile } && is_user_info_profile(
            s0->FetchingUserInfo_provider,
            info,
            s0->FetchingUserInfo_lat@,
            s0->FetchingUserInfo_lon@,
            now,
            profile,
        ) && stmt@ == "INSERT INTO "@ + "profile"@ + " ("@ + PROFILE_COLUMNS@ + ") VALUES ("@
            + quoted_join(profile_fields(profile)) + ") RETURNING "@ + "profile_id"@,
{
}

/// A profile is stored only when the database holds none with the user's email.
pub proof fn lemma_login_stores_only_unknown_email(
    s: LoginState,
    e: LoginEvent,
    n: LoginState,
    stmt: String,
)
    requires
        login_step_spec(s, e, n, LoginAction::CreateProfile(stmt)),
    ensures
        s is LookingUp,
        e == LoginEvent::ProfileLookedUp(Ok::<Option<i32>, ()>(None)),
{
}


/// A login first has its access token checked by the provider it names: a Facebook
/// token at `https://graph.facebook.com/me?access_token=<token>&fields=id,name,email`, a
/// Google token at `https://www.googleapis.com/oauth2/v3/tokeninfo?access_token=<token>`,
/// and the login remembers that provider, its token and its location. Any other provider
/// name is answered 400 `Error verifying token: Unsupported provider` at once.
pub proof fn lemma_login_checks_token_with_named_provider(
    req: LoginRequest,
    s: LoginState,
    a: LoginAction,
)
    requires
        login_start_spec(req, s, a),
    ensures
        req.provider@ == "facebook"@ ==> {
            &&& s matches LoginState::CheckingToken { provider, access_token, lat, lon }
                && provider == Provider::Facebook && access_token@ == req.access_token@ && lat@
                == req.lat@ && lon@ == req.lon@
            &&& a matches LoginAction::CheckToken(url) && url@
                == "https://graph.facebook.com/me?access_token="@ + req.access_token@
                + "&fields=id,name,email"@
        },
        req.provider@ == "google"@ ==> {
            &&& s matches LoginState::CheckingToken { provider, access_token, lat, lon }
                && provider == Provider::Google && access_token@ == req.access_token@ && lat@
                == req.lat@ && lon@ == req.lon@
            &&& a matches LoginAction::CheckToken(url) && url@
                == "https://www.googleapis.com/oauth2/v3/tokeninfo?access_token="@
                + req.access_token@
        },
        req.provider@ != "facebook"@ && req.provider@ != "google"@ ==> {
            &&& s is Done
            &&& a matches LoginAction::Respond(Reply::BadRequest(m)) && m@
                == "Error verifying token: "@ + "Unsupported provider"@
        },
{
    lemma_provider_addresses(req.provider@, req.access_token@);
}

/// Once the provider has accepted the token, the user's details are read from that same
/// provider, at its address and under its keys: Facebook's
/// `https://graph.facebook.com/me?access_token=<token>&fields=id,name,email` with
/// `first_name`, `last_name`, `email`, `imageURL`; Google's
/// `https://www.googleapis.com/oauth2/v3/userinfo?access_token=<token>` with `given_name`,
/// `family_name`, `email`, `picture`.
pub proof fn lemma_login_reads_details_from_named_provider(
    s: LoginState,
    sub: String,
    n: LoginState,
    a: LoginAction,
)
    requires
        s is CheckingToken,
        login_step_spec(s, LoginEvent::TokenChecked(Ok(sub)), n, a),
    ensures
        n matches LoginState::FetchingUserInfo { provider, lat, lon } && provider
            == s->CheckingToken_provider && lat@ == s->CheckingToken_lat@ && lon@
            == s->CheckingToken_lon@,
        s->CheckingToken_provider == Provider::Facebook ==> (a matches LoginAction::FetchUserInfo(
            url,
            keys,
        ) && url@ == "https://graph.facebook.com/me?access_token="@
            + s->CheckingToken_access_token@ + "&fields=id,name,email"@ && keys.first_name@
            == "first_name"@ && keys.last_name@ == "last_name"@ && keys.email@ == "email"@
            && keys.photo@ == "imageURL"@),
        s->CheckingToken_provider == Provider::Google ==> (a matches LoginAction::FetchUserInfo(
            url,
            keys,
        ) && url@ == "https://www.googleapis.com/oauth2/v3/userinfo?access_token="@
            + s->CheckingToken_access_token@ && keys.first_name@ == "given_name"@
            && keys.last_name@ == "family_name"@ && keys.email@ == "email"@ && keys.photo@
            == "picture"@),
{
    lemma_provider_addresses(Seq::empty(), s->CheckingToken_access_token@);
}

/// With the user's details in hand, the login looks up the provider's email (empty when
/// the provider gave none) among the stored profiles, with
/// `SELECT profile_id FROM profile WHERE email = $1 LIMIT 1`, and holds a profile whose
/// names and email are the provider's.
pub proof fn lemma_login_looks_up_provider_email(
    s: LoginState,
    info: UserInfo,
    now: Timestamp,
    n: LoginState,
    a: LoginAction,
)
    requires
        s is FetchingUserInfo,
        login_step_spec(s, LoginEvent::UserInfoFetched(Ok(info), now), n, a),
    ensures
        a matches LoginAction::LookUpProfile(stmt, email) && stmt@ == "SELECT "@ + "profile_id"@
            + " FROM "@ + "profile"@ + " WHERE "@ + "email"@ + " = $1 LIMIT 1"@ && (match info.email {
            Some(t) => email@ == t@,
            None => email@.len() == 0,
        }),
        n matches LoginState::LookingUp { profile } && (match info.first_name {
            Some(t) => profile.first_name@ == t@,
            None => profile.first_name@.len() == 0,
        }) && (match info.last_name {
            Some(t) => profile.last_name@ == t@,
            None => profile.last_name@.len() == 0,
        }),
{
    lemma_user_info_profile_carries_details(
        s->FetchingUserInfo_provider,
        info,
        s->FetchingUserInfo_lat@,
        s->FetchingUserInfo_lon@,
        now,
        n->LookingUp_profile,
    );
}


/// How each failure of a login is answered: a refused access token 400 `Error verifying
/// token: <error>`, unreadable details 400 `Error to get user info: <error>`, a failed
/// look-up 500 `Database query failed`, a vanished profile 404 `Profile not found`, a failed
/// read 500 `Failed to fetch profile data`, a failed insert 500 `Failed to create profile`,
/// and a failed signature 401 `Failed to generate token` for a known user or `Invalid
/// credentials` for a new one.
pub proof fn lemma_login_failure_answers(s: LoginState, e: LoginEvent, n: LoginState, a: LoginAction)
    requires
        login_step_spec(s, e, n, a),
    ensures
        e matches LoginEvent::TokenChecked(Err(err)) ==> (a matches LoginAction::Respond(
            Reply::BadRequest(m),
        ) && m@ == "Error verifying token: "@ + err@),
        e matches LoginEvent::UserInfoFetched(Err(err), _) ==> (a matches LoginAction::Respond(
            Reply::BadRequest(m),
        ) && m@ == "Error to get user info: "@ + err@),
        e matches LoginEvent::ProfileLookedUp(Err(_)) ==> (a matches LoginAction::Respond(
            Reply::InternalServerError(m),
        ) && m@ == "Database query failed"@),
        e matches LoginEvent::ProfileFetched(Ok(None)) ==> (a matches LoginAction::Respond(
            Reply::NotFound(m),
        ) && m@ == "Profile not found"@),
        e matches LoginEvent::ProfileFetched(Err(_)) ==> (a matches LoginAction::Respond(
            Reply::InternalServerError(m),
        ) && m@ == "Failed to fetch profile data"@),
        e matches LoginEvent::ProfileCreated(Err(_)) ==> (a matches LoginAction::Respond(
            Reply::InternalServerError(m),
        ) && m@ == "Failed to create profile"@),
        (e matches LoginEvent::TokenSigned(Err(_)) && s matches LoginState::Signing { created, .. }
            && !created) ==> (a matches LoginAction::Respond(Reply::Unauthorized(m)) && m@
            == "Failed to generate token"@),
        (e matches LoginEvent::TokenSigned(Err(_)) && s matches LoginState::Signing { created, .. }
            && created) ==> (a matches LoginAction::Respond(Reply::Unauthorized(m)) && m@
            == "Invalid credentials"@),
{
}

/// A known user's profile is read by its id with `SELECT * FROM profile WHERE
/// profile_id = $1`, and the token is granted under the stored first name; a new user's
/// token is granted under the first name the provider gave.
pub proof fn lemma_login_grant_names(s: LoginState, e: LoginEvent, n: LoginState, a: LoginAction)
    requires
        login_step_spec(s, e, n, a),
    ensures
        e matches LoginEvent::ProfileLookedUp(Ok(Some(id))) ==> (s is LookingUp ==> (a matches LoginAction::FetchProfile(
            stmt,
            fid,
        ) && fid == id && stmt@ == "SELECT * FROM "@ + "profile"@ + " WHERE "@ + "profile_id"@
            + " = $1"@)),
        e matches LoginEvent::ProfileFetched(Ok(Some(name))) ==> (s is FetchingProfile ==> (n matches LoginState::Signing {
            username,
            created,
            ..
        } && username@ == name@ && !created)),
        s matches LoginState::CreatingProfile { profile } ==> ((e is ProfileCreated
            && e->ProfileCreated_0 is Ok) ==> (n matches LoginState::Signing {
            username,
            created,
            ..
        } && username@ == profile.first_name@ && created)),
{
}

} // verus!
