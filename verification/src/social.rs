//! Sign-in through Google and Facebook: where the server checks an access token,
//! where it reads the user's details, and the profile it makes of them.

use vstd::prelude::*;
use vstd::string::*;

use crate::models::Profile;
use crate::sql::text_or_empty;
use crate::text::{before_first, lemma_before_first, text_before_first, text_eq};
use crate::timestamp::Timestamp;

verus! {

/// The identity providers that the server accepts.
#[derive(Clone, Copy, Debug, PartialEq, Eq, Structural)]
pub enum Provider {
    Google,
    Facebook,
}

/// The provider that a login names: `google` or `facebook`, nothing else.
pub open spec fn provider_named(name: Seq<char>) -> Option<Provider> {
    if name == "google"@ {
        Some(Provider::Google)
    } else if name == "facebook"@ {
        Some(Provider::Facebook)
    } else {
        None
    }
}

impl Provider {
    /// The provider that a login names, `None` for any other name.
    pub fn from_name(name: &str) -> (p: Option<Provider>)
        ensures
            p == provider_named(name@),
    {
        if text_eq(name, "google") {
            Some(Provider::Google)
        } else if text_eq(name, "facebook") {
            Some(Provider::Facebook)
        } else {
            None
        }
    }
}

/// What the server reports for a provider it does not know.
pub const UNSUPPORTED_PROVIDER: &'static str = "Unsupported provider";

/// The address where the provider checks an access token.
pub open spec fn token_check_url_text(p: Provider, access_token: Seq<char>) -> Seq<char> {
    match p {
        Provider::Google => "https://www.googleapis.com/oauth2/v3/tokeninfo?access_token="@
            + access_token,
        Provider::Facebook => "https://graph.facebook.com/me?access_token="@ + access_token
            + "&fields=id,name,email"@,
    }
}

/// The address where the provider checks an access token.
pub fn token_check_url(p: Provider, access_token: &str) -> (url: String)
    ensures
        url@ == token_check_url_text(p, access_token@),
{
    match p {
        Provider::Google => {
            let mut url = String::from_str(
                "https://www.googleapis.com/oauth2/v3/tokeninfo?access_token=",
            );
            url.append(access_token);
            url
        },
        Provider::Facebook => {
            let mut url = String::from_str("https://graph.facebook.com/me?access_token=");
            url.append(access_token);
            url.append("&fields=id,name,email");
            url
        },
    }
}

/// The address where the provider gives the user's details.
pub open spec fn user_info_url_text(p: Provider, access_token: Seq<char>) -> Seq<char> {
    match p {
        Provider::Google => "https://www.googleapis.com/oauth2/v3/userinfo?access_token="@
            + access_token,
        Provider::Facebook => "https://graph.facebook.com/me?access_token="@ + access_token
            + "&fields=id,name,email"@,
    }
}

/// The address where the provider gives the user's details.
pub fn user_info_url(p: Provider, access_token: &str) -> (url: String)
    ensures
        url@ == user_info_url_text(p, access_token@),
{
    match p {
        Provider::Google => {
            let mut url = String::from_str(
                "https://www.googleapis.com/oauth2/v3/userinfo?access_token=",
            );
            url.append(access_token);
            url
        },
        Provider::Facebook => {
            let mut url = String::from_str("https://graph.facebook.com/me?access_token=");
            url.append(access_token);
            url.append("&fields=id,name,email");
            url
        },
    }
}

/// The JSON key of the user's id in a provider's answer to a token check.
pub const TOKEN_SUBJECT_KEY: &'static str = "sub";

/// The user id of a token check: the string at `sub`, empty when there is none.
pub fn token_subject(sub: Option<String>) -> (id: String)
    ensures
        id@ == text_or_empty(sub),
{
    match sub {
        Some(s) => s,
        None => String::new(),
    }
}

/// The JSON keys of the user's details in a provider's answer.
#[derive(Clone, Copy, Debug)]
pub struct UserInfoKeys {
    pub first_name: &'static str,
    pub last_name: &'static str,
    pub email: &'static str,
    pub photo: &'static str,
}

/// The keys that each provider uses: Google's `given_name`, `family_name`, `email` and
/// `picture`; Facebook's `first_name`, `last_name`, `email` and `imageURL`.
pub open spec fn has_user_info_keys(p: Provider, k: UserInfoKeys) -> bool {
    match p {
        Provider::Google => {
            &&& k.first_name@ == "given_name"@
            &&& k.last_name@ == "family_name"@
            &&& k.email@ == "email"@
            &&& k.photo@ == "picture"@
        },
        Provider::Facebook => {
            &&& k.first_name@ == "first_name"@
            &&& k.last_name@ == "last_name"@
            &&& k.email@ == "email"@
            &&& k.photo@ == "imageURL"@
        },
    }
}

/// The keys of the user's details in the provider's answer.
pub fn user_info_keys(p: Provider) -> (k: UserInfoKeys)
    ensures
        has_user_info_keys(p, k),
{
    match p {
        Provider::Google => UserInfoKeys {
            first_name: "given_name",
            last_name: "family_name",
            email: "email",
            photo: "picture",
        },
        Provider::Facebook => UserInfoKeys {
            first_name: "first_name",
            last_name: "last_name",
            email: "email",
            photo: "imageURL",
        },
    }
}

/// The strings found at the keys of `UserInfoKeys` in the provider's answer; `None`
/// where the key is missing or holds no string.
pub struct UserInfo {
    pub first_name: Option<String>,
    pub last_name: Option<String>,
    pub email: Option<String>,
    pub photo: Option<String>,
}

/// A profile picture address without its parameters: the text before the first `=`.
pub fn clean_profile_picture_url(url: &str) -> (clean: String)
    ensures
        clean@ == before_first(url@, '='),
{
    text_before_first(url, '=')
}

/// A cleaned picture address holds no `=`, is the start of the address, and is the whole
/// address when that holds no `=`; cleaning twice is cleaning once.
pub proof fn lemma_clean_picture_url(url: Seq<char>)
    ensures
        !before_first(url, '=').contains('='),
        before_first(url, '=') == url.take(before_first(url, '=').len() as int),
        !url.contains('=') ==> before_first(url, '=') == url,
        before_first(before_first(url, '='), '=') == before_first(url, '='),
{
    lemma_before_first(url, '=');
    let c = before_first(url, '=');
    if !url.contains('=') {
        if c.len() < url.len() {
            assert(url[c.len() as int] == '=');
        }
        assert(c =~= url);
    }
    lemma_before_first(c, '=');
    let cc = before_first(c, '=');
    if cc.len() < c.len() {
        assert(c[cc.len() as int] == '=');
    }
    assert(cc =~= c);
}

/// Whether `p` is the profile that the server makes for a new user from the provider's
/// details: the names and email found (empty when missing), no password or phone, gender
/// and emergency contact -1, active and not verified, document and comments -1, empty about,
/// born and joined `now`, score 0, at (`lat`, `lon`). Google's picture address is kept
/// without its parameters (empty when missing); Facebook's is kept as found.
pub open spec fn is_user_info_profile(
    provider: Provider,
    info: UserInfo,
    lat: Seq<char>,
    lon: Seq<char>,
    now: Timestamp,
    p: Profile,
) -> bool {
    &&& p.profile_id == 0
    &&& p.first_name@ == text_or_empty(info.first_name)
    &&& p.last_name@ == text_or_empty(info.last_name)
    &&& p.pwd@ == Seq::<char>::empty()
    &&& p.gender == -1
    &&& p.phone_number@ == Seq::<char>::empty()
    &&& p.email@ == text_or_empty(info.email)
    &&& p.date_of_birth == now
    &&& match provider {
        Provider::Google => p.photo_url matches Some(u) && u@ == before_first(
            text_or_empty(info.photo),
            '=',
        ),
        Provider::Facebook => p.photo_url == info.photo,
    }
    &&& p.emergency_contact == -1
    &&& p.is_active
    &&& !p.is_verified
    &&& p.verified_doc_id == Some(-1i16)
    &&& p.about matches Some(a) && a@ == Seq::<char>::empty()
    &&& p.date_joined == now
    &&& p.score == 0
    &&& p.lat@ == lat
    &&& p.lon@ == lon
    &&& p.comments_id == Some(-1i32)
}

fn or_empty(o: Option<String>) -> (s: String)
    ensures
        s@ == text_or_empty(o),
{
    match o {
        Some(s) => s,
        None => String::new(),
    }
}

/// The profile that the server makes for a new user from the provider's details.
pub fn profile_from_user_info(
    provider: Provider,
    info: UserInfo,
    lat: String,
    lon: String,
    now: Timestamp,
) -> (p: Profile)
    ensures
        is_user_info_profile(provider, info, lat@, lon@, now, p),
{
    let photo_url = match provider {
        Provider::Google => {
            let picture = or_empty(info.photo);
            Some(clean_profile_picture_url(picture.as_str()))
        },
        Provider::Facebook => info.photo,
    };
    Profile {
        profile_id: 0,
        first_name: or_empty(info.first_name),
        last_name: or_empty(info.last_name),
        pwd: String::new(),
        gender: -1,
        phone_number: String::new(),
        email: or_empty(info.email),
        date_of_birth: now,
        photo_url,
        emergency_contact: -1,
        is_active: true,
        is_verified: false,
        verified_doc_id: Some(-1),
        about: Some(String::new()),
        date_joined: now,
        score: 0,
        lat,
        lon,
        comments_id: Some(-1),
    }
}


/// A new user's profile carries what the provider gave: each of first name, last name
/// and email is the provider's string, and empty only when the provider gave none. The
/// photo address is Facebook's `imageURL` as found; for Google it is the start of the
/// `picture` string up to (not including) its first `=`, the whole string when it holds
/// none. Nothing else comes from the provider: the profile has id 0, no password or phone,
/// gender and emergency contact -1, is active and unverified, has document and comments
/// -1, an empty about, score 0, was born and joined `now`, and lies at (`lat`, `lon`).
pub proof fn lemma_user_info_profile_carries_details(
    provider: Provider,
    info: UserInfo,
    lat: Seq<char>,
    lon: Seq<char>,
    now: Timestamp,
    p: Profile,
)
    requires
        is_user_info_profile(provider, info, lat, lon, now, p),
    ensures
        info.first_name matches Some(t) ==> p.first_name@ == t@,
        info.first_name is None ==> p.first_name@.len() == 0,
        info.last_name matches Some(t) ==> p.last_name@ == t@,
        info.last_name is None ==> p.last_name@.len() == 0,
        info.email matches Some(t) ==> p.email@ == t@,
        info.email is None ==> p.email@.len() == 0,
        provider == Provider::Facebook ==> p.photo_url == info.photo,
        provider == Provider::Google ==> (p.photo_url matches Some(u) && {
            let picture = match info.photo {
                Some(t) => t@,
                None => Seq::<char>::empty(),
            };
            &&& u@ == picture.take(u@.len() as int)
            &&& u@.len() <= picture.len()
            &&& !u@.contains('=')
            &&& (u@.len() == picture.len() || picture[u@.len() as int] == '=')
        }),
        p.profile_id == 0,
        p.pwd@.len() == 0,
        p.phone_number@.len() == 0,
        p.gender == -1,
        p.emergency_contact == -1,
        p.is_active,
        !p.is_verified,
        p.verified_doc_id == Some(-1i16),
        p.about matches Some(a) && a@.len() == 0,
        p.score == 0,
        p.comments_id == Some(-1i32),
        p.date_of_birth == now,
        p.date_joined == now,
        p.lat@ == lat,
        p.lon@ == lon,
{
    if provider == Provider::Google {
        lemma_before_first(text_or_empty(info.photo), '=');
    }
}

/// Each provider is reached at its own addresses: Google checks tokens at
/// `https://www.googleapis.com/oauth2/v3/tokeninfo?access_token=<token>` and gives the
/// user's details at `.../userinfo?access_token=<token>`; Facebook does both at
/// `https://graph.facebook.com/me?access_token=<token>&fields=id,name,email`. The names
/// `google` and `facebook` select them; any other name selects none.
pub proof fn lemma_provider_addresses(name: Seq<char>, token: Seq<char>)
    ensures
        name == "google"@ ==> provider_named(name) == Some(Provider::Google),
        name == "facebook"@ ==> provider_named(name) == Some(Provider::Facebook),
        name != "google"@ && name != "facebook"@ ==> provider_named(name) is None,
        token_check_url_text(Provider::Google, token)
            == "https://www.googleapis.com/oauth2/v3/tokeninfo?access_token="@ + token,
        user_info_url_text(Provider::Google, token)
            == "https://www.googleapis.com/oauth2/v3/userinfo?access_token="@ + token,
        token_check_url_text(Provider::Facebook, token) == "https://graph.facebook.com/me?access_token="@
            + token + "&fields=id,name,email"@,
        user_info_url_text(Provider::Facebook, token) == "https://graph.facebook.com/me?access_token="@
            + token + "&fields=id,name,email"@,
{
    reveal_strlit("google");
    reveal_strlit("facebook");
    assert("facebook"@[0] != "google"@[0]);
}

/// The keys at which each provider's answer holds the user's details: Google's
/// `given_name`, `family_name`, `email`, `picture`; Facebook's `first_name`, `last_name`,
/// `email`, `imageURL`.
pub proof fn lemma_provider_keys(k: UserInfoKeys)
    ensures
        has_user_info_keys(Provider::Google, k) ==> k.first_name@ == "given_name"@
            && k.last_name@ == "family_name"@ && k.email@ == "email"@ && k.photo@ == "picture"@,
        has_user_info_keys(Provider::Facebook, k) ==> k.first_name@ == "first_name"@
            && k.last_name@ == "last_name"@ && k.email@ == "email"@ && k.photo@ == "imageURL"@,
{
}

} // verus!
