//! Bearer-token authentication: reading the `Authorization` header, the claims of the
//! server's tokens, and what the guard of the protected routes lets through.

use std::rc::Rc;

use vstd::prelude::*;
use vstd::string::*;
use vstd::utf8::{encode_utf8, encode_utf8_decode_utf8, encode_utf8_valid_utf8, is_ascii_chars, is_ascii_chars_encode_utf8, valid_utf8};

use crate::routes::Reply;

verus! {

/// The key that signs and checks the server's tokens.
pub const SECRET: &'static str = "thisisnojoke";

/// How long a token stays valid: 30 days, in seconds.
pub const TOKEN_LIFETIME_SECS: u64 = 2592000u64;

/// The claims that the server's tokens carry.
#[derive(Clone, Copy, Debug)]
pub struct Claims {
    pub user_id: i64,
    /// Expiry, in seconds after the Unix epoch.
    pub exp: u64,
}

impl Claims {
    /// The claims of a token issued to `user_id` at `now` (seconds after the epoch):
    /// it expires `TOKEN_LIFETIME_SECS` later.
    pub fn for_user(user_id: i64, now: u64) -> (c: Claims)
        requires
            now + TOKEN_LIFETIME_SECS <= u64::MAX,
        ensures
            c.user_id == user_id,
            c.exp == now + TOKEN_LIFETIME_SECS,
    {
        Claims { user_id, exp: now + TOKEN_LIFETIME_SECS }
    }
}

/// Whether a header byte is one that `HeaderValue::to_str` accepts: a visible ASCII
/// character, a space or a tab.
pub open spec fn visible_ascii(b: u8) -> bool {
    (32 <= b && b < 127) || b == 9
}

/// The bytes of `Bearer ` (with its space).
pub open spec fn bearer_prefix() -> Seq<u8> {
    seq![66u8, 101u8, 97u8, 114u8, 101u8, 114u8, 32u8]
}

/// ASCII bytes read as characters.
pub open spec fn ascii_chars(bytes: Seq<u8>) -> Seq<char> {
    Seq::new(bytes.len(), |i: int| bytes[i] as char)
}

/// Why a request carries no usable token.
#[derive(Clone, Copy, Debug, PartialEq, Eq, Structural)]
pub enum AuthError {
    /// No `Authorization` header.
    MissingHeader,
    /// The header holds a byte that is not visible ASCII.
    InvalidHeader,
    /// The header does not start with `Bearer `.
    InvalidTokenFormat,
    /// The token does not decode, with the server's key, into claims that are still valid.
    InvalidToken,
}

/// The text of an `AuthError`, as the server reports it.
pub open spec fn auth_error_text(e: AuthError) -> Seq<char> {
    match e {
        AuthError::MissingHeader => "Missing Authorization header"@,
        AuthError::InvalidHeader => "Invalid Authorization header"@,
        AuthError::InvalidTokenFormat => "Invalid token format"@,
        AuthError::InvalidToken => "Invalid token"@,
    }
}

impl AuthError {
    /// The text of this error, as the server reports it.
    pub fn message(&self) -> (s: &'static str)
        ensures
            s@ == auth_error_text(*self),
    {
        match self {
            AuthError::MissingHeader => "Missing Authorization header",
            AuthError::InvalidHeader => "Invalid Authorization header",
            AuthError::InvalidTokenFormat => "Invalid token format",
            AuthError::InvalidToken => "Invalid token",
        }
    }
}

/// The bytes of an optional header.
pub open spec fn header_bytes(header: Option<&[u8]>) -> Option<Seq<u8>> {
    match header {
        Some(b) => Some(b@),
        None => None,
    }
}

/// The token of an `Authorization` header: the text after `Bearer `, when every byte of
/// the header is visible ASCII and it starts with `Bearer `.
pub open spec fn extracted_token(header: Option<Seq<u8>>) -> Result<Seq<char>, AuthError> {
    match header {
        None => Err(AuthError::MissingHeader),
        Some(b) => if !(forall|i: int| 0 <= i < b.len() ==> visible_ascii(#[trigger] b[i])) {
            Err(AuthError::InvalidHeader)
        } else if b.len() >= 7 && b.take(7) == bearer_prefix() {
            Ok(ascii_chars(b.skip(7)))
        } else {
            Err(AuthError::InvalidTokenFormat)
        },
    }
}

/// Calls `std::str::from_utf8`. Its documentation says that it fails only on bytes that
/// are not valid UTF-8 and that the string it returns is those bytes; the contract claims
/// no more.
#[verifier::external_body]
fn utf8_text(bytes: &[u8]) -> (r: Option<&str>)
    ensures
        valid_utf8(bytes@) ==> r is Some,
        r matches Some(s) ==> s.spec_bytes() == bytes@,
{
    match std::str::from_utf8(bytes) {
        Ok(s) => Some(s),
        Err(_) => None,
    }
}

/// ASCII bytes are the UTF-8 encoding of the characters they name.
proof fn lemma_ascii_bytes_encode(bytes: Seq<u8>)
    requires
        forall|i: int| 0 <= i < bytes.len() ==> #[trigger] bytes[i] < 128,
    ensures
        is_ascii_chars(ascii_chars(bytes)),
        encode_utf8(ascii_chars(bytes)) == bytes,
        valid_utf8(bytes),
{
    let c = ascii_chars(bytes);
    assert forall|i: int| 0 <= i < c.len() implies '\0' <= #[trigger] c[i] <= '\u{7f}' by {
        let b = bytes[i];
        assert(b < 128);
        assert((b as char) as u32 == b as u32);
    }
    is_ascii_chars_encode_utf8(c);
    assert forall|i: int| 0 <= i < bytes.len() implies #[trigger] encode_utf8(c)[i] == bytes[i] by {
        let b = bytes[i];
        assert(c[i] == b as char);
        assert((b as char) as u8 == b);
    }
    assert(encode_utf8(c) =~= bytes);
    encode_utf8_valid_utf8(c);
}

/// The token of an `Authorization` header: missing header, bytes that are not visible
/// ASCII and a header that does not start with `Bearer ` each have their error.
pub fn extract_token(header: Option<&[u8]>) -> (r: Result<String, AuthError>)
    ensures
        match r {
            Ok(t) => extracted_token(header_bytes(header)) == Ok::<Seq<char>, AuthError>(t@),
            Err(e) => extracted_token(header_bytes(header)) == Err::<Seq<char>, AuthError>(e),
        },
{
    let b = match header {
        None => {
            return Err(AuthError::MissingHeader);
        },
        Some(b) => b,
    };
    let n = b.len();
    let mut i: usize = 0;
    while i < n
        invariant
            n == b@.len(),
            header_bytes(header) == Some(b@),
            i <= n,
            forall|k: int| 0 <= k < i ==> visible_ascii(#[trigger] b@[k]),
        decreases n - i,
    {
        let x = b[i];
        if !((32 <= x && x < 127) || x == 9) {
            assert(!visible_ascii(b@[i as int]));
            assert(!(forall|k: int| 0 <= k < b@.len() ==> visible_ascii(#[trigger] b@[k])));
            return Err(AuthError::InvalidHeader);
        }
        i = i + 1;
    }
    if n < 7 || b[0] != 66 || b[1] != 101 || b[2] != 97 || b[3] != 114 || b[4] != 101 || b[5]
        != 114 || b[6] != 32 {
        proof {
            if n >= 7 && b@.take(7) == bearer_prefix() {
                assert(b@.take(7)[0] == b@[0]);
                assert(b@.take(7)[1] == b@[1]);
                assert(b@.take(7)[2] == b@[2]);
                assert(b@.take(7)[3] == b@[3]);
                assert(b@.take(7)[4] == b@[4]);
                assert(b@.take(7)[5] == b@[5]);
                assert(b@.take(7)[6] == b@[6]);
            }
        }
        return Err(AuthError::InvalidTokenFormat);
    }
    assert(b@.take(7) =~= bearer_prefix());
    proof {
        assert forall|k: int| 0 <= k < b@.len() implies #[trigger] b@[k] < 128 by {
            assert(visible_ascii(b@[k]));
        }
        lemma_ascii_bytes_encode(b@);
    }
    let text = match utf8_text(b) {
        Some(s) => s,
        None => {
            return Err(AuthError::InvalidHeader);
        },
    };
    proof {
        encode_utf8_decode_utf8(text@);
        encode_utf8_decode_utf8(ascii_chars(b@));
        assert(text@ == ascii_chars(b@));
    }
    let token = text.substring_char(7, n);
    assert(token@ =~= ascii_chars(b@.skip(7)));
    Ok(token.to_owned())
}

/// A header of `Bearer ` and a token of visible ASCII characters yields that token:
/// the format that the server's clients send is the format it reads.
pub proof fn lemma_bearer_header_round_trip(token: Seq<u8>)
    requires
        forall|i: int| 0 <= i < token.len() ==> visible_ascii(#[trigger] token[i]),
    ensures
        extracted_token(Some(bearer_prefix() + token)) == Ok::<Seq<char>, AuthError>(
            ascii_chars(token),
        ),
{
    let b = bearer_prefix() + token;
    assert forall|i: int| 0 <= i < b.len() implies visible_ascii(#[trigger] b[i]) by {
        if i >= 7 {
            assert(b[i] == token[i - 7]);
        }
    }
    assert(b.take(7) =~= bearer_prefix());
    assert(b.skip(7) =~= token);
}

/// The first step of a token check.
pub enum TokenCheck {
    /// Decode this token with the server's key (expiry checked), then call `check_decoded`.
    Decode(String),
    /// The check is over: the request has no usable token.
    Refused(AuthError),
}

/// Reads the request's `Authorization` header: the token to decode, or why there is none.
pub fn check_start(header: Option<&[u8]>) -> (c: TokenCheck)
    ensures
        match c {
            TokenCheck::Decode(t) => extracted_token(header_bytes(header)) == Ok::<
                Seq<char>,
                AuthError,
            >(t@),
            TokenCheck::Refused(e) => extracted_token(header_bytes(header)) == Err::<
                Seq<char>,
                AuthError,
            >(e),
        },
{
    match extract_token(header) {
        Ok(t) => TokenCheck::Decode(t),
        Err(e) => TokenCheck::Refused(e),
    }
}

/// The outcome of a token check once the token was decoded: the user it was issued to,
/// or `InvalidToken` when it did not decode.
pub fn check_decoded(decoded: Result<Claims, ()>) -> (r: Result<i64, AuthError>)
    ensures
        decoded matches Ok(c) ==> r == Ok::<i64, AuthError>(c.user_id),
        decoded is Err ==> r == Err::<i64, AuthError>(AuthError::InvalidToken),
{
    match decoded {
        Ok(c) => Ok(c.user_id),
        Err(_) => Err(AuthError::InvalidToken),
    }
}

/// The answer to `GET /verify_token`: the user id the token was issued to, or a 401
/// that says why the token was refused.
pub fn verify_jwt_reply(outcome: Result<i64, AuthError>) -> (r: Reply<i64>)
    ensures
        outcome matches Ok(id) ==> r == Reply::<i64>::Success(id),
        outcome matches Err(e) ==> (r matches Reply::Unauthorized(m) && m@
            == "Error verifying token: "@ + auth_error_text(e)),
{
    match outcome {
        Ok(id) => Reply::Success(id),
        Err(e) => {
            let mut m = String::from_str("Error verifying token: ");
            m.append(e.message());
            Reply::Unauthorized(m)
        },
    }
}

/// What the guard of the protected routes does with a request.
pub enum Access {
    /// Pass the request on, with the id of the user its token was issued to.
    Forward(i64),
    /// Answer 401 with an empty body.
    Refuse,
}

/// The guard of the protected routes, configured with the key that checks tokens.
pub struct JwtMiddleware {
    secret: String,
}

impl JwtMiddleware {
    /// The key this guard checks tokens with.
    pub closed spec fn secret_text(self) -> Seq<char> {
        self.secret@
    }

    /// A guard that checks tokens with `secret`.
    pub fn new(secret: String) -> (m: Self)
        ensures
            m.secret_text() == secret@,
    {
        JwtMiddleware { secret }
    }

    /// The key this guard checks tokens with.
    pub fn secret(&self) -> (s: &str)
        ensures
            s@ == self.secret_text(),
    {
        self.secret.as_str()
    }

    /// The guard wrapped around `service`, checking tokens with this guard's key.
    pub fn new_transform<S>(&self, service: S) -> (svc: JwtMiddlewareService<S>)
        ensures
            svc.secret_text() == self.secret_text(),
            svc.inner() == service,
    {
        JwtMiddlewareService { service: Rc::new(service), secret: self.secret.clone() }
    }
}

/// The guard around one service.
pub struct JwtMiddlewareService<S> {
    service: Rc<S>,
    secret: String,
}

impl<S> JwtMiddlewareService<S> {
    /// The key this guard checks tokens with.
    pub closed spec fn secret_text(self) -> Seq<char> {
        self.secret@
    }

    /// The service behind the guard.
    pub closed spec fn inner(self) -> S {
        *self.service
    }

    /// The key this guard checks tokens with.
    pub fn secret(&self) -> (s: &str)
        ensures
            s@ == self.secret_text(),
    {
        self.secret.as_str()
    }

    /// The service behind the guard.
    pub fn service(&self) -> (s: &Rc<S>)
        ensures
            **s == self.inner(),
    {
        &self.service
    }

    /// What the guard does with a request once its token check is over: a request is
    /// passed on exactly when its token decoded, with the user id of the token.
    pub fn access(&self, outcome: Result<i64, AuthError>) -> (a: Access)
        ensures
            outcome matches Ok(id) ==> a == Access::Forward(id),
            outcome is Err ==> a == Access::Refuse,
    {
        match outcome {
            Ok(id) => Access::Forward(id),
            Err(_) => Access::Refuse,
        }
    }
}


/// The texts of the token errors: `Missing Authorization header`, `Invalid Authorization
/// header`, `Invalid token format`, `Invalid token`; and the prefix that a token follows
/// is the seven characters `Bearer ` (with its space).
pub proof fn lemma_auth_texts()
    ensures
        auth_error_text(AuthError::MissingHeader) == "Missing Authorization header"@,
        auth_error_text(AuthError::InvalidHeader) == "Invalid Authorization header"@,
        auth_error_text(AuthError::InvalidTokenFormat) == "Invalid token format"@,
        auth_error_text(AuthError::InvalidToken) == "Invalid token"@,
        ascii_chars(bearer_prefix()) == "Bearer "@,
{
    reveal_strlit("Bearer ");
    assert(ascii_chars(bearer_prefix()) =~= "Bearer "@);
}

/// Which headers are refused, and why: no header is a missing header; a header with a
/// byte other than a tab or a printable ASCII character (32 to 126) is an invalid header;
/// a header of such bytes that does not start with the characters `Bearer ` has an invalid
/// format. Every other header is accepted, and its token is the rest of the header.
pub proof fn lemma_header_refusals(b: Seq<u8>)
    ensures
        extracted_token(None) == Err::<Seq<char>, AuthError>(AuthError::MissingHeader),
        (exists|i: int| 0 <= i < b.len() && b[i] != 9 && !(32 <= b[i] <= 126))
            ==> extracted_token(Some(b)) == Err::<Seq<char>, AuthError>(AuthError::InvalidHeader),
        (forall|i: int| 0 <= i < b.len() ==> b[i] == 9 || 32 <= #[trigger] b[i] <= 126) ==> {
            if b.len() >= 7 && ascii_chars(b.take(7)) == "Bearer "@ {
                extracted_token(Some(b)) == Ok::<Seq<char>, AuthError>(ascii_chars(b.skip(7)))
                    && ascii_chars(b) == "Bearer "@ + ascii_chars(b.skip(7))
            } else {
                extracted_token(Some(b)) == Err::<Seq<char>, AuthError>(
                    AuthError::InvalidTokenFormat,
                )
            }
        },
{
    reveal_strlit("Bearer ");
    if exists|i: int| 0 <= i < b.len() && b[i] != 9 && !(32 <= b[i] <= 126) {
        let i = choose|i: int| 0 <= i < b.len() && b[i] != 9 && !(32 <= b[i] <= 126);
        assert(!visible_ascii(b[i]));
    }
    if forall|i: int| 0 <= i < b.len() ==> b[i] == 9 || 32 <= #[trigger] b[i] <= 126 {
        assert forall|i: int| 0 <= i < b.len() implies visible_ascii(#[trigger] b[i]) by {}
        if b.len() >= 7 {
            let t = b.take(7);
            if ascii_chars(t) == "Bearer "@ {
                assert forall|i: int| 0 <= i < 7 implies t[i] == bearer_prefix()[i] by {
                    assert(ascii_chars(t)[i] == "Bearer "@[i]);
                    assert((t[i] as char) as u8 == t[i]);
                }
                assert(t =~= bearer_prefix());
                assert(ascii_chars(b) =~= "Bearer "@ + ascii_chars(b.skip(7)));
            } else {
                if t == bearer_prefix() {
                    assert(ascii_chars(t) =~= "Bearer "@);
                }
            }
        }
    }
}

} // verus!
