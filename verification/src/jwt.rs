use jsonwebtoken::errors::ErrorKind;
use jsonwebtoken::{DecodingKey, EncodingKey, Header, Validation};
use serde_json::value::RawValue;
use vstd::prelude::*;
use vstd::string::StringExecFns;
use vstd::utf8::*;

use crate::error::Error;
use crate::text::{decimal, decimal_text, header_text, header_text_ok};

verus! {

/// How long a refresh token lives, in seconds (seven days).
pub const REFRESH_DURATION: u64 = 7 * 24 * 60 * 60;

/// How long an access token lives, in seconds (one hour).
pub const ACCESS_DURATION: u64 = 60 * 60;

/// How long a sign-up token lives, in seconds (five minutes).
pub const SIGN_UP_DURATION: u64 = 60 * 5;

/// The three HMAC secrets the server signs its tokens with.
pub struct Key {
    pub access: Vec<u8>,
    pub refresh: Vec<u8>,
    pub sign_up: Vec<u8>,
}

impl Key {
    pub fn new(access: Vec<u8>, refresh: Vec<u8>, sign_up: Vec<u8>) -> (k: Key)
        ensures
            k.access@ == access@,
            k.refresh@ == refresh@,
            k.sign_up@ == sign_up@,
    {
        Key { access, refresh, sign_up }
    }

    /// The secret of access tokens.
    pub fn access_key(&self) -> (r: &[u8])
        ensures
            r@ == self.access@,
    {
        self.access.as_slice()
    }

    /// The secret of refresh tokens.
    pub fn refresh_key(&self) -> (r: &[u8])
        ensures
            r@ == self.refresh@,
    {
        self.refresh.as_slice()
    }

    /// The secret of sign-up tokens.
    pub fn sign_up_key(&self) -> (r: &[u8])
        ensures
            r@ == self.sign_up@,
    {
        self.sign_up.as_slice()
    }
}

/// The claims a token carries: the payload and the expiry, in seconds since
/// the Unix epoch.
pub struct Claims<T> {
    pub payload: T,
    pub exp: usize,
}

/// Who a login or access token speaks for.
pub struct LoginPayload {
    pub email: String,
    pub username: String,
    pub role: i16,
}

/// The JSON text of claims whose payload serialises to `payload`: the
/// object `{"payload":<payload>,"exp":<exp>}`, written compactly.
pub open spec fn claims_text(payload: Seq<char>, exp: nat) -> Seq<char> {
    "{\"payload\":"@ + payload + ",\"exp\":"@ + decimal_text(exp) + "}"@
}

/// A text that begins with `{` and ends with `}`, so has no surrounding
/// whitespace.
pub open spec fn braced(s: Seq<char>) -> bool {
    s.len() >= 2 && s[0] == '{' && s[s.len() - 1] == '}'
}

impl Claims<String> {
    /// Writes the claims as JSON, the payload being JSON text already.
    pub fn to_json(&self) -> (s: String)
        ensures
            s@ == claims_text(self.payload@, self.exp as nat),
            braced(s@),
    {
        let mut s = String::from_str("{\"payload\":");
        s.append(self.payload.as_str());
        s.append(",\"exp\":");
        let exp = decimal(self.exp as u64);
        s.append(exp.as_str());
        s.append("}");
        proof {
            reveal_strlit("{\"payload\":");
            reveal_strlit("}");
            assert(s@ =~= claims_text(self.payload@, self.exp as nat));
        }
        s
    }
}

/// The token `jsonwebtoken::encode` makes from the default header (HS256)
/// and the JSON text `claims` under the HMAC secret `key`.
pub uninterp spec fn jwt_hs256(claims: Seq<char>, key: Seq<u8>) -> Seq<char>;

/// The claims text that `jsonwebtoken::decode` recovers from `token` once the
/// token's HS256 signature checks out under the secret `key`; `None` where it
/// does not.
pub uninterp spec fn jwt_signed_claims(token: Seq<char>, key: Seq<u8>) -> Option<Seq<char>>;

/// Whether `serde_json::value::RawValue::from_string` accepts `text`: the
/// text reads as one JSON value (within `serde_json`'s nesting limit).
pub uninterp spec fn json_value_text(text: Seq<char>) -> bool;

/// `jsonwebtoken::encode` with `Header::default()` (HS256) and
/// `EncodingKey::from_secret(key)`, the claims being the JSON text `claims`
/// (handed over as a `serde_json` `RawValue`, which is written verbatim).
/// Trusted: the call succeeds exactly when `RawValue::from_string` accepts the
/// text (with an HMAC secret and the HS256 header, `encode` itself cannot
/// fail); an accepted result is the name `jwt_hs256` of the claims and key;
/// the token is made of base64url segments and dots, so is ASCII; and, the
/// text having no surrounding whitespace, a signature check under the same
/// secret gives back exactly that text.
#[verifier::external_body]
fn sign_claims(claims: &str, key: &[u8]) -> (r: Result<String, ()>)
    ensures
        r is Ok <==> json_value_text(claims@),
        r matches Ok(t) ==> t@ == jwt_hs256(claims@, key@),
        r matches Ok(t) ==> is_ascii_chars(t@),
        braced(claims@) ==> (r matches Ok(t) ==> jwt_signed_claims(t@, key@) == Some(claims@)),
{
    let raw = RawValue::from_string(claims.to_string()).map_err(|_| ())?;
    jsonwebtoken::encode(&Header::default(), &raw, &EncodingKey::from_secret(key)).map_err(|_| ())
}

/// Why a token was turned down.
#[derive(Debug, Clone, Copy, PartialEq, Eq, Structural)]
pub enum TokenFault {
    /// The signature checks out, but the token is past its expiry.
    Expired,
    /// Anything else: not a token, a bad signature, claims without `exp`.
    Invalid,
}

/// `jsonwebtoken::decode` with `DecodingKey::from_secret(key)` and
/// `Validation::default()` (HS256 only, `exp` required and checked against
/// the clock with 60 seconds of leeway), the claims taken as raw JSON text;
/// the error kind `ExpiredSignature` is told apart from the others.
/// Trusted: an accepted result is the claims text that the signature check
/// recovers; a token whose signature does not check out is `Invalid`; expiry
/// is only checked once the signature checked out. Whether a token with a
/// good signature is accepted or found expired depends on the clock; that
/// is left unsaid.
#[verifier::external_body]
fn verify_token(token: &str, key: &[u8]) -> (r: Result<String, TokenFault>)
    ensures
        r matches Ok(c) ==> jwt_signed_claims(token@, key@) == Some(c@),
        r matches Err(TokenFault::Expired) ==> jwt_signed_claims(token@, key@) is Some,
{
    match jsonwebtoken::decode::<Box<RawValue>>(token, &DecodingKey::from_secret(key), &Validation::default()) {
        Ok(data) => Ok(data.claims.get().to_string()),
        Err(e) => match e.kind() {
            ErrorKind::ExpiredSignature => Err(TokenFault::Expired),
            _ => Err(TokenFault::Invalid),
        },
    }
}

/// What `encode` promises of its result: the token is owed exactly when the
/// JSON reader accepts the claims text.
pub open spec fn encode_ensures(
    payload: Seq<char>,
    key: Seq<u8>,
    duration: u64,
    now: u64,
    r: Result<String, Error>,
) -> bool {
    let claims = claims_text(payload, (now + duration) as nat);
    match r {
        Ok(t) => {
            &&& json_value_text(claims)
            &&& t@ == jwt_hs256(claims, key)
            &&& is_ascii_chars(t@)
            &&& jwt_signed_claims(t@, key) == Some(claims)
        },
        Err(e) => e == Error::Status(533) && !json_value_text(claims),
    }
}

/// What `check` promises of its result.
pub open spec fn check_ensures(token: Seq<u8>, key: Seq<u8>, r: Result<String, TokenFault>) -> bool {
    &&& !header_text_ok(token) ==> r == Err::<String, TokenFault>(TokenFault::Invalid)
    &&& header_text_ok(token) && jwt_signed_claims(decode_utf8(token), key) is None ==> r == Err::<
        String,
        TokenFault,
    >(TokenFault::Invalid)
    &&& r == Err::<String, TokenFault>(TokenFault::Expired) ==> header_text_ok(token)
        && jwt_signed_claims(decode_utf8(token), key) is Some
    &&& r matches Ok(c) ==> header_text_ok(token) && jwt_signed_claims(decode_utf8(token), key)
        == Some(c@)
}

/// What `decode` promises of its result.
pub open spec fn decode_ensures(token: Seq<u8>, key: Seq<u8>, r: Result<String, Error>) -> bool {
    &&& !header_text_ok(token) ==> r == Err::<String, Error>(Error::Status(401))
    &&& header_text_ok(token) && jwt_signed_claims(decode_utf8(token), key) is None ==> r == Err::<
        String,
        Error,
    >(Error::Status(401))
    &&& r matches Err(e) ==> e == Error::Status(401)
    &&& r matches Ok(c) ==> header_text_ok(token) && jwt_signed_claims(decode_utf8(token), key)
        == Some(c@)
}

/// Signs a token for `payload` (its JSON text) that expires `duration`
/// seconds after `now` (seconds since the Unix epoch). A failure to sign,
/// which comes only from claims the JSON reader turns down, is answered with
/// 533.
pub fn encode(payload: &str, key: &[u8], duration: u64, now: u64) -> (r: Result<String, Error>)
    requires
        now + duration <= usize::MAX,
    ensures
        encode_ensures(payload@, key@, duration, now, r),
{
    let exp = now + duration;
    let claims = Claims { payload: String::from_str(payload), exp: exp as usize };
    let text = claims.to_json();
    match sign_claims(text.as_str(), key) {
        Ok(token) => Ok(token),
        Err(_) => Err(Error::Status(533)),
    }
}

/// Checks the token in an `Authorization` header value under `key` and
/// returns the JSON text of its claims, or why it was turned down. A value
/// that does not read as text is no token.
pub fn check(token: &[u8], key: &[u8]) -> (r: Result<String, TokenFault>)
    ensures
        check_ensures(token@, key@, r),
{
    let text = match header_text(token) {
        Some(text) => text,
        None => return Err(TokenFault::Invalid),
    };
    verify_token(text, key)
}

/// Checks the token in an `Authorization` header value under `key` and
/// returns the JSON text of its claims. A value that does not read as text,
/// or a token that does not check out (expired ones included), is answered
/// with 401.
pub fn decode(token: &[u8], key: &[u8]) -> (r: Result<String, Error>)
    ensures
        decode_ensures(token@, key@, r),
{
    match check(token, key) {
        Ok(claims) => Ok(claims),
        Err(_) => Err(Error::Status(401)),
    }
}

/// A request without an `Authorization` header is answered with 401;
/// otherwise its token is decoded under `key`.
pub fn decode_authorization(header: Option<&[u8]>, key: &[u8]) -> (r: Result<String, Error>)
    ensures
        header is None ==> r == Err::<String, Error>(Error::Status(401)),
        header matches Some(token) ==> decode_ensures(token@, key@, r),
{
    match header {
        None => Err(Error::Status(401)),
        Some(token) => decode(token, key),
    }
}

/// A token made by `encode` gives back what it was made from: whenever
/// `decode` accepts the token's bytes under the same secret, the claims it
/// returns are the payload with the expiry `encode` set.
pub proof fn lemma_decode_of_encode(
    payload: Seq<char>,
    key: Seq<u8>,
    duration: u64,
    now: u64,
    token: String,
    claims: String,
)
    requires
        encode_ensures(payload, key, duration, now, Ok(token)),
        decode_ensures(encode_utf8(token@), key, Ok(claims)),
    ensures
        claims@ == claims_text(payload, (now + duration) as nat),
{
    encode_utf8_decode_utf8(token@);
}

} // verus!
