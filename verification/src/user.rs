use vstd::prelude::*;
use vstd::string::StrSliceExecFns;
use vstd::string::StringExecFns;
use vstd::string::StringSliceAdditionalSpecFns;
use vstd::utf8::*;

use crate::error::Error;
use crate::jwt::{
    check,
    claims_text,
    decode_ensures,
    encode,
    encode_ensures,
    json_value_text,
    jwt_signed_claims,
    lemma_decode_of_encode,
    Key,
    LoginPayload,
    TokenFault,
    ACCESS_DURATION,
    REFRESH_DURATION,
};
use crate::text::{header_text, header_text_ok};
use crate::tool::random_code;

verus! {

/// A pair of tokens: the long-lived refresh token and the short-lived access
/// token.
pub struct Token<T> {
    pub refresh_token: T,
    pub access_token: T,
}

/// The Redis key a refresh token is recorded under: its last sixteen
/// characters, or the whole token where it is shorter.
pub open spec fn status_key_text(token: Seq<char>) -> Seq<char> {
    if token.len() > 16 {
        token.subrange(token.len() - 16, token.len() as int)
    } else {
        token
    }
}

/// The Redis key of a refresh token. Tokens are ASCII, so these are also
/// its last sixteen bytes.
pub fn status_key(token: &str) -> (k: String)
    ensures
        k@ == status_key_text(token@),
{
    let n = token.unicode_len();
    if n > 16 {
        String::from_str(token.substring_char(n - 16, n))
    } else {
        String::from_str(token)
    }
}

/// What opening a session promises: both tokens signed for the payload (the
/// refresh token first), and the Redis key of the refresh token.
pub open spec fn session_ensures(
    payload: Seq<char>,
    key: Key,
    now: u64,
    r: Result<(Token<String>, String), Error>,
) -> bool {
    match r {
        Ok((token, record)) => {
            &&& encode_ensures(payload, key.refresh@, REFRESH_DURATION, now, Ok(token.refresh_token))
            &&& encode_ensures(payload, key.access@, ACCESS_DURATION, now, Ok(token.access_token))
            &&& record@ == status_key_text(token.refresh_token@)
        },
        Err(e) => {
            &&& e == Error::Status(533)
            &&& !(json_value_text(claims_text(payload, (now + REFRESH_DURATION) as nat))
                && json_value_text(claims_text(payload, (now + ACCESS_DURATION) as nat)))
        },
    }
}

/// Signs a refresh token and an access token for `payload` (its JSON text)
/// at time `now`, and returns them with the Redis key under which the
/// refresh token is to be recorded for `REFRESH_DURATION` seconds.
pub fn open_session(payload: &str, key: &Key, now: u64) -> (r: Result<(Token<String>, String), Error>)
    requires
        now + REFRESH_DURATION <= usize::MAX,
    ensures
        session_ensures(payload@, *key, now, r),
{
    let refresh_token = match encode(payload, key.refresh_key(), REFRESH_DURATION, now) {
        Ok(t) => t,
        Err(e) => return Err(e),
    };
    let access_token = match encode(payload, key.access_key(), ACCESS_DURATION, now) {
        Ok(t) => t,
        Err(e) => return Err(e),
    };
    let record = status_key(refresh_token.as_str());
    Ok((Token { refresh_token, access_token }, record))
}

/// Logs a user in with an email and a password.
///
/// * no body - `NoCare`
/// * no active user with that email and password - 701
/// * otherwise a refresh token and an access token
pub struct Login;

/// The body of a login.
pub struct User {
    pub email: String,
    pub password: String,
}

impl Login {
    /// An email and password that match no active user are answered with
    /// 701; otherwise the user's payload is handed on.
    pub fn account(&self, found: Option<LoginPayload>) -> (r: Result<LoginPayload, Error>)
        ensures
            found matches Some(p) ==> r == Ok::<LoginPayload, Error>(p),
            found is None ==> r == Err::<LoginPayload, Error>(Error::Status(701)),
    {
        match found {
            Some(p) => Ok(p),
            None => Err(Error::Status(701)),
        }
    }

    /// Opens the user's session (see `open_session`).
    pub fn session(&self, payload: &str, key: &Key, now: u64) -> (r: Result<
        (Token<String>, String),
        Error,
    >)
        requires
            now + REFRESH_DURATION <= usize::MAX,
        ensures
            session_ensures(payload@, *key, now, r),
    {
        open_session(payload, key, now)
    }
}

/// Trades a refresh token for a new pair of tokens; each refresh token is
/// good for one trade.
///
/// * no token, or a bad one - 401
/// * an expired token, or one that is no longer recorded - 701
/// * otherwise a refresh token and an access token
pub struct Refresh;

/// What checking the refresh token `token` of an `Authorization` header
/// promises: a token that checks out under the refresh secret gives its
/// claims and the Redis key of its record; an expired one is answered with
/// 701, any other with 401.
pub open spec fn refresh_check_ensures(token: Seq<u8>, key: Key, r: Result<(String, String), Error>) -> bool {
    let signed = jwt_signed_claims(decode_utf8(token), key.refresh@);
    &&& !header_text_ok(token) ==> r == Err::<(String, String), Error>(Error::Status(401))
    &&& header_text_ok(token) && signed is None ==> r == Err::<(String, String), Error>(
        Error::Status(401),
    )
    &&& r matches Err(e) ==> (e == Error::Status(401) || (e == Error::Status(701) && header_text_ok(
        token,
    ) && signed is Some))
    &&& r matches Ok((claims, record)) ==> {
        &&& header_text_ok(token)
        &&& signed == Some(claims@)
        &&& record@ == status_key_text(decode_utf8(token))
    }
}

/// What a refresh makes of the signature check of its token `text`: the
/// claims with the Redis key of the token's record where the token checked
/// out; 701 for an expired token; 401 for any other.
pub fn refresh_outcome(checked: Result<String, TokenFault>, text: &str) -> (r: Result<
    (String, String),
    Error,
>)
    ensures
        checked matches Ok(c) ==> r matches Ok((claims, record)) && claims == c && record@
            == status_key_text(text@),
        checked == Err::<String, TokenFault>(TokenFault::Expired) ==> r == Err::<
            (String, String),
            Error,
        >(Error::Status(701)),
        checked == Err::<String, TokenFault>(TokenFault::Invalid) ==> r == Err::<
            (String, String),
            Error,
        >(Error::Status(401)),
{
    match checked {
        Ok(claims) => Ok((claims, status_key(text))),
        Err(TokenFault::Expired) => Err(Error::Status(701)),
        Err(TokenFault::Invalid) => Err(Error::Status(401)),
    }
}

impl Refresh {
    /// Checks the refresh token of the `Authorization` header and returns
    /// the JSON text of its claims with the Redis key of its record.
    pub fn check_token(&self, header: Option<&[u8]>, key: &Key) -> (r: Result<(String, String), Error>)
        ensures
            header is None ==> r == Err::<(String, String), Error>(Error::Status(401)),
            header matches Some(token) ==> refresh_check_ensures(token@, *key, r),
    {
        let token = match header {
            Some(t) => t,
            None => return Err(Error::Status(401)),
        };
        let checked = check(token, key.refresh_key());
        let text = match header_text(token) {
            Some(s) => s,
            None => return Err(Error::Status(401)),
        };
        let ghost outcome = checked;
        let r = refresh_outcome(checked, text);
        proof {
            match outcome {
                Ok(c) => {
                    assert(jwt_signed_claims(decode_utf8(token@), key.refresh@) == Some(c@));
                },
                Err(TokenFault::Expired) => {
                    assert(jwt_signed_claims(decode_utf8(token@), key.refresh@) is Some);
                },
                Err(TokenFault::Invalid) => {},
            }
        }
        r
    }

    /// A token whose record Redis no longer holds (expired, or traded
    /// already) is answered with 701.
    pub fn check_record(&self, record: Option<u8>) -> (r: Result<(), Error>)
        ensures
            record is Some ==> r == Ok::<(), Error>(()),
            record is None ==> r == Err::<(), Error>(Error::Status(701)),
    {
        match record {
            Some(_) => Ok(()),
            None => Err(Error::Status(701)),
        }
    }

    /// Opens the new session (see `open_session`).
    pub fn session(&self, payload: &str, key: &Key, now: u64) -> (r: Result<
        (Token<String>, String),
        Error,
    >)
        requires
            now + REFRESH_DURATION <= usize::MAX,
        ensures
            session_ensures(payload@, *key, now, r),
    {
        open_session(payload, key, now)
    }
}

/// Where a login stands.
pub enum LoginState {
    /// Nothing read yet.
    Start,
    /// The user is being looked up.
    Account,
    /// The user's payload is being written as JSON.
    Session,
    /// The refresh token is being recorded in Redis.
    Record(Token<String>),
    /// The reply is out.
    Done,
}

/// What the server learnt since the last step of a login.
pub enum LoginEvent {
    /// The request's body, where it reads as one.
    Body(Option<User>),
    /// The active user with that email and password, if any.
    Found(Option<LoginPayload>),
    /// The payload's JSON text (where it could be written) and the time, in
    /// seconds since the Unix epoch.
    Serialized(Option<String>, u64),
    /// Redis holds the record.
    Recorded,
    /// The database or Redis failed.
    Failed(Error),
}

/// What the server is to do next for a login.
pub enum LoginAction {
    /// Look up the active user with this email and password.
    FindUser(User),
    /// Write the payload as JSON and read the clock.
    Serialize(LoginPayload),
    /// Record `key` in Redis for `ttl` seconds.
    Record { key: String, ttl: u64 },
    /// Answer the request.
    Reply(Result<Token<String>, Error>),
}

/// The events a login expects in each state.
pub open spec fn login_accepts(state: LoginState, event: LoginEvent) -> bool {
    match (state, event) {
        (_, LoginEvent::Failed(_)) => true,
        (LoginState::Start, LoginEvent::Body(_)) => true,
        (LoginState::Account, LoginEvent::Found(_)) => true,
        (LoginState::Session, LoginEvent::Serialized(_, now)) => now + REFRESH_DURATION <= usize::MAX,
        (LoginState::Record(_), LoginEvent::Recorded) => true,
        _ => false,
    }
}

/// One step of a login: the body (`NoCare` without one), the user (701 where
/// none matches), the session (533 where the payload could not be written or
/// signed), then the Redis record of the refresh token for
/// `REFRESH_DURATION` seconds, after which the tokens are the answer.
pub open spec fn login_step(
    key: Key,
    state: LoginState,
    event: LoginEvent,
    r: (LoginState, LoginAction),
) -> bool {
    match (state, event) {
        (_, LoginEvent::Failed(e)) => r == (LoginState::Done, LoginAction::Reply(Err(e))),
        (LoginState::Start, LoginEvent::Body(body)) => match body {
            None => r == (LoginState::Done, LoginAction::Reply(Err(Error::NoCare))),
            Some(user) => r == (LoginState::Account, LoginAction::FindUser(user)),
        },
        (LoginState::Account, LoginEvent::Found(found)) => match found {
            None => r == (LoginState::Done, LoginAction::Reply(Err(Error::Status(701)))),
            Some(p) => r == (LoginState::Session, LoginAction::Serialize(p)),
        },
        (LoginState::Session, LoginEvent::Serialized(json, now)) => match json {
            None => r == (LoginState::Done, LoginAction::Reply(Err(Error::Status(533)))),
            Some(payload) => match r {
                (LoginState::Record(token), LoginAction::Record { key: record, ttl }) => {
                    &&& ttl == REFRESH_DURATION
                    &&& session_ensures(payload@, key, now, Ok((token, record)))
                },
                (LoginState::Done, LoginAction::Reply(Err(e))) => session_ensures(
                    payload@,
                    key,
                    now,
                    Err(e),
                ),
                _ => false,
            },
        },
        (LoginState::Record(token), LoginEvent::Recorded) => r == (
            LoginState::Done,
            LoginAction::Reply(Ok(token)),
        ),
        _ => false,
    }
}

impl Login {
    /// Takes the login one step further.
    pub fn step(&self, key: &Key, state: LoginState, event: LoginEvent) -> (r: (
        LoginState,
        LoginAction,
    ))
        requires
            login_accepts(state, event),
        ensures
            login_step(*key, state, event, r),
    {
        match (state, event) {
            (_, LoginEvent::Failed(e)) => (LoginState::Done, LoginAction::Reply(Err(e))),
            (LoginState::Start, LoginEvent::Body(body)) => match body {
                Some(user) => (LoginState::Account, LoginAction::FindUser(user)),
                None => (LoginState::Done, LoginAction::Reply(Err(Error::NoCare))),
            },
            (LoginState::Account, LoginEvent::Found(found)) => match self.account(found) {
                Ok(p) => (LoginState::Session, LoginAction::Serialize(p)),
                Err(e) => (LoginState::Done, LoginAction::Reply(Err(e))),
            },
            (LoginState::Session, LoginEvent::Serialized(json, now)) => match json {
                Some(payload) => match self.session(payload.as_str(), key, now) {
                    Ok((token, record)) => (
                        LoginState::Record(token),
                        LoginAction::Record { key: record, ttl: REFRESH_DURATION },
                    ),
                    Err(e) => (LoginState::Done, LoginAction::Reply(Err(e))),
                },
                None => (LoginState::Done, LoginAction::Reply(Err(Error::Status(533)))),
            },
            (LoginState::Record(token), LoginEvent::Recorded) => (
                LoginState::Done,
                LoginAction::Reply(Ok(token)),
            ),
            _ => (LoginState::Done, LoginAction::Reply(Err(Error::NoCare))),
        }
    }
}

/// Where a refresh stands.
pub enum RefreshState {
    /// Nothing read yet.
    Start,
    /// The token checked out; its claims are being read. Holds the Redis key
    /// of its record.
    Claims(String),
    /// The token's record is being taken out of Redis. Holds its payload.
    Take(LoginPayload),
    /// The payload is being written as JSON.
    Session,
    /// The new refresh token is being recorded in Redis.
    Store(Token<String>),
    /// The reply is out.
    Done,
}

/// What the server learnt since the last step of a refresh.
pub enum RefreshEvent {
    /// The request's `Authorization` header, if any.
    Authorization(Option<Vec<u8>>),
    /// The token's payload, where its claims read as one.
    Payload(Option<LoginPayload>),
    /// What Redis held under the token's key, now deleted.
    Taken(Option<u8>),
    /// The payload's JSON text (where it could be written) and the time, in
    /// seconds since the Unix epoch.
    Serialized(Option<String>, u64),
    /// Redis holds the new record.
    Stored,
    /// Redis failed.
    Failed(Error),
}

/// What the server is to do next for a refresh.
pub enum RefreshAction {
    /// Read the claims text as claims of a login payload.
    ReadClaims(String),
    /// Get and delete the record under this key.
    Take(String),
    /// Write the payload as JSON and read the clock.
    Serialize(LoginPayload),
    /// Record `key` in Redis for `ttl` seconds.
    Store { key: String, ttl: u64 },
    /// Answer the request.
    Reply(Result<Token<String>, Error>),
}

/// The events a refresh expects in each state.
pub open spec fn refresh_accepts(state: RefreshState, event: RefreshEvent) -> bool {
    match (state, event) {
        (_, RefreshEvent::Failed(_)) => true,
        (RefreshState::Start, RefreshEvent::Authorization(_)) => true,
        (RefreshState::Claims(_), RefreshEvent::Payload(_)) => true,
        (RefreshState::Take(_), RefreshEvent::Taken(_)) => true,
        (RefreshState::Session, RefreshEvent::Serialized(_, now)) => now + REFRESH_DURATION
            <= usize::MAX,
        (RefreshState::Store(_), RefreshEvent::Stored) => true,
        _ => false,
    }
}

/// One step of a refresh: the refresh token (401 without one or for a bad
/// one, 701 for an expired one), its payload (401 where it does not read), its record, taken out of
/// Redis so that the token serves once (701 where it is gone), the new
/// session (533 where the payload could not be written or signed), then the
/// new refresh token's record, after which the new tokens are the answer.
pub open spec fn refresh_step(
    key: Key,
    state: RefreshState,
    event: RefreshEvent,
    r: (RefreshState, RefreshAction),
) -> bool {
    match (state, event) {
        (_, RefreshEvent::Failed(e)) => r == (RefreshState::Done, RefreshAction::Reply(Err(e))),
        (RefreshState::Start, RefreshEvent::Authorization(header)) => match header {
            None => r == (RefreshState::Done, RefreshAction::Reply(Err(Error::Status(401)))),
            Some(token) => match r {
                (RefreshState::Claims(record), RefreshAction::ReadClaims(claims)) =>
                    refresh_check_ensures(token@, key, Ok((claims, record))),
                (RefreshState::Done, RefreshAction::Reply(Err(e))) => refresh_check_ensures(
                    token@,
                    key,
                    Err(e),
                ),
                _ => false,
            },
        },
        (RefreshState::Claims(record), RefreshEvent::Payload(payload)) => match payload {
            None => r == (RefreshState::Done, RefreshAction::Reply(Err(Error::Status(401)))),
            Some(p) => r == (RefreshState::Take(p), RefreshAction::Take(record)),
        },
        (RefreshState::Take(p), RefreshEvent::Taken(taken)) => match taken {
            None => r == (RefreshState::Done, RefreshAction::Reply(Err(Error::Status(701)))),
            Some(_) => r == (RefreshState::Session, RefreshAction::Serialize(p)),
        },
        (RefreshState::Session, RefreshEvent::Serialized(json, now)) => match json {
            None => r == (RefreshState::Done, RefreshAction::Reply(Err(Error::Status(533)))),
            Some(payload) => match r {
                (RefreshState::Store(token), RefreshAction::Store { key: record, ttl }) => {
                    &&& ttl == REFRESH_DURATION
                    &&& session_ensures(payload@, key, now, Ok((token, record)))
                },
                (RefreshState::Done, RefreshAction::Reply(Err(e))) => session_ensures(
                    payload@,
                    key,
                    now,
                    Err(e),
                ),
                _ => false,
            },
        },
        (RefreshState::Store(token), RefreshEvent::Stored) => r == (
            RefreshState::Done,
            RefreshAction::Reply(Ok(token)),
        ),
        _ => false,
    }
}

impl Refresh {
    /// Takes the refresh one step further.
    pub fn step(&self, key: &Key, state: RefreshState, event: RefreshEvent) -> (r: (
        RefreshState,
        RefreshAction,
    ))
        requires
            refresh_accepts(state, event),
        ensures
            refresh_step(*key, state, event, r),
    {
        match (state, event) {
            (_, RefreshEvent::Failed(e)) => (RefreshState::Done, RefreshAction::Reply(Err(e))),
            (RefreshState::Start, RefreshEvent::Authorization(header)) => {
                let token = match &header {
                    Some(t) => Some(t.as_slice()),
                    None => None,
                };
                match self.check_token(token, key) {
                    Ok((claims, record)) => (
                        RefreshState::Claims(record),
                        RefreshAction::ReadClaims(claims),
                    ),
                    Err(e) => (RefreshState::Done, RefreshAction::Reply(Err(e))),
                }
            },
            (RefreshState::Claims(record), RefreshEvent::Payload(payload)) => match payload {
                Some(p) => (RefreshState::Take(p), RefreshAction::Take(record)),
                None => (RefreshState::Done, RefreshAction::Reply(Err(Error::Status(401)))),
            },
            (RefreshState::Take(p), RefreshEvent::Taken(taken)) => match self.check_record(taken) {
                Ok(()) => (RefreshState::Session, RefreshAction::Serialize(p)),
                Err(e) => (RefreshState::Done, RefreshAction::Reply(Err(e))),
            },
            (RefreshState::Session, RefreshEvent::Serialized(json, now)) => match json {
                Some(payload) => match self.session(payload.as_str(), key, now) {
                    Ok((token, record)) => (
                        RefreshState::Store(token),
                        RefreshAction::Store { key: record, ttl: REFRESH_DURATION },
                    ),
                    Err(e) => (RefreshState::Done, RefreshAction::Reply(Err(e))),
                },
                None => (RefreshState::Done, RefreshAction::Reply(Err(Error::Status(533)))),
            },
            (RefreshState::Store(token), RefreshEvent::Stored) => (
                RefreshState::Done,
                RefreshAction::Reply(Ok(token)),
            ),
            _ => (RefreshState::Done, RefreshAction::Reply(Err(Error::NoCare))),
        }
    }
}

/// The ending every student address has.
pub const STU_SUFFIX: &'static str = "@stu.edu.cn";

/// The address ends, byte for byte, in `@stu.edu.cn`.
pub open spec fn stu_email(email: Seq<u8>) -> bool {
    let suffix = STU_SUFFIX.spec_bytes();
    &&& email.len() >= suffix.len()
    &&& email.subrange(email.len() - suffix.len(), email.len() as int) == suffix
}

/// Whether an address is a student address.
pub fn has_stu_suffix(email: &str) -> (r: bool)
    ensures
        r == stu_email(email.spec_bytes()),
{
    let e = email.as_bytes();
    let s = STU_SUFFIX.as_bytes();
    if e.len() < s.len() {
        return false;
    }
    let n = e.len();
    let start = n - s.len();
    let mut i: usize = 0;
    while i < s.len()
        invariant
            e@ == email.spec_bytes(),
            s@ == STU_SUFFIX.spec_bytes(),
            start + s@.len() == e@.len(),
            n == e@.len(),
            i <= s@.len(),
            forall|j: int| 0 <= j < i ==> e@[start + j] == s@[j],
        decreases s@.len() - i,
    {
        if e[start + i] != s[i] {
            assert(e@.subrange(start as int, e@.len() as int)[i as int] != s@[i as int]);
            return false;
        }
        i = i + 1;
    }
    assert(e@.subrange(start as int, e@.len() as int) =~= s@);
    true
}

/// Registers a student.
///
/// * no body - `NoCare`
/// * not a student address - 701
/// * already registered - 702
/// * a wrong or missing verification code - 703
/// * otherwise 1, or -1 where the username is taken
pub struct SignUp;

/// The body of a sign-up.
pub struct SignUpParam {
    pub email: String,
    pub username: String,
    pub password: String,
    pub verify_code: String,
}

/// A sign-up's email and code, as a token may carry them.
pub struct SignUpPayload<T> {
    pub email: T,
    pub verify_code: T,
}

/// The refusal of an already registered address.
pub open spec fn registered_check(exists: bool) -> Result<(), Error> {
    if exists {
        Err(Error::Status(702))
    } else {
        Ok(())
    }
}

/// SignUp's check of an address.
pub open spec fn sign_up_email_check(email: Seq<u8>) -> Result<(), Error> {
    if stu_email(email) {
        Ok(())
    } else {
        Err(Error::Status(701))
    }
}

impl SignUp {
    /// Only student addresses may sign up (701); an address too short to
    /// hold the suffix is no student address.
    pub fn check_email(&self, email: &str) -> (r: Result<(), Error>)
        ensures
            r == sign_up_email_check(email.spec_bytes()),
    {
        if has_stu_suffix(email) {
            Ok(())
        } else {
            Err(Error::Status(701))
        }
    }

    /// An address already registered is refused with 702.
    pub fn check_unregistered(&self, exists: bool) -> (r: Result<(), Error>)
        ensures
            r == registered_check(exists),
    {
        if exists {
            Err(Error::Status(702))
        } else {
            Ok(())
        }
    }

    /// A missing code, or one other than the code given, is refused with
    /// 703.
    pub fn check_code(&self, stored: Option<String>, given: &String) -> (r: Result<(), Error>)
        ensures
            stored is None ==> r == Err::<(), Error>(Error::Status(703)),
            stored matches Some(code) ==> (if code@ == given@ {
                r == Ok::<(), Error>(())
            } else {
                r == Err::<(), Error>(Error::Status(703))
            }),
    {
        match stored {
            Some(code) => {
                if code == *given {
                    Ok(())
                } else {
                    Err(Error::Status(703))
                }
            },
            None => Err(Error::Status(703)),
        }
    }
}

/// Where a sign-up stands.
pub enum SignUpState {
    /// Nothing read yet.
    Start,
    /// The address is being looked up among the users.
    Registered(SignUpParam),
    /// The verification code is being read from Redis.
    Code(SignUpParam),
    /// The user is being inserted.
    Insert,
    /// The reply is out.
    Done,
}

/// What the server learnt since the last step of a sign-up.
pub enum SignUpEvent {
    /// The request's body, where it reads as one.
    Body(Option<SignUpParam>),
    /// Whether a user with the address exists.
    Exists(bool),
    /// The code Redis holds for the address, if any.
    StoredCode(Option<String>),
    /// What the database answered to the insertion.
    Inserted(i32),
    /// The database or Redis failed.
    Failed(Error),
}

/// What the server is to do next for a sign-up.
pub enum SignUpAction {
    /// Ask whether a user with this address exists.
    FindEmail(String),
    /// Read the code recorded under this key.
    ReadCode(String),
    /// Insert the user.
    Insert(SignUpParam),
    /// Answer the request.
    Reply(Result<i32, Error>),
}

/// The events a sign-up expects in each state.
pub open spec fn sign_up_accepts(state: SignUpState, event: SignUpEvent) -> bool {
    match (state, event) {
        (_, SignUpEvent::Failed(_)) => true,
        (SignUpState::Start, SignUpEvent::Body(_)) => true,
        (SignUpState::Registered(_), SignUpEvent::Exists(_)) => true,
        (SignUpState::Code(_), SignUpEvent::StoredCode(_)) => true,
        (SignUpState::Insert, SignUpEvent::Inserted(_)) => true,
        _ => false,
    }
}

/// One step of a sign-up: the body (`NoCare` without one), the address (701
/// unless a student address), the users (702 where it is registered), the
/// code recorded under the address (703 where it is missing or differs from
/// the body's), then the insertion, whose answer is the reply.
pub open spec fn sign_up_step(
    state: SignUpState,
    event: SignUpEvent,
    r: (SignUpState, SignUpAction),
) -> bool {
    match (state, event) {
        (_, SignUpEvent::Failed(e)) => r == (SignUpState::Done, SignUpAction::Reply(Err(e))),
        (SignUpState::Start, SignUpEvent::Body(body)) => match body {
            None => r == (SignUpState::Done, SignUpAction::Reply(Err(Error::NoCare))),
            Some(p) => if stu_email(encode_utf8(p.email@)) {
                r == (SignUpState::Registered(p), SignUpAction::FindEmail(p.email))
            } else {
                r == (SignUpState::Done, SignUpAction::Reply(Err(Error::Status(701))))
            },
        },
        (SignUpState::Registered(p), SignUpEvent::Exists(exists)) => if exists {
            r == (SignUpState::Done, SignUpAction::Reply(Err(Error::Status(702))))
        } else {
            r == (SignUpState::Code(p), SignUpAction::ReadCode(p.email))
        },
        (SignUpState::Code(p), SignUpEvent::StoredCode(stored)) => match stored {
            Some(code) if code@ == p.verify_code@ => r == (
                SignUpState::Insert,
                SignUpAction::Insert(p),
            ),
            _ => r == (SignUpState::Done, SignUpAction::Reply(Err(Error::Status(703)))),
        },
        (SignUpState::Insert, SignUpEvent::Inserted(n)) => r == (
            SignUpState::Done,
            SignUpAction::Reply(Ok(n)),
        ),
        _ => false,
    }
}

impl SignUp {
    /// Takes the sign-up one step further.
    pub fn step(&self, state: SignUpState, event: SignUpEvent) -> (r: (SignUpState, SignUpAction))
        requires
            sign_up_accepts(state, event),
        ensures
            sign_up_step(state, event, r),
    {
        match (state, event) {
            (_, SignUpEvent::Failed(e)) => (SignUpState::Done, SignUpAction::Reply(Err(e))),
            (SignUpState::Start, SignUpEvent::Body(body)) => match body {
                Some(p) => match self.check_email(p.email.as_str()) {
                    Ok(()) => {
                        let email = p.email.clone();
                        (SignUpState::Registered(p), SignUpAction::FindEmail(email))
                    },
                    Err(e) => (SignUpState::Done, SignUpAction::Reply(Err(e))),
                },
                None => (SignUpState::Done, SignUpAction::Reply(Err(Error::NoCare))),
            },
            (SignUpState::Registered(p), SignUpEvent::Exists(exists)) => match self.check_unregistered(
                exists,
            ) {
                Ok(()) => {
                    let key = p.email.clone();
                    (SignUpState::Code(p), SignUpAction::ReadCode(key))
                },
                Err(e) => (SignUpState::Done, SignUpAction::Reply(Err(e))),
            },
            (SignUpState::Code(p), SignUpEvent::StoredCode(stored)) => match self.check_code(
                stored,
                &p.verify_code,
            ) {
                Ok(()) => (SignUpState::Insert, SignUpAction::Insert(p)),
                Err(e) => (SignUpState::Done, SignUpAction::Reply(Err(e))),
            },
            (SignUpState::Insert, SignUpEvent::Inserted(n)) => (
                SignUpState::Done,
                SignUpAction::Reply(Ok(n)),
            ),
            _ => (SignUpState::Done, SignUpAction::Reply(Err(Error::NoCare))),
        }
    }
}

/// Sends a verification code to a student address.
///
/// * no query - `NoCare`
/// * not a student address - 701
/// * a student address shorter than fifteen bytes - 401
/// * already registered - 702
/// * the mail could not be sent - 534
pub struct VerifyEmail;

/// The query of a verification.
pub struct Email {
    pub email: String,
}

/// How long a verification code is kept, in seconds (five minutes).
pub const CODE_TTL: u64 = 60 * 5;

/// VerifyEmail's check of an address.
pub open spec fn verify_email_check(email: Seq<u8>) -> Result<(), Error> {
    if !stu_email(email) {
        Err(Error::Status(701))
    } else if email.len() < 15 {
        Err(Error::Status(401))
    } else {
        Ok(())
    }
}

impl VerifyEmail {
    /// An address that is not a student address is refused with 701; a
    /// student address shorter than fifteen bytes with 401.
    pub fn check_email(&self, email: &str) -> (r: Result<(), Error>)
        ensures
            r == verify_email_check(email.spec_bytes()),
    {
        if !has_stu_suffix(email) {
            return Err(Error::Status(701));
        }
        if email.as_bytes().len() < 15 {
            Err(Error::Status(401))
        } else {
            Ok(())
        }
    }

    /// An address already registered is refused with 702.
    pub fn check_unregistered(&self, exists: bool) -> (r: Result<(), Error>)
        ensures
            r == registered_check(exists),
    {
        if exists {
            Err(Error::Status(702))
        } else {
            Ok(())
        }
    }

    /// A fresh code, to be recorded in Redis (the address as the key, the
    /// code as the value) for `CODE_TTL` seconds and mailed.
    pub fn new_code(&self) -> (code: String)
        ensures
            code@.len() == crate::tool::CODE_LEN,
            forall|i: int|
                0 <= i < code@.len() ==> crate::tool::CHARSET@.contains(#[trigger] code@[i]),
    {
        random_code()
    }

    /// A mail that could not be sent is answered with 534.
    pub fn check_sent(&self, sent: bool) -> (r: Result<(), Error>)
        ensures
            sent ==> r == Ok::<(), Error>(()),
            !sent ==> r == Err::<(), Error>(Error::Status(534)),
    {
        if sent {
            Ok(())
        } else {
            Err(Error::Status(534))
        }
    }
}

/// Where a verification stands.
pub enum VerifyEmailState {
    /// Nothing read yet.
    Start,
    /// The address is being looked up among the users.
    Registered(String),
    /// The code is being recorded in Redis.
    Store { email: String, code: String },
    /// The code is being mailed.
    Send,
    /// The reply is out.
    Done,
}

/// What the server learnt since the last step of a verification.
pub enum VerifyEmailEvent {
    /// The request's query, where it reads as one.
    Query(Option<Email>),
    /// Whether a user with the address exists.
    Exists(bool),
    /// Redis holds the code.
    Stored,
    /// Whether the mail went out.
    Sent(bool),
    /// The database or Redis failed.
    Failed(Error),
}

/// What the server is to do next for a verification.
pub enum VerifyEmailAction {
    /// Ask whether a user with this address exists.
    FindEmail(String),
    /// Record `value` under `key` in Redis for `ttl` seconds.
    Store { key: String, value: String, ttl: u64 },
    /// Mail `code` to `to`.
    Send { to: String, code: String },
    /// Answer the request.
    Reply(Result<(), Error>),
}

/// The events a verification expects in each state.
pub open spec fn verify_email_accepts(state: VerifyEmailState, event: VerifyEmailEvent) -> bool {
    match (state, event) {
        (_, VerifyEmailEvent::Failed(_)) => true,
        (VerifyEmailState::Start, VerifyEmailEvent::Query(_)) => true,
        (VerifyEmailState::Registered(_), VerifyEmailEvent::Exists(_)) => true,
        (VerifyEmailState::Store { .. }, VerifyEmailEvent::Stored) => true,
        (VerifyEmailState::Send, VerifyEmailEvent::Sent(_)) => true,
        _ => false,
    }
}

/// A verification code: eight characters of `CHARSET`.
pub open spec fn is_code(code: Seq<char>) -> bool {
    &&& code.len() == crate::tool::CODE_LEN
    &&& forall|i: int| 0 <= i < code.len() ==> crate::tool::CHARSET@.contains(#[trigger] code[i])
}

/// One step of a verification: the query (`NoCare` without one), the
/// address (701 unless a student address, 401 where it is shorter than
/// fifteen bytes), the users (702 where it is registered), a fresh code
/// recorded in Redis under the address, where SignUp looks for it, for
/// `CODE_TTL` seconds, then the mail (534 where it did not go out).
pub open spec fn verify_email_step(
    state: VerifyEmailState,
    event: VerifyEmailEvent,
    r: (VerifyEmailState, VerifyEmailAction),
) -> bool {
    match (state, event) {
        (_, VerifyEmailEvent::Failed(e)) => r == (
            VerifyEmailState::Done,
            VerifyEmailAction::Reply(Err(e)),
        ),
        (VerifyEmailState::Start, VerifyEmailEvent::Query(query)) => match query {
            None => r == (VerifyEmailState::Done, VerifyEmailAction::Reply(Err(Error::NoCare))),
            Some(q) => match verify_email_check(encode_utf8(q.email@)) {
                Ok(()) => r == (
                    VerifyEmailState::Registered(q.email),
                    VerifyEmailAction::FindEmail(q.email),
                ),
                Err(e) => r == (VerifyEmailState::Done, VerifyEmailAction::Reply(Err(e))),
            },
        },
        (VerifyEmailState::Registered(email), VerifyEmailEvent::Exists(exists)) => if exists {
            r == (VerifyEmailState::Done, VerifyEmailAction::Reply(Err(Error::Status(702))))
        } else {
            match r {
                (
                    VerifyEmailState::Store { email: kept, code },
                    VerifyEmailAction::Store { key, value, ttl },
                ) => {
                    &&& kept == email
                    &&& is_code(code@)
                    &&& key == email
                    &&& value == code
                    &&& ttl == CODE_TTL
                },
                _ => false,
            }
        },
        (VerifyEmailState::Store { email, code }, VerifyEmailEvent::Stored) => r == (
            VerifyEmailState::Send,
            VerifyEmailAction::Send { to: email, code },
        ),
        (VerifyEmailState::Send, VerifyEmailEvent::Sent(sent)) => if sent {
            r == (VerifyEmailState::Done, VerifyEmailAction::Reply(Ok(())))
        } else {
            r == (VerifyEmailState::Done, VerifyEmailAction::Reply(Err(Error::Status(534))))
        },
        _ => false,
    }
}

impl VerifyEmail {
    /// Takes the verification one step further.
    pub fn step(&self, state: VerifyEmailState, event: VerifyEmailEvent) -> (r: (
        VerifyEmailState,
        VerifyEmailAction,
    ))
        requires
            verify_email_accepts(state, event),
        ensures
            verify_email_step(state, event, r),
    {
        match (state, event) {
            (_, VerifyEmailEvent::Failed(e)) => (
                VerifyEmailState::Done,
                VerifyEmailAction::Reply(Err(e)),
            ),
            (VerifyEmailState::Start, VerifyEmailEvent::Query(query)) => match query {
                Some(q) => match self.check_email(q.email.as_str()) {
                    Ok(()) => {
                        let email = q.email.clone();
                        (VerifyEmailState::Registered(q.email), VerifyEmailAction::FindEmail(email))
                    },
                    Err(e) => (VerifyEmailState::Done, VerifyEmailAction::Reply(Err(e))),
                },
                None => (VerifyEmailState::Done, VerifyEmailAction::Reply(Err(Error::NoCare))),
            },
            (VerifyEmailState::Registered(email), VerifyEmailEvent::Exists(exists)) => match self.check_unregistered(
                exists,
            ) {
                Ok(()) => {
                    let code = self.new_code();
                    let key = email.clone();
                    let value = code.clone();
                    (
                        VerifyEmailState::Store { email, code },
                        VerifyEmailAction::Store { key, value, ttl: CODE_TTL },
                    )
                },
                Err(e) => (VerifyEmailState::Done, VerifyEmailAction::Reply(Err(e))),
            },
            (VerifyEmailState::Store { email, code }, VerifyEmailEvent::Stored) => (
                VerifyEmailState::Send,
                VerifyEmailAction::Send { to: email, code },
            ),
            (VerifyEmailState::Send, VerifyEmailEvent::Sent(sent)) => match self.check_sent(sent) {
                Ok(()) => (VerifyEmailState::Done, VerifyEmailAction::Reply(Ok(()))),
                Err(e) => (VerifyEmailState::Done, VerifyEmailAction::Reply(Err(e))),
            },
            _ => (VerifyEmailState::Done, VerifyEmailAction::Reply(Err(Error::NoCare))),
        }
    }
}

/// A user is inserted only after Redis gave back, under the address, the
/// very code the sign-up carries.
pub proof fn lemma_sign_up_needs_the_code(
    state: SignUpState,
    event: SignUpEvent,
    r: (SignUpState, SignUpAction),
)
    requires
        sign_up_step(state, event, r),
        r.1 is Insert,
    ensures
        state matches SignUpState::Code(p) && r.1->Insert_0 == p,
        event matches SignUpEvent::StoredCode(Some(code)) && code@ == r.1->Insert_0.verify_code@,
{
}

/// A login hands out its tokens only once Redis holds the record of the
/// refresh token.
pub proof fn lemma_login_tokens_after_record(
    key: Key,
    state: LoginState,
    event: LoginEvent,
    r: (LoginState, LoginAction),
)
    requires
        login_step(key, state, event, r),
        r.1 matches LoginAction::Reply(Ok(_)),
    ensures
        state matches LoginState::Record(t) && r.1 == LoginAction::Reply(Ok(t)),
        event is Recorded,
{
}

/// A refresh token serves once: a refresh goes on to a new session only
/// after the token's record was taken out of Redis, and hands out the new
/// tokens only once Redis holds the record of the new refresh token.
pub proof fn lemma_refresh_takes_the_record(
    key: Key,
    state: RefreshState,
    event: RefreshEvent,
    r: (RefreshState, RefreshAction),
)
    requires
        refresh_step(key, state, event, r),
    ensures
        r.1 is Serialize ==> state is Take && event matches RefreshEvent::Taken(Some(_)),
        r.1 matches RefreshAction::Reply(Ok(_)) ==> state is Store && event is Stored,
{
}

/// Signing is owed: a login whose claims texts the JSON reader accepts goes
/// on to record its refresh token.
pub proof fn lemma_login_signs(
    key: Key,
    payload: String,
    now: u64,
    r: (LoginState, LoginAction),
)
    requires
        login_step(key, LoginState::Session, LoginEvent::Serialized(Some(payload), now), r),
        json_value_text(claims_text(payload@, (now + REFRESH_DURATION) as nat)),
        json_value_text(claims_text(payload@, (now + ACCESS_DURATION) as nat)),
    ensures
        r.0 is Record,
        r.1 matches LoginAction::Record { ttl, .. } && ttl == REFRESH_DURATION,
{
}

/// Signing is owed on a refresh too: once the old record was taken, a
/// refresh whose claims the JSON reader accepts goes on to store the new
/// refresh token.
pub proof fn lemma_refresh_signs(
    key: Key,
    payload: String,
    now: u64,
    r: (RefreshState, RefreshAction),
)
    requires
        refresh_step(key, RefreshState::Session, RefreshEvent::Serialized(Some(payload), now), r),
        json_value_text(claims_text(payload@, (now + REFRESH_DURATION) as nat)),
        json_value_text(claims_text(payload@, (now + ACCESS_DURATION) as nat)),
    ensures
        r.0 is Store,
        r.1 matches RefreshAction::Store { ttl, .. } && ttl == REFRESH_DURATION,
{
}

/// A mailed code lets the same address sign up: VerifyEmail records the code
/// under the very key SignUp reads it from, and a sign-up carrying that code
/// goes on to insert the user when Redis gives the recorded code back.
pub proof fn lemma_mailed_code_signs_up(
    email: String,
    stored: (VerifyEmailState, VerifyEmailAction),
    param: SignUpParam,
    read: (SignUpState, SignUpAction),
    checked: (SignUpState, SignUpAction),
)
    requires
        verify_email_step(VerifyEmailState::Registered(email), VerifyEmailEvent::Exists(false), stored),
        param.email@ == email@,
        stored.1 matches VerifyEmailAction::Store { value, .. } && param.verify_code@ == value@,
        sign_up_step(SignUpState::Registered(param), SignUpEvent::Exists(false), read),
        stored.1 matches VerifyEmailAction::Store { value, .. } && sign_up_step(
            SignUpState::Code(param),
            SignUpEvent::StoredCode(Some(value)),
            checked,
        ),
    ensures
        stored.1 matches VerifyEmailAction::Store { key, .. } && read.1 matches SignUpAction::ReadCode(
            k,
        ) && k@ == key@,
        checked.1 is Insert,
{
}

/// A sign-up that reaches the insertion inserts exactly the body it started
/// from (address, username, password and code unchanged), and only for a
/// student address that is not registered and whose recorded code is the
/// body's.
pub proof fn lemma_sign_up_inserts_the_body(
    body: SignUpParam,
    exists: bool,
    stored: Option<String>,
    r1: (SignUpState, SignUpAction),
    r2: (SignUpState, SignUpAction),
    r3: (SignUpState, SignUpAction),
)
    requires
        sign_up_step(SignUpState::Start, SignUpEvent::Body(Some(body)), r1),
        sign_up_step(r1.0, SignUpEvent::Exists(exists), r2),
        sign_up_step(r2.0, SignUpEvent::StoredCode(stored), r3),
        r3.1 is Insert,
    ensures
        r3.1->Insert_0 == body,
        r1.1 matches SignUpAction::FindEmail(e) && e == body.email,
        r2.1 matches SignUpAction::ReadCode(k) && k == body.email,
        stu_email(encode_utf8(body.email@)),
        !exists,
        stored matches Some(code) && code@ == body.verify_code@,
{
}

/// A login signs exactly the payload the database found for the user:
/// email, username and role unchanged.
pub proof fn lemma_login_signs_the_found_payload(
    key: Key,
    found: Option<LoginPayload>,
    r: (LoginState, LoginAction),
)
    requires
        login_step(key, LoginState::Account, LoginEvent::Found(found), r),
        r.1 is Serialize,
    ensures
        found == Some(r.1->Serialize_0),
        r.0 is Session,
{
}

/// A login looks up exactly the email and password of its body.
pub proof fn lemma_login_looks_up_the_body(key: Key, body: User, r: (LoginState, LoginAction))
    requires
        login_step(key, LoginState::Start, LoginEvent::Body(Some(body)), r),
    ensures
        r.1 matches LoginAction::FindUser(u) && u == body,
{
}

/// A refresh re-signs exactly the payload read from the presented token's
/// claims (email, username and role unchanged), once that token's record
/// was taken out of Redis, and takes out the record the token check found.
pub proof fn lemma_refresh_signs_the_token_payload(
    key: Key,
    record: String,
    payload: LoginPayload,
    taken: Option<u8>,
    r1: (RefreshState, RefreshAction),
    r2: (RefreshState, RefreshAction),
)
    requires
        refresh_step(key, RefreshState::Claims(record), RefreshEvent::Payload(Some(payload)), r1),
        refresh_step(key, r1.0, RefreshEvent::Taken(taken), r2),
        r2.1 is Serialize,
    ensures
        r2.1->Serialize_0 == payload,
        r1.1 matches RefreshAction::Take(k) && k == record,
        taken is Some,
{
}

/// A verification asks the users table about exactly the queried address,
/// records the code under that address, and mails it to that address.
pub proof fn lemma_verification_uses_the_queried_address(
    query: Email,
    exists: bool,
    r1: (VerifyEmailState, VerifyEmailAction),
    r2: (VerifyEmailState, VerifyEmailAction),
    r3: (VerifyEmailState, VerifyEmailAction),
)
    requires
        verify_email_step(VerifyEmailState::Start, VerifyEmailEvent::Query(Some(query)), r1),
        verify_email_step(r1.0, VerifyEmailEvent::Exists(exists), r2),
        verify_email_step(r2.0, VerifyEmailEvent::Stored, r3),
    ensures
        r1.1 matches VerifyEmailAction::FindEmail(e) && e == query.email,
        r2.1 matches VerifyEmailAction::Store { key, value, .. } && key == query.email && r3.1
            == (VerifyEmailAction::Send { to: query.email, code: value }),
        !exists,
{
}

/// A registered address is refused with 702 and gets no code.
pub proof fn lemma_registered_address_refused(
    query: Email,
    r1: (VerifyEmailState, VerifyEmailAction),
    r2: (VerifyEmailState, VerifyEmailAction),
)
    requires
        verify_email_step(VerifyEmailState::Start, VerifyEmailEvent::Query(Some(query)), r1),
        r1.1 is FindEmail,
        verify_email_step(r1.0, VerifyEmailEvent::Exists(true), r2),
    ensures
        r2.1 == VerifyEmailAction::Reply(Err(Error::Status(702))),
        r1.1 == VerifyEmailAction::FindEmail(query.email),
{
}

/// A sign-up's refusals: no body is `NoCare`, an address that is not a
/// student address 701, a registered one 702, a missing or different code
/// 703.
pub proof fn lemma_sign_up_refusals(
    body: Option<SignUpParam>,
    param: SignUpParam,
    stored: Option<String>,
    r1: (SignUpState, SignUpAction),
    r2: (SignUpState, SignUpAction),
    r3: (SignUpState, SignUpAction),
)
    requires
        sign_up_step(SignUpState::Start, SignUpEvent::Body(body), r1),
        sign_up_step(SignUpState::Registered(param), SignUpEvent::Exists(true), r2),
        sign_up_step(SignUpState::Code(param), SignUpEvent::StoredCode(stored), r3),
    ensures
        body is None ==> r1.1 == SignUpAction::Reply(Err(Error::NoCare)),
        body matches Some(b) && !stu_email(encode_utf8(b.email@)) ==> r1.1 == SignUpAction::Reply(
            Err(Error::Status(701)),
        ),
        r2.1 == SignUpAction::Reply(Err(Error::Status(702))),
        !(stored matches Some(c) && c@ == param.verify_code@) ==> r3.1 == SignUpAction::Reply(
            Err(Error::Status(703)),
        ),
{
}

/// A verification's refusals and record: no query is `NoCare`, a
/// non-student address 701, a student address under fifteen bytes 401, an
/// unsent mail 534; the code recorded has eight characters of `CHARSET` and
/// is kept 300 seconds.
pub proof fn lemma_verification_refusals(
    query: Option<Email>,
    email: String,
    sent: bool,
    r1: (VerifyEmailState, VerifyEmailAction),
    r2: (VerifyEmailState, VerifyEmailAction),
    r3: (VerifyEmailState, VerifyEmailAction),
)
    requires
        verify_email_step(VerifyEmailState::Start, VerifyEmailEvent::Query(query), r1),
        verify_email_step(VerifyEmailState::Registered(email), VerifyEmailEvent::Exists(false), r2),
        verify_email_step(VerifyEmailState::Send, VerifyEmailEvent::Sent(sent), r3),
    ensures
        query is None ==> r1.1 == VerifyEmailAction::Reply(Err(Error::NoCare)),
        query matches Some(q) && !stu_email(encode_utf8(q.email@)) ==> r1.1
            == VerifyEmailAction::Reply(Err(Error::Status(701))),
        query matches Some(q) && stu_email(encode_utf8(q.email@)) && encode_utf8(q.email@).len()
            < 15 ==> r1.1 == VerifyEmailAction::Reply(Err(Error::Status(401))),
        r2.1 matches VerifyEmailAction::Store { key, value, ttl } && key == email && ttl == 300
            && value@.len() == 8,
        r3.1 == VerifyEmailAction::Reply(if sent {
            Ok(())
        } else {
            Err(Error::Status(534))
        }),
{
}

/// A login's refusals: no body is `NoCare`, no matching user 701, a payload
/// that could not be written 533.
pub proof fn lemma_login_refusals(
    key: Key,
    now: u64,
    r1: (LoginState, LoginAction),
    r2: (LoginState, LoginAction),
    r3: (LoginState, LoginAction),
)
    requires
        login_step(key, LoginState::Start, LoginEvent::Body(None), r1),
        login_step(key, LoginState::Account, LoginEvent::Found(None), r2),
        login_step(key, LoginState::Session, LoginEvent::Serialized(None, now), r3),
    ensures
        r1.1 == LoginAction::Reply(Err(Error::NoCare)),
        r2.1 == LoginAction::Reply(Err(Error::Status(701))),
        r3.1 == LoginAction::Reply(Err(Error::Status(533))),
{
}

/// A refresh's refusals after the token check: claims that do not read as a
/// payload are 401, a record Redis no longer holds is 701.
pub proof fn lemma_refresh_refusals(
    key: Key,
    record: String,
    payload: LoginPayload,
    r1: (RefreshState, RefreshAction),
    r2: (RefreshState, RefreshAction),
)
    requires
        refresh_step(key, RefreshState::Claims(record), RefreshEvent::Payload(None), r1),
        refresh_step(key, RefreshState::Take(payload), RefreshEvent::Taken(None), r2),
    ensures
        r1.1 == RefreshAction::Reply(Err(Error::Status(401))),
        r2.1 == RefreshAction::Reply(Err(Error::Status(701))),
{
}

/// An address VerifyEmail accepts is one SignUp accepts too.
pub proof fn lemma_verified_address_may_sign_up(email: Seq<u8>)
    requires
        verify_email_check(email) is Ok,
    ensures
        sign_up_email_check(email) is Ok,
{
}

/// A session's refresh token, presented back for a refresh under the same
/// secrets, is found under the Redis key the session recorded it under, and
/// gives back the session's payload with the refresh token's expiry.
pub proof fn lemma_refresh_of_session(
    payload: Seq<char>,
    key: Key,
    now: u64,
    token: Token<String>,
    record: String,
    claims: String,
    looked_up: String,
)
    requires
        session_ensures(payload, key, now, Ok((token, record))),
        refresh_check_ensures(encode_utf8(token.refresh_token@), key, Ok((claims, looked_up))),
    ensures
        looked_up@ == record@,
        claims@ == claims_text(payload, (now + REFRESH_DURATION) as nat),
{
    encode_utf8_decode_utf8(token.refresh_token@);
    lemma_decode_of_encode(payload, key.refresh@, REFRESH_DURATION, now, token.refresh_token, claims);
}

} // verus!
