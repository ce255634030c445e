use redis::RedisError;
use sqlx::Error as SqlxError;
use vstd::prelude::*;
use vstd::string::StringExecFns;

use crate::text::{decimal, decimal_text};

verus! {

/// The error of every handler.
///
/// * bad parameters - 404
/// * JWT failures - 401
/// * PostgreSQL failures - 531
/// * Redis failures - 532
/// * token encoding failures - 533
/// * mail delivery failures - 534
/// * handler specific refusals - 7xx
#[derive(Debug, Clone, Copy, PartialEq, Eq, Structural)]
pub enum Error {
    NoCare,
    Status(u16),
}

/// The HTTP status answered for an error.
pub open spec fn spec_status(e: Error) -> u16 {
    match e {
        Error::NoCare => 404,
        Error::Status(code) => code,
    }
}

/// The text of an error, as its `Display` writes it: `Error::NoCare` or
/// `Error::Status(<code>)`.
pub open spec fn error_text(e: Error) -> Seq<char> {
    match e {
        Error::NoCare => "Error::NoCare"@,
        Error::Status(code) => "Error::Status("@ + decimal_text(code as nat) + ")"@,
    }
}

impl Error {
    /// The HTTP status the router answers when a handler fails with `self`.
    pub fn status(&self) -> (code: u16)
        ensures
            code == spec_status(*self),
    {
        match self {
            Error::NoCare => 404,
            Error::Status(code) => *code,
        }
    }

    /// Writes the error as text.
    pub fn to_string(&self) -> (s: String)
        ensures
            s@ == error_text(*self),
    {
        match self {
            Error::NoCare => String::from_str("Error::NoCare"),
            Error::Status(code) => {
                let mut s = String::from_str("Error::Status(");
                let digits = decimal(*code as u64);
                s.append(digits.as_str());
                s.append(")");
                s
            },
        }
    }
}

impl Default for Error {
    fn default() -> (e: Self)
        ensures
            e == Error::Status(404),
    {
        Error::Status(404)
    }
}

#[verifier::external_type_specification]
#[verifier::external_body]
pub struct ExSqlxError(SqlxError);

#[verifier::external_type_specification]
#[verifier::external_body]
pub struct ExRedisError(RedisError);

impl From<SqlxError> for Error {
    /// Any PostgreSQL failure is answered with 531.
    fn from(value: SqlxError) -> (e: Self)
        ensures
            e == Error::Status(531),
    {
        Error::Status(531)
    }
}

impl vstd::std_specs::convert::FromSpecImpl<SqlxError> for Error {
    open spec fn obeys_from_spec() -> bool {
        true
    }

    open spec fn from_spec(v: SqlxError) -> Self {
        Error::Status(531)
    }
}

impl From<RedisError> for Error {
    /// Any Redis failure is answered with 532.
    fn from(value: RedisError) -> (e: Self)
        ensures
            e == Error::Status(532),
    {
        Error::Status(532)
    }
}

impl vstd::std_specs::convert::FromSpecImpl<RedisError> for Error {
    open spec fn obeys_from_spec() -> bool {
        true
    }

    open spec fn from_spec(v: RedisError) -> Self {
        Error::Status(532)
    }
}

} // verus!
