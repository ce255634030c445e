use vstd::prelude::*;

use crate::error::Error;
use crate::text::same_text;

verus! {

/// Lets only GET requests through.
pub struct Get;

/// Lets only POST requests through.
pub struct Post;

impl Get {
    /// Hands the request on when its method is GET; any other method is
    /// answered with 404.
    pub fn filter<R>(self, req: R, method: &str) -> (r: Result<R, Error>)
        ensures
            method@ == "GET"@ ==> r == Ok::<R, Error>(req),
            method@ != "GET"@ ==> r == Err::<R, Error>(Error::Status(404)),
    {
        if same_text(method, "GET") {
            Ok(req)
        } else {
            Err(Error::Status(404))
        }
    }
}

impl Post {
    /// Hands the request on when its method is POST; any other method is
    /// answered with 404.
    pub fn filter<R>(self, req: R, method: &str) -> (r: Result<R, Error>)
        ensures
            method@ == "POST"@ ==> r == Ok::<R, Error>(req),
            method@ != "POST"@ ==> r == Err::<R, Error>(Error::Status(404)),
    {
        if same_text(method, "POST") {
            Ok(req)
        } else {
            Err(Error::Status(404))
        }
    }
}

} // verus!
