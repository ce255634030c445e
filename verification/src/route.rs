use vstd::prelude::*;

use crate::error::{spec_status, Error};
use crate::filter::{Get, Post};
use crate::text::same_text;

verus! {

/// The only origin the browser may call the API from.
pub const CORS: &'static str = "https://aksjfds.github.io";

/// The request headers the browser may send.
pub const ALLOWED_HEADERS: &'static str = "Content-Type, Authorization";

/// Name of the header that carries `CORS`.
pub const ALLOW_ORIGIN: &'static str = "access-control-allow-origin";

/// Name of the header that carries `ALLOWED_HEADERS`.
pub const ALLOW_HEADERS: &'static str = "access-control-allow-headers";

/// The status of a successful response, a preflight's included.
pub const OK_STATUS: u16 = 200;

/// What the server does with a request.
#[derive(PartialEq, Eq, Structural, Debug, Clone, Copy)]
pub enum Route {
    /// A CORS preflight, answered at once.
    Preflight,
    GetPost,
    CreatePost,
    Login,
    SignUp,
    /// An unknown path, answered by `NotFound`.
    NotFound,
}

/// Where the main router sends a request: the four known paths each take
/// one method (anything else on them is a 404 error), any other path goes
/// to `NotFound`.
pub open spec fn spec_route(path: Seq<char>, method: Seq<char>) -> Result<Route, Error> {
    if path == "/post/get_post"@ {
        if method == "GET"@ {
            Ok(Route::GetPost)
        } else {
            Err(Error::Status(404))
        }
    } else if path == "/post/create_post"@ {
        if method == "POST"@ {
            Ok(Route::CreatePost)
        } else {
            Err(Error::Status(404))
        }
    } else if path == "/user/login"@ {
        if method == "POST"@ {
            Ok(Route::Login)
        } else {
            Err(Error::Status(404))
        }
    } else if path == "/user/signup"@ {
        if method == "POST"@ {
            Ok(Route::SignUp)
        } else {
            Err(Error::Status(404))
        }
    } else {
        Ok(Route::NotFound)
    }
}

/// The main router: picks the handler of a path after its method filter.
pub fn route(path: &str, method: &str) -> (r: Result<Route, Error>)
    ensures
        r == spec_route(path@, method@),
{
    if same_text(path, "/post/get_post") {
        Get.filter(Route::GetPost, method)
    } else if same_text(path, "/post/create_post") {
        Post.filter(Route::CreatePost, method)
    } else if same_text(path, "/user/login") {
        Post.filter(Route::Login, method)
    } else if same_text(path, "/user/signup") {
        Post.filter(Route::SignUp, method)
    } else {
        Ok(Route::NotFound)
    }
}

/// The outer router: an OPTIONS request is a CORS preflight whatever its
/// path; every other request goes through the main router.
pub fn dispatch(path: &str, method: &str) -> (r: Result<Route, Error>)
    ensures
        method@ == "OPTIONS"@ ==> r == Ok::<Route, Error>(Route::Preflight),
        method@ != "OPTIONS"@ ==> r == spec_route(path@, method@),
{
    if same_text(method, "OPTIONS") {
        Ok(Route::Preflight)
    } else {
        route(path, method)
    }
}

/// The status the router answers with once a handler is done: the
/// handler's own status, or the status of its error.
pub open spec fn spec_final_status(outcome: Result<u16, Error>) -> u16 {
    match outcome {
        Ok(status) => status,
        Err(e) => spec_status(e),
    }
}

/// Turns a handler's outcome into the status of the response.
pub fn final_status(outcome: Result<u16, Error>) -> (status: u16)
    ensures
        status == spec_final_status(outcome),
{
    match outcome {
        Ok(status) => status,
        Err(e) => e.status(),
    }
}

/// The CORS headers that every response carries, the preflight's included.
pub fn cors_headers() -> (h: Vec<(&'static str, &'static str)>)
    ensures
        h@ == seq![(ALLOW_ORIGIN, CORS), (ALLOW_HEADERS, ALLOWED_HEADERS)],
{
    let mut h = Vec::new();
    h.push((ALLOW_ORIGIN, CORS));
    h.push((ALLOW_HEADERS, ALLOWED_HEADERS));
    h
}

/// Answers requests to unknown paths.
pub struct NotFound;

impl NotFound {
    /// An unknown path is answered with an empty 404 response.
    pub fn handle(self) -> (r: Result<u16, Error>)
        ensures
            r == Ok::<u16, Error>(404),
    {
        Ok(404)
    }
}

/// Each handler is reached by exactly one path and one method: GET on
/// `/post/get_post`, POST on `/post/create_post`, `/user/login` and
/// `/user/signup`.
pub proof fn lemma_routes(path: Seq<char>, method: Seq<char>)
    ensures
        spec_route(path, method) == Ok::<Route, Error>(Route::GetPost) <==> (path
            == "/post/get_post"@ && method == "GET"@),
        spec_route(path, method) == Ok::<Route, Error>(Route::CreatePost) <==> (path
            == "/post/create_post"@ && method == "POST"@),
        spec_route(path, method) == Ok::<Route, Error>(Route::Login) <==> (path == "/user/login"@
            && method == "POST"@),
        spec_route(path, method) == Ok::<Route, Error>(Route::SignUp) <==> (path
            == "/user/signup"@ && method == "POST"@),
{
    reveal_strlit("/post/get_post");
    reveal_strlit("/post/create_post");
    reveal_strlit("/user/login");
    reveal_strlit("/user/signup");
    assert("/post/get_post"@.len() == 14);
    assert("/post/create_post"@.len() == 17);
    assert("/user/login"@.len() == 11);
    assert("/user/signup"@.len() == 12);
    assert("/post/get_post"@ != "/post/create_post"@);
    assert("/post/get_post"@ != "/user/login"@);
    assert("/post/get_post"@ != "/user/signup"@);
    assert("/post/create_post"@ != "/user/login"@);
    assert("/post/create_post"@ != "/user/signup"@);
    assert("/user/login"@ != "/user/signup"@);
}

/// A request on a path the main router does not know ends in 404, whatever
/// its method but OPTIONS.
pub proof fn lemma_unknown_path_is_404(path: Seq<char>, method: Seq<char>)
    requires
        path != "/post/get_post"@,
        path != "/post/create_post"@,
        path != "/user/login"@,
        path != "/user/signup"@,
    ensures
        spec_route(path, method) == Ok::<Route, Error>(Route::NotFound),
{
}

/// A known path asked with the wrong method ends in 404 as well.
pub proof fn lemma_wrong_method_is_404(path: Seq<char>, method: Seq<char>)
    requires
        spec_route(path, method) is Err,
    ensures
        spec_final_status(Err(spec_route(path, method)->Err_0)) == 404,
{
}

} // verus!
