use vstd::prelude::*;

use crate::error::Error;
use crate::jwt::{decode_authorization, decode_ensures, Key, LoginPayload};

verus! {

/// Creates a post for the author named in the access token.
///
/// * no token, a bad token, no body or another author - 401
/// * otherwise the new post's id (-1 where nothing was inserted)
pub struct CreatePost;

/// The body of a post creation.
pub struct CreatePostParam {
    pub author: String,
    pub content: String,
}

impl CreatePost {
    /// Only the user the access token speaks for may post under their own
    /// name: a missing body, or one naming another author, is answered with
    /// 401; otherwise the body is handed on unchanged.
    pub fn authorize(&self, payload: &LoginPayload, param: Option<CreatePostParam>) -> (r: Result<
        CreatePostParam,
        Error,
    >)
        ensures
            param is None ==> r == Err::<CreatePostParam, Error>(Error::Status(401)),
            param matches Some(p) ==> (if p.author@ == payload.username@ {
                r == Ok::<CreatePostParam, Error>(p)
            } else {
                r == Err::<CreatePostParam, Error>(Error::Status(401))
            }),
    {
        match param {
            Some(p) => {
                if payload.username == p.author {
                    Ok(p)
                } else {
                    Err(Error::Status(401))
                }
            },
            None => Err(Error::Status(401)),
        }
    }
}

/// Where a post creation stands.
pub enum CreatePostState {
    /// Nothing read yet.
    Start,
    /// The token checked out; its claims are being read.
    Claims,
    /// The user is known; the body is being read.
    Body(LoginPayload),
    /// The post is being inserted.
    Insert,
    /// The reply is out.
    Done,
}

/// What the server learnt since the last step of a post creation.
pub enum CreatePostEvent {
    /// The request's `Authorization` header, if any.
    Authorization(Option<Vec<u8>>),
    /// The token's payload, where its claims read as one.
    Payload(Option<LoginPayload>),
    /// The request's body, where it reads as one.
    Body(Option<CreatePostParam>),
    /// The id the database answered.
    Inserted(i32),
    /// The database failed.
    Failed(Error),
}

/// What the server is to do next for a post creation.
pub enum CreatePostAction {
    /// Read the claims text as claims of a login payload.
    ReadClaims(String),
    /// Read the request's body.
    ReadBody,
    /// Insert the post.
    Insert(CreatePostParam),
    /// Answer the request.
    Reply(Result<i32, Error>),
}

/// The events a post creation expects in each state.
pub open spec fn create_post_accepts(state: CreatePostState, event: CreatePostEvent) -> bool {
    match (state, event) {
        (_, CreatePostEvent::Failed(_)) => true,
        (CreatePostState::Start, CreatePostEvent::Authorization(_)) => true,
        (CreatePostState::Claims, CreatePostEvent::Payload(_)) => true,
        (CreatePostState::Body(_), CreatePostEvent::Body(_)) => true,
        (CreatePostState::Insert, CreatePostEvent::Inserted(_)) => true,
        _ => false,
    }
}

/// One step of a post creation: the token comes first (401 without one or
/// for a bad one), then its payload (401 where it does not read), then the
/// body, which only the token's user may send (401), then the insertion,
/// whose id or failure is the answer.
pub open spec fn create_post_step(
    key: Key,
    state: CreatePostState,
    event: CreatePostEvent,
    r: (CreatePostState, CreatePostAction),
) -> bool {
    match (state, event) {
        (_, CreatePostEvent::Failed(e)) => r == (CreatePostState::Done, CreatePostAction::Reply(Err(e))),
        (CreatePostState::Start, CreatePostEvent::Authorization(header)) => match header {
            None => r == (CreatePostState::Done, CreatePostAction::Reply(Err(Error::Status(401)))),
            Some(token) => match r {
                (CreatePostState::Claims, CreatePostAction::ReadClaims(claims)) => decode_ensures(
                    token@,
                    key.access@,
                    Ok(claims),
                ),
                (CreatePostState::Done, CreatePostAction::Reply(Err(e))) => decode_ensures(
                    token@,
                    key.access@,
                    Err(e),
                ),
                _ => false,
            },
        },
        (CreatePostState::Claims, CreatePostEvent::Payload(payload)) => match payload {
            None => r == (CreatePostState::Done, CreatePostAction::Reply(Err(Error::Status(401)))),
            Some(p) => r == (CreatePostState::Body(p), CreatePostAction::ReadBody),
        },
        (CreatePostState::Body(p), CreatePostEvent::Body(body)) => match body {
            Some(b) if b.author@ == p.username@ => r == (
                CreatePostState::Insert,
                CreatePostAction::Insert(b),
            ),
            _ => r == (CreatePostState::Done, CreatePostAction::Reply(Err(Error::Status(401)))),
        },
        (CreatePostState::Insert, CreatePostEvent::Inserted(id)) => r == (
            CreatePostState::Done,
            CreatePostAction::Reply(Ok(id)),
        ),
        _ => false,
    }
}

impl CreatePost {
    /// Takes the post creation one step further.
    pub fn step(&self, key: &Key, state: CreatePostState, event: CreatePostEvent) -> (r: (
        CreatePostState,
        CreatePostAction,
    ))
        requires
            create_post_accepts(state, event),
        ensures
            create_post_step(*key, state, event, r),
    {
        match (state, event) {
            (_, CreatePostEvent::Failed(e)) => (CreatePostState::Done, CreatePostAction::Reply(Err(e))),
            (CreatePostState::Start, CreatePostEvent::Authorization(header)) => {
                let token = match &header {
                    Some(t) => Some(t.as_slice()),
                    None => None,
                };
                match decode_authorization(token, key.access_key()) {
                    Ok(claims) => (CreatePostState::Claims, CreatePostAction::ReadClaims(claims)),
                    Err(e) => (CreatePostState::Done, CreatePostAction::Reply(Err(e))),
                }
            },
            (CreatePostState::Claims, CreatePostEvent::Payload(payload)) => match payload {
                Some(p) => (CreatePostState::Body(p), CreatePostAction::ReadBody),
                None => (CreatePostState::Done, CreatePostAction::Reply(Err(Error::Status(401)))),
            },
            (CreatePostState::Body(p), CreatePostEvent::Body(body)) => match self.authorize(&p, body) {
                Ok(param) => (CreatePostState::Insert, CreatePostAction::Insert(param)),
                Err(e) => (CreatePostState::Done, CreatePostAction::Reply(Err(e))),
            },
            (_, CreatePostEvent::Inserted(id)) => (CreatePostState::Done, CreatePostAction::Reply(Ok(id))),
            _ => (CreatePostState::Done, CreatePostAction::Reply(Err(Error::NoCare))),
        }
    }
}

/// A post is inserted only under the name of the user its access token
/// speaks for.
pub proof fn lemma_posts_only_under_own_name(
    key: Key,
    state: CreatePostState,
    event: CreatePostEvent,
    r: (CreatePostState, CreatePostAction),
)
    requires
        create_post_step(key, state, event, r),
        r.1 is Insert,
    ensures
        state matches CreatePostState::Body(p) && r.1->Insert_0.author@ == p.username@,
{
}

/// A post creation inserts exactly the body the user sent, author and text
/// unchanged, and only from a body whose author is the token's user.
pub proof fn lemma_post_inserted_as_sent(
    key: Key,
    state: CreatePostState,
    event: CreatePostEvent,
    r: (CreatePostState, CreatePostAction),
)
    requires
        create_post_step(key, state, event, r),
        r.1 is Insert,
    ensures
        event matches CreatePostEvent::Body(Some(b)) && r.1->Insert_0 == b,
        state matches CreatePostState::Body(p) && r.1->Insert_0.author@ == p.username@,
{
}

/// A post creation's refusals, all 401: no `Authorization` header, claims
/// that do not read as a payload, no body, or a body naming another user
/// than the token's; and an inserted id is the answer.
pub proof fn lemma_post_refusals(
    key: Key,
    payload: LoginPayload,
    body: Option<CreatePostParam>,
    id: i32,
    r1: (CreatePostState, CreatePostAction),
    r2: (CreatePostState, CreatePostAction),
    r3: (CreatePostState, CreatePostAction),
    r4: (CreatePostState, CreatePostAction),
)
    requires
        create_post_step(key, CreatePostState::Start, CreatePostEvent::Authorization(None), r1),
        create_post_step(key, CreatePostState::Claims, CreatePostEvent::Payload(None), r2),
        create_post_step(key, CreatePostState::Body(payload), CreatePostEvent::Body(body), r3),
        create_post_step(key, CreatePostState::Insert, CreatePostEvent::Inserted(id), r4),
    ensures
        r1.1 == CreatePostAction::Reply(Err(Error::Status(401))),
        r2.1 == CreatePostAction::Reply(Err(Error::Status(401))),
        !(body matches Some(b) && b.author@ == payload.username@) ==> r3.1 == CreatePostAction::Reply(
            Err(Error::Status(401)),
        ),
        r4.1 == CreatePostAction::Reply(Ok(id)),
{
}

/// Lists posts, a page at a time.
pub struct GetPost;

/// The query of a post listing: the id after which to list. The requested
/// limit is read but not used: a page always holds `PAGE_SIZE` posts.
pub struct GetPostParam {
    pub last_id: i32,
    pub limit: i16,
}

/// How many posts a page holds at most.
pub const PAGE_SIZE: i32 = 5;

/// What `get_post` asks the database for: the posts with an id above
/// `after`, at most `limit` of them.
pub struct PostPage {
    pub after: i32,
    pub limit: i32,
}

impl GetPost {
    /// A listing without a readable query is answered with `NoCare`;
    /// otherwise it asks for the page after `last_id`.
    pub fn page(&self, param: Option<GetPostParam>) -> (r: Result<PostPage, Error>)
        ensures
            param is None ==> r == Err::<PostPage, Error>(Error::NoCare),
            param matches Some(p) ==> r == Ok::<PostPage, Error>(
                PostPage { after: p.last_id, limit: PAGE_SIZE },
            ),
    {
        match param {
            Some(p) => Ok(PostPage { after: p.last_id, limit: PAGE_SIZE }),
            None => Err(Error::NoCare),
        }
    }
}

/// Likes a post.
pub struct Like;

/// The query of a like: the post's id.
pub struct LikeParam {
    pub id: i32,
}

/// Records a like; every like is acknowledged with 1.
pub fn like(param: LikeParam) -> (r: Result<i32, Error>)
    ensures
        r == Ok::<i32, Error>(1),
{
    Ok(1)
}

impl Like {
    /// A like without a readable query is answered with `NoCare`; otherwise
    /// it is recorded.
    pub fn handle(&self, param: Option<LikeParam>) -> (r: Result<i32, Error>)
        ensures
            param is None ==> r == Err::<i32, Error>(Error::NoCare),
            param is Some ==> r == Ok::<i32, Error>(1),
    {
        match param {
            Some(p) => like(p),
            None => Err(Error::NoCare),
        }
    }
}

} // verus!
