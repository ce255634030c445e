use vstd::prelude::*;

use crate::error::Error;
use crate::jwt::{decode_authorization, decode_ensures, Key, LoginPayload};

verus! {

/// Creates a comment, or a reply to a comment, for the user named in the
/// access token.
///
/// * no token, a bad token, no body or another user - 401
/// * otherwise the new comment's id
pub struct CreateComment;

/// The body of a comment creation; `parent_id` names the comment replied to.
pub struct CreateCommentParam {
    pub post_id: i32,
    pub parent_id: Option<i32>,
    pub reply_to: Option<String>,
    pub username: String,
    pub content: String,
}

impl CreateComment {
    /// Only the user the access token speaks for may comment under their own
    /// name: a missing body, or one naming another user, is answered with
    /// 401; otherwise the body is handed on unchanged.
    pub fn authorize(&self, payload: &LoginPayload, param: Option<CreateCommentParam>) -> (r:
        Result<CreateCommentParam, Error>)
        ensures
            param is None ==> r == Err::<CreateCommentParam, Error>(Error::Status(401)),
            param matches Some(p) ==> (if p.username@ == payload.username@ {
                r == Ok::<CreateCommentParam, Error>(p)
            } else {
                r == Err::<CreateCommentParam, Error>(Error::Status(401))
            }),
    {
        match param {
            Some(p) => {
                if payload.username == p.username {
                    Ok(p)
                } else {
                    Err(Error::Status(401))
                }
            },
            None => Err(Error::Status(401)),
        }
    }
}

/// Where a comment creation stands.
pub enum CreateCommentState {
    /// Nothing read yet.
    Start,
    /// The token checked out; its claims are being read.
    Claims,
    /// The user is known; the body is being read.
    Body(LoginPayload),
    /// The comment is being inserted.
    Insert,
    /// The reply is out.
    Done,
}

/// What the server learnt since the last step of a comment creation.
pub enum CreateCommentEvent {
    /// The request's `Authorization` header, if any.
    Authorization(Option<Vec<u8>>),
    /// The token's payload, where its claims read as one.
    Payload(Option<LoginPayload>),
    /// The request's body, where it reads as one.
    Body(Option<CreateCommentParam>),
    /// The id the database answered.
    Inserted(i32),
    /// The database failed.
    Failed(Error),
}

/// What the server is to do next for a comment creation.
pub enum CreateCommentAction {
    /// Read the claims text as claims of a login payload.
    ReadClaims(String),
    /// Read the request's body.
    ReadBody,
    /// Insert the comment.
    Insert(CreateCommentParam),
    /// Answer the request.
    Reply(Result<i32, Error>),
}

/// The events a comment creation expects in each state.
pub open spec fn create_comment_accepts(state: CreateCommentState, event: CreateCommentEvent) -> bool {
    match (state, event) {
        (_, CreateCommentEvent::Failed(_)) => true,
        (CreateCommentState::Start, CreateCommentEvent::Authorization(_)) => true,
        (CreateCommentState::Claims, CreateCommentEvent::Payload(_)) => true,
        (CreateCommentState::Body(_), CreateCommentEvent::Body(_)) => true,
        (CreateCommentState::Insert, CreateCommentEvent::Inserted(_)) => true,
        _ => false,
    }
}

/// One step of a comment creation: the token comes first (401 without one or
/// for a bad one), then its payload (401 where it does not read), then the
/// body, which only the token's user may send (401), then the insertion,
/// whose id or failure is the answer.
pub open spec fn create_comment_step(
    key: Key,
    state: CreateCommentState,
    event: CreateCommentEvent,
    r: (CreateCommentState, CreateCommentAction),
) -> bool {
    match (state, event) {
        (_, CreateCommentEvent::Failed(e)) => r == (CreateCommentState::Done, CreateCommentAction::Reply(Err(e))),
        (CreateCommentState::Start, CreateCommentEvent::Authorization(header)) => match header {
            None => r == (CreateCommentState::Done, CreateCommentAction::Reply(Err(Error::Status(401)))),
            Some(token) => match r {
                (CreateCommentState::Claims, CreateCommentAction::ReadClaims(claims)) => decode_ensures(
                    token@,
                    key.access@,
                    Ok(claims),
                ),
                (CreateCommentState::Done, CreateCommentAction::Reply(Err(e))) => decode_ensures(
                    token@,
                    key.access@,
                    Err(e),
                ),
                _ => false,
            },
        },
        (CreateCommentState::Claims, CreateCommentEvent::Payload(payload)) => match payload {
            None => r == (CreateCommentState::Done, CreateCommentAction::Reply(Err(Error::Status(401)))),
            Some(p) => r == (CreateCommentState::Body(p), CreateCommentAction::ReadBody),
        },
        (CreateCommentState::Body(p), CreateCommentEvent::Body(body)) => match body {
            Some(b) if b.username@ == p.username@ => r == (
                CreateCommentState::Insert,
                CreateCommentAction::Insert(b),
            ),
            _ => r == (CreateCommentState::Done, CreateCommentAction::Reply(Err(Error::Status(401)))),
        },
        (CreateCommentState::Insert, CreateCommentEvent::Inserted(id)) => r == (
            CreateCommentState::Done,
            CreateCommentAction::Reply(Ok(id)),
        ),
        _ => false,
    }
}

impl CreateComment {
    /// Takes the comment creation one step further.
    pub fn step(&self, key: &Key, state: CreateCommentState, event: CreateCommentEvent) -> (r: (
        CreateCommentState,
        CreateCommentAction,
    ))
        requires
            create_comment_accepts(state, event),
        ensures
            create_comment_step(*key, state, event, r),
    {
        match (state, event) {
            (_, CreateCommentEvent::Failed(e)) => (CreateCommentState::Done, CreateCommentAction::Reply(Err(e))),
            (CreateCommentState::Start, CreateCommentEvent::Authorization(header)) => {
                let token = match &header {
                    Some(t) => Some(t.as_slice()),
                    None => None,
                };
                match decode_authorization(token, key.access_key()) {
                    Ok(claims) => (CreateCommentState::Claims, CreateCommentAction::ReadClaims(claims)),
                    Err(e) => (CreateCommentState::Done, CreateCommentAction::Reply(Err(e))),
                }
            },
            (CreateCommentState::Claims, CreateCommentEvent::Payload(payload)) => match payload {
                Some(p) => (CreateCommentState::Body(p), CreateCommentAction::ReadBody),
                None => (CreateCommentState::Done, CreateCommentAction::Reply(Err(Error::Status(401)))),
            },
            (CreateCommentState::Body(p), CreateCommentEvent::Body(body)) => match self.authorize(&p, body) {
                Ok(param) => (CreateCommentState::Insert, CreateCommentAction::Insert(param)),
                Err(e) => (CreateCommentState::Done, CreateCommentAction::Reply(Err(e))),
            },
            (_, CreateCommentEvent::Inserted(id)) => (CreateCommentState::Done, CreateCommentAction::Reply(Ok(id))),
            _ => (CreateCommentState::Done, CreateCommentAction::Reply(Err(Error::NoCare))),
        }
    }
}

/// A comment is inserted only under the name of the user its access token
/// speaks for.
pub proof fn lemma_comments_only_under_own_name(
    key: Key,
    state: CreateCommentState,
    event: CreateCommentEvent,
    r: (CreateCommentState, CreateCommentAction),
)
    requires
        create_comment_step(key, state, event, r),
        r.1 is Insert,
    ensures
        state matches CreateCommentState::Body(p) && r.1->Insert_0.username@ == p.username@,
{
}

/// A comment creation inserts exactly the body the user sent: every field
/// of it (post, parent comment, addressee, user and text) reaches the
/// insertion unchanged, and only from a body whose user is the token's.
pub proof fn lemma_comment_inserted_as_sent(
    key: Key,
    state: CreateCommentState,
    event: CreateCommentEvent,
    r: (CreateCommentState, CreateCommentAction),
)
    requires
        create_comment_step(key, state, event, r),
        r.1 is Insert,
    ensures
        event matches CreateCommentEvent::Body(Some(b)) && r.1->Insert_0 == b,
        state matches CreateCommentState::Body(p) && r.1->Insert_0.username@ == p.username@,
{
}

/// A comment creation's refusals, all 401: no `Authorization` header, claims
/// that do not read as a payload, no body, or a body naming another user
/// than the token's; and an inserted id is the answer.
pub proof fn lemma_comment_refusals(
    key: Key,
    payload: LoginPayload,
    body: Option<CreateCommentParam>,
    id: i32,
    r1: (CreateCommentState, CreateCommentAction),
    r2: (CreateCommentState, CreateCommentAction),
    r3: (CreateCommentState, CreateCommentAction),
    r4: (CreateCommentState, CreateCommentAction),
)
    requires
        create_comment_step(key, CreateCommentState::Start, CreateCommentEvent::Authorization(None), r1),
        create_comment_step(key, CreateCommentState::Claims, CreateCommentEvent::Payload(None), r2),
        create_comment_step(key, CreateCommentState::Body(payload), CreateCommentEvent::Body(body), r3),
        create_comment_step(key, CreateCommentState::Insert, CreateCommentEvent::Inserted(id), r4),
    ensures
        r1.1 == CreateCommentAction::Reply(Err(Error::Status(401))),
        r2.1 == CreateCommentAction::Reply(Err(Error::Status(401))),
        !(body matches Some(b) && b.username@ == payload.username@) ==> r3.1 == CreateCommentAction::Reply(
            Err(Error::Status(401)),
        ),
        r4.1 == CreateCommentAction::Reply(Ok(id)),
{
}

/// Lists the comments of a post, or the replies to a comment.
pub struct GetComment;

/// The query of a comment listing.
pub struct GetCommentParam {
    pub post_id: i32,
    pub parent_id: Option<i32>,
    pub last_id: i32,
}

/// Which comments a listing reads: the top-level comments of a post, or the
/// replies to one of its comments; in both cases those with an id above
/// `last_id`, at most five.
#[derive(PartialEq, Eq, Structural, Debug, Clone, Copy)]
pub enum CommentQuery {
    OneLevel { post_id: i32, last_id: i32 },
    TwoLevel { post_id: i32, parent_id: i32, last_id: i32 },
}

/// The listing a query asks for.
pub open spec fn spec_comment_query(param: GetCommentParam) -> CommentQuery {
    match param.parent_id {
        Some(parent_id) => CommentQuery::TwoLevel {
            post_id: param.post_id,
            parent_id,
            last_id: param.last_id,
        },
        None => CommentQuery::OneLevel { post_id: param.post_id, last_id: param.last_id },
    }
}

/// A query naming a parent comment lists its replies; one without lists the
/// post's top-level comments.
pub fn comment_query(param: &GetCommentParam) -> (q: CommentQuery)
    ensures
        q == spec_comment_query(*param),
{
    match param.parent_id {
        Some(parent_id) => CommentQuery::TwoLevel {
            post_id: param.post_id,
            parent_id,
            last_id: param.last_id,
        },
        None => CommentQuery::OneLevel { post_id: param.post_id, last_id: param.last_id },
    }
}

/// A listing reads the replies to the named parent comment, or the
/// post's top-level comments where no parent is named, for the queried post
/// and after the queried id.
pub proof fn lemma_comment_query_fields(param: GetCommentParam)
    ensures
        match spec_comment_query(param) {
            CommentQuery::OneLevel { post_id, last_id } => param.parent_id is None && post_id
                == param.post_id && last_id == param.last_id,
            CommentQuery::TwoLevel { post_id, parent_id, last_id } => param.parent_id == Some(
                parent_id,
            ) && post_id == param.post_id && last_id == param.last_id,
        },
        param.parent_id is None <==> spec_comment_query(param) is OneLevel,
{
}

impl GetComment {
    /// A listing without a readable query is answered with `NoCare`;
    /// otherwise it reads what the query asks for.
    pub fn query(&self, param: Option<GetCommentParam>) -> (r: Result<CommentQuery, Error>)
        ensures
            param is None ==> r == Err::<CommentQuery, Error>(Error::NoCare),
            param matches Some(p) ==> r == Ok::<CommentQuery, Error>(spec_comment_query(p)),
    {
        match param {
            Some(p) => Ok(comment_query(&p)),
            None => Err(Error::NoCare),
        }
    }
}

} // verus!
