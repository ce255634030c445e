use mystu::comment::{comment_query, CommentQuery, CreateComment, CreateCommentParam, GetComment, GetCommentParam};
use mystu::error::Error;
use mystu::jwt::LoginPayload;
use mystu::post::{like, CreatePost, CreatePostParam, GetPost, GetPostParam, Like, LikeParam, PAGE_SIZE};

fn alice() -> LoginPayload {
    LoginPayload { email: "a@stu.edu.cn".into(), username: "alice".into(), role: 1 }
}

#[test]
fn only_the_author_may_post() {
    let own = CreatePostParam { author: "alice".into(), content: "hi".into() };
    let p = CreatePost.authorize(&alice(), Some(own)).unwrap();
    assert_eq!(p.author, "alice");
    assert_eq!(p.content, "hi");
    let other = CreatePostParam { author: "bob".into(), content: "hi".into() };
    assert!(matches!(CreatePost.authorize(&alice(), Some(other)), Err(Error::Status(401))));
    assert!(matches!(CreatePost.authorize(&alice(), None), Err(Error::Status(401))));
}

#[test]
fn only_the_user_may_comment() {
    let own = CreateCommentParam {
        post_id: 3,
        parent_id: Some(9),
        reply_to: Some("bob".into()),
        username: "alice".into(),
        content: "hello".into(),
    };
    let c = CreateComment.authorize(&alice(), Some(own)).unwrap();
    assert_eq!(c.post_id, 3);
    assert_eq!(c.parent_id, Some(9));
    let other = CreateCommentParam {
        post_id: 3,
        parent_id: None,
        reply_to: None,
        username: "bob".into(),
        content: "hello".into(),
    };
    assert!(matches!(CreateComment.authorize(&alice(), Some(other)), Err(Error::Status(401))));
    assert!(matches!(CreateComment.authorize(&alice(), None), Err(Error::Status(401))));
}

#[test]
fn post_pages_ignore_the_requested_limit() {
    let page = GetPost.page(Some(GetPostParam { last_id: 7, limit: 50 })).unwrap();
    assert_eq!(page.after, 7);
    assert_eq!(page.limit, 5);
    assert_eq!(PAGE_SIZE, 5);
    assert!(matches!(GetPost.page(None), Err(Error::NoCare)));
}

#[test]
fn likes() {
    assert_eq!(like(LikeParam { id: 1 }), Ok(1));
    assert_eq!(Like.handle(Some(LikeParam { id: 4 })), Ok(1));
    assert_eq!(Like.handle(None), Err(Error::NoCare));
}

#[test]
fn comment_queries() {
    let top = GetCommentParam { post_id: 1, parent_id: None, last_id: 0 };
    assert_eq!(comment_query(&top), CommentQuery::OneLevel { post_id: 1, last_id: 0 });
    let replies = GetCommentParam { post_id: 1, parent_id: Some(12), last_id: 30 };
    assert_eq!(
        comment_query(&replies),
        CommentQuery::TwoLevel { post_id: 1, parent_id: 12, last_id: 30 }
    );
    assert_eq!(GetComment.query(None), Err(Error::NoCare));
    assert_eq!(
        GetComment.query(Some(GetCommentParam { post_id: 2, parent_id: None, last_id: 5 })),
        Ok(CommentQuery::OneLevel { post_id: 2, last_id: 5 })
    );
}
