use mystu::comment::{
    CreateComment, CreateCommentAction, CreateCommentEvent, CreateCommentParam, CreateCommentState,
};
use mystu::error::Error;
use mystu::jwt::{encode, Key, LoginPayload, ACCESS_DURATION, REFRESH_DURATION};
use mystu::post::{CreatePost, CreatePostAction, CreatePostEvent, CreatePostParam, CreatePostState};
use mystu::tool::CHARSET;
use mystu::user::{
    Email, Login, LoginAction, LoginEvent, LoginState, Refresh, RefreshAction, RefreshEvent,
    RefreshState, SignUp, SignUpAction, SignUpEvent, SignUpParam, SignUpState, User, VerifyEmail,
    VerifyEmailAction, VerifyEmailEvent, VerifyEmailState, CODE_TTL,
};

const PAYLOAD: &str = r#"{"email":"a@stu.edu.cn","username":"alice","role":1}"#;

fn now() -> u64 {
    std::time::SystemTime::now()
        .duration_since(std::time::UNIX_EPOCH)
        .unwrap()
        .as_secs()
}

fn key() -> Key {
    Key::new(b"access".to_vec(), b"refresh".to_vec(), b"signup".to_vec())
}

fn alice() -> LoginPayload {
    LoginPayload { email: "a@stu.edu.cn".into(), username: "alice".into(), role: 1 }
}

#[test]
fn create_post_runs_to_the_insertion() {
    let k = key();
    let token = encode(PAYLOAD, b"access", ACCESS_DURATION, now()).unwrap();
    let (s, a) = CreatePost.step(&k, CreatePostState::Start, CreatePostEvent::Authorization(Some(token.into_bytes())));
    match a {
        CreatePostAction::ReadClaims(claims) => assert!(claims.contains(PAYLOAD)),
        _ => panic!("expected the claims to be read"),
    }
    let (s, a) = CreatePost.step(&k, s, CreatePostEvent::Payload(Some(alice())));
    assert!(matches!(a, CreatePostAction::ReadBody));
    let body = CreatePostParam { author: "alice".into(), content: "hi".into() };
    let (s, a) = CreatePost.step(&k, s, CreatePostEvent::Body(Some(body)));
    match a {
        CreatePostAction::Insert(p) => assert_eq!(p.content, "hi"),
        _ => panic!("expected an insertion"),
    }
    let (s, a) = CreatePost.step(&k, s, CreatePostEvent::Inserted(7));
    assert!(matches!(a, CreatePostAction::Reply(Ok(7))));
    assert!(matches!(s, CreatePostState::Done));
}

#[test]
fn create_post_refusals() {
    let k = key();
    let (_, a) = CreatePost.step(&k, CreatePostState::Start, CreatePostEvent::Authorization(None));
    assert!(matches!(a, CreatePostAction::Reply(Err(Error::Status(401)))));
    let token = encode(PAYLOAD, b"refresh", ACCESS_DURATION, now()).unwrap();
    let (_, a) = CreatePost.step(&k, CreatePostState::Start, CreatePostEvent::Authorization(Some(token.into_bytes())));
    assert!(matches!(a, CreatePostAction::Reply(Err(Error::Status(401)))));
    let (_, a) = CreatePost.step(&k, CreatePostState::Claims, CreatePostEvent::Payload(None));
    assert!(matches!(a, CreatePostAction::Reply(Err(Error::Status(401)))));
    let body = CreatePostParam { author: "bob".into(), content: "hi".into() };
    let (_, a) = CreatePost.step(&k, CreatePostState::Body(alice()), CreatePostEvent::Body(Some(body)));
    assert!(matches!(a, CreatePostAction::Reply(Err(Error::Status(401)))));
    let (_, a) = CreatePost.step(&k, CreatePostState::Insert, CreatePostEvent::Failed(Error::Status(531)));
    assert!(matches!(a, CreatePostAction::Reply(Err(Error::Status(531)))));
}

#[test]
fn create_comment_runs_to_the_insertion() {
    let k = key();
    let token = encode(PAYLOAD, b"access", ACCESS_DURATION, now()).unwrap();
    let (s, a) = CreateComment.step(&k, CreateCommentState::Start, CreateCommentEvent::Authorization(Some(token.into_bytes())));
    assert!(matches!(a, CreateCommentAction::ReadClaims(_)));
    let (s, a) = CreateComment.step(&k, s, CreateCommentEvent::Payload(Some(alice())));
    assert!(matches!(a, CreateCommentAction::ReadBody));
    let body = CreateCommentParam {
        post_id: 1,
        parent_id: None,
        reply_to: None,
        username: "alice".into(),
        content: "first".into(),
    };
    let (s, a) = CreateComment.step(&k, s, CreateCommentEvent::Body(Some(body)));
    assert!(matches!(a, CreateCommentAction::Insert(_)));
    let (_, a) = CreateComment.step(&k, s, CreateCommentEvent::Inserted(3));
    assert!(matches!(a, CreateCommentAction::Reply(Ok(3))));
    let (_, a) = CreateComment.step(&k, CreateCommentState::Body(alice()), CreateCommentEvent::Body(None));
    assert!(matches!(a, CreateCommentAction::Reply(Err(Error::Status(401)))));
}

/// Runs a login to its end and returns the tokens.
fn log_in(k: &Key, t: u64) -> (String, String) {
    let user = User { email: "a@stu.edu.cn".into(), password: "pw".into() };
    let (s, a) = Login.step(k, LoginState::Start, LoginEvent::Body(Some(user)));
    assert!(matches!(a, LoginAction::FindUser(_)));
    let (s, a) = Login.step(k, s, LoginEvent::Found(Some(alice())));
    assert!(matches!(a, LoginAction::Serialize(_)));
    let (s, a) = Login.step(k, s, LoginEvent::Serialized(Some(PAYLOAD.into()), t));
    let record = match a {
        LoginAction::Record { key, ttl } => {
            assert_eq!(ttl, REFRESH_DURATION);
            key
        }
        _ => panic!("expected the refresh token to be recorded"),
    };
    let (_, a) = Login.step(k, s, LoginEvent::Recorded);
    match a {
        LoginAction::Reply(Ok(token)) => {
            let n = token.refresh_token.len();
            assert_eq!(record, &token.refresh_token[n - 16..]);
            (token.refresh_token, token.access_token)
        }
        _ => panic!("expected the tokens"),
    }
}

#[test]
fn login_runs_to_the_tokens() {
    let k = key();
    let (refresh, access) = log_in(&k, now());
    assert!(mystu::jwt::decode(refresh.as_bytes(), b"refresh").is_ok());
    assert!(mystu::jwt::decode(access.as_bytes(), b"access").is_ok());
}

#[test]
fn login_refusals() {
    let k = key();
    let (_, a) = Login.step(&k, LoginState::Start, LoginEvent::Body(None));
    assert!(matches!(a, LoginAction::Reply(Err(Error::NoCare))));
    let (_, a) = Login.step(&k, LoginState::Account, LoginEvent::Found(None));
    assert!(matches!(a, LoginAction::Reply(Err(Error::Status(701)))));
    let (_, a) = Login.step(&k, LoginState::Session, LoginEvent::Serialized(None, now()));
    assert!(matches!(a, LoginAction::Reply(Err(Error::Status(533)))));
    let (_, a) = Login.step(&k, LoginState::Account, LoginEvent::Failed(Error::Status(531)));
    assert!(matches!(a, LoginAction::Reply(Err(Error::Status(531)))));
}

#[test]
fn refresh_runs_to_new_tokens() {
    let k = key();
    let t = now();
    let (refresh, _) = log_in(&k, t);
    let n = refresh.len();
    let (s, a) = Refresh.step(&k, RefreshState::Start, RefreshEvent::Authorization(Some(refresh.clone().into_bytes())));
    assert!(matches!(a, RefreshAction::ReadClaims(_)));
    let (s, a) = Refresh.step(&k, s, RefreshEvent::Payload(Some(alice())));
    match a {
        RefreshAction::Take(key) => assert_eq!(key, &refresh[n - 16..]),
        _ => panic!("expected the record to be taken"),
    }
    let (s, a) = Refresh.step(&k, s, RefreshEvent::Taken(Some(0)));
    assert!(matches!(a, RefreshAction::Serialize(_)));
    let (s, a) = Refresh.step(&k, s, RefreshEvent::Serialized(Some(PAYLOAD.into()), t + 1));
    assert!(matches!(a, RefreshAction::Store { ttl: REFRESH_DURATION, .. }));
    let (_, a) = Refresh.step(&k, s, RefreshEvent::Stored);
    match a {
        RefreshAction::Reply(Ok(token)) => assert_ne!(token.refresh_token, refresh),
        _ => panic!("expected new tokens"),
    }
}

#[test]
fn refresh_machine_refusals() {
    let k = key();
    let (_, a) = Refresh.step(&k, RefreshState::Start, RefreshEvent::Authorization(None));
    assert!(matches!(a, RefreshAction::Reply(Err(Error::Status(401)))));
    let (_, access) = log_in(&k, now());
    let (_, a) = Refresh.step(&k, RefreshState::Start, RefreshEvent::Authorization(Some(access.into_bytes())));
    assert!(matches!(a, RefreshAction::Reply(Err(Error::Status(401)))));
    let (_, a) = Refresh.step(&k, RefreshState::Claims("k".into()), RefreshEvent::Payload(None));
    assert!(matches!(a, RefreshAction::Reply(Err(Error::Status(401)))));
    let (_, a) = Refresh.step(&k, RefreshState::Take(alice()), RefreshEvent::Taken(None));
    assert!(matches!(a, RefreshAction::Reply(Err(Error::Status(701)))));
}

fn sign_up_param(email: &str, code: &str) -> SignUpParam {
    SignUpParam {
        email: email.into(),
        username: "alice".into(),
        password: "pw".into(),
        verify_code: code.into(),
    }
}

#[test]
fn sign_up_runs_to_the_insertion() {
    let (s, a) = SignUp.step(SignUpState::Start, SignUpEvent::Body(Some(sign_up_param("21abc@stu.edu.cn", "Ab3dE9xZ"))));
    match a {
        SignUpAction::FindEmail(email) => assert_eq!(email, "21abc@stu.edu.cn"),
        _ => panic!("expected the address to be looked up"),
    }
    let (s, a) = SignUp.step(s, SignUpEvent::Exists(false));
    match a {
        SignUpAction::ReadCode(key) => assert_eq!(key, "21abc@stu.edu.cn"),
        _ => panic!("expected the code to be read"),
    }
    let (s, a) = SignUp.step(s, SignUpEvent::StoredCode(Some("Ab3dE9xZ".into())));
    assert!(matches!(a, SignUpAction::Insert(_)));
    let (_, a) = SignUp.step(s, SignUpEvent::Inserted(-1));
    assert!(matches!(a, SignUpAction::Reply(Ok(-1))));
}

#[test]
fn sign_up_refusals() {
    let (_, a) = SignUp.step(SignUpState::Start, SignUpEvent::Body(None));
    assert!(matches!(a, SignUpAction::Reply(Err(Error::NoCare))));
    let (_, a) = SignUp.step(SignUpState::Start, SignUpEvent::Body(Some(sign_up_param("21abcdef@qq.com", "x"))));
    assert!(matches!(a, SignUpAction::Reply(Err(Error::Status(701)))));
    let (_, a) = SignUp.step(SignUpState::Start, SignUpEvent::Body(Some(sign_up_param("a@b.cn", "x"))));
    assert!(matches!(a, SignUpAction::Reply(Err(Error::Status(701)))));
    let (_, a) = SignUp.step(SignUpState::Registered(sign_up_param("21abc@stu.edu.cn", "x")), SignUpEvent::Exists(true));
    assert!(matches!(a, SignUpAction::Reply(Err(Error::Status(702)))));
    let (_, a) = SignUp.step(SignUpState::Code(sign_up_param("21abc@stu.edu.cn", "x")), SignUpEvent::StoredCode(None));
    assert!(matches!(a, SignUpAction::Reply(Err(Error::Status(703)))));
    let (_, a) = SignUp.step(SignUpState::Code(sign_up_param("21abc@stu.edu.cn", "x")), SignUpEvent::StoredCode(Some("y".into())));
    assert!(matches!(a, SignUpAction::Reply(Err(Error::Status(703)))));
}

#[test]
fn verify_email_runs_to_the_mail() {
    let query = Email { email: "2021abcd@stu.edu.cn".into() };
    let (s, a) = VerifyEmail.step(VerifyEmailState::Start, VerifyEmailEvent::Query(Some(query)));
    assert!(matches!(a, VerifyEmailAction::FindEmail(_)));
    let (s, a) = VerifyEmail.step(s, VerifyEmailEvent::Exists(false));
    let code = match a {
        VerifyEmailAction::Store { key, value, ttl } => {
            assert_eq!(key, "2021abcd@stu.edu.cn");
            assert_eq!(ttl, CODE_TTL);
            assert_eq!(ttl, 300);
            assert_eq!(value.len(), 8);
            assert!(value.chars().all(|c| CHARSET.contains(c)));
            value
        }
        _ => panic!("expected the code to be stored"),
    };
    let (s, a) = VerifyEmail.step(s, VerifyEmailEvent::Stored);
    match a {
        VerifyEmailAction::Send { to, code: sent } => {
            assert_eq!(to, "2021abcd@stu.edu.cn");
            assert_eq!(sent, code);
        }
        _ => panic!("expected the mail"),
    }
    let (_, a) = VerifyEmail.step(s, VerifyEmailEvent::Sent(true));
    assert!(matches!(a, VerifyEmailAction::Reply(Ok(()))));
}

#[test]
fn verify_email_refusals() {
    let (_, a) = VerifyEmail.step(VerifyEmailState::Start, VerifyEmailEvent::Query(None));
    assert!(matches!(a, VerifyEmailAction::Reply(Err(Error::NoCare))));
    let short = Email { email: "a@stu.edu.cn".into() };
    let (_, a) = VerifyEmail.step(VerifyEmailState::Start, VerifyEmailEvent::Query(Some(short)));
    assert!(matches!(a, VerifyEmailAction::Reply(Err(Error::Status(401)))));
    let short_other = Email { email: "a@b.cn".into() };
    let (_, a) = VerifyEmail.step(VerifyEmailState::Start, VerifyEmailEvent::Query(Some(short_other)));
    assert!(matches!(a, VerifyEmailAction::Reply(Err(Error::Status(701)))));
    let other = Email { email: "2021abcd@qq.com.cn".into() };
    let (_, a) = VerifyEmail.step(VerifyEmailState::Start, VerifyEmailEvent::Query(Some(other)));
    assert!(matches!(a, VerifyEmailAction::Reply(Err(Error::Status(701)))));
    let (_, a) = VerifyEmail.step(VerifyEmailState::Registered("x".into()), VerifyEmailEvent::Exists(true));
    assert!(matches!(a, VerifyEmailAction::Reply(Err(Error::Status(702)))));
    let (_, a) = VerifyEmail.step(VerifyEmailState::Send, VerifyEmailEvent::Sent(false));
    assert!(matches!(a, VerifyEmailAction::Reply(Err(Error::Status(534)))));
}

#[test]
fn mailed_code_lets_the_address_sign_up() {
    let email = "2021abcd@stu.edu.cn";
    let (s, _) = VerifyEmail.step(
        VerifyEmailState::Start,
        VerifyEmailEvent::Query(Some(Email { email: email.into() })),
    );
    let (_, a) = VerifyEmail.step(s, VerifyEmailEvent::Exists(false));
    let (redis_key, redis_value) = match a {
        VerifyEmailAction::Store { key, value, .. } => (key, value),
        _ => panic!("expected the code to be stored"),
    };
    let (s, a) = SignUp.step(
        SignUpState::Start,
        SignUpEvent::Body(Some(sign_up_param(email, &redis_value))),
    );
    assert!(matches!(a, SignUpAction::FindEmail(_)));
    let (s, a) = SignUp.step(s, SignUpEvent::Exists(false));
    match a {
        SignUpAction::ReadCode(key) => assert_eq!(key, redis_key),
        _ => panic!("expected the code to be read"),
    }
    let (_, a) = SignUp.step(s, SignUpEvent::StoredCode(Some(redis_value)));
    assert!(matches!(a, SignUpAction::Insert(_)));
}
