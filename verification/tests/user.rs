use mystu::error::Error;
use mystu::jwt::{Key, LoginPayload, TokenFault, ACCESS_DURATION, REFRESH_DURATION};
use mystu::tool::{code_from_indices, random_code, CHARSET};
use mystu::user::{
    has_stu_suffix, open_session, refresh_outcome, status_key, Login, Refresh, SignUp, VerifyEmail,
};

const PAYLOAD: &str = r#"{"email":"a@stu.edu.cn","username":"alice","role":1}"#;

fn now() -> u64 {
    std::time::SystemTime::now()
        .duration_since(std::time::UNIX_EPOCH)
        .unwrap()
        .as_secs()
}

fn key() -> Key {
    Key::new(b"access".to_vec(), b"refresh".to_vec(), b"signup".to_vec())
}

#[test]
fn status_keys() {
    assert_eq!(status_key("abcdefghijklmnopqrstuvwxyz"), "klmnopqrstuvwxyz");
    assert_eq!(status_key("0123456789abcdef"), "0123456789abcdef");
    assert_eq!(status_key("short"), "short");
}

#[test]
fn session_tokens() {
    let t = now();
    let (token, record) = open_session(PAYLOAD, &key(), t).unwrap();
    let len = token.refresh_token.len();
    assert_eq!(record, &token.refresh_token[len - 16..]);
    let refresh = mystu::jwt::decode(token.refresh_token.as_bytes(), b"refresh").unwrap();
    assert_eq!(refresh, format!(r#"{{"payload":{},"exp":{}}}"#, PAYLOAD, t + REFRESH_DURATION));
    let access = mystu::jwt::decode(token.access_token.as_bytes(), b"access").unwrap();
    assert_eq!(access, format!(r#"{{"payload":{},"exp":{}}}"#, PAYLOAD, t + ACCESS_DURATION));
    assert!(mystu::jwt::decode(token.access_token.as_bytes(), b"refresh").is_err());
}

#[test]
fn unknown_account_is_701() {
    assert!(matches!(Login.account(None), Err(Error::Status(701))));
    let p = LoginPayload { email: "a@stu.edu.cn".into(), username: "alice".into(), role: 1 };
    assert_eq!(Login.account(Some(p)).unwrap().username, "alice");
}

#[test]
fn refresh_finds_the_login_record() {
    let k = key();
    let (token, record) = Login.session(PAYLOAD, &k, now()).unwrap();
    let (claims, looked_up) = Refresh.check_token(Some(token.refresh_token.as_bytes()), &k).unwrap();
    assert_eq!(looked_up, record);
    assert!(claims.starts_with(&format!(r#"{{"payload":{}"#, PAYLOAD)));
}

#[test]
fn refresh_refusals() {
    let k = key();
    assert_eq!(Refresh.check_token(None, &k), Err(Error::Status(401)));
    let (token, _) = Login.session(PAYLOAD, &k, now()).unwrap();
    assert_eq!(
        Refresh.check_token(Some(token.access_token.as_bytes()), &k),
        Err(Error::Status(401))
    );
    assert_eq!(Refresh.check_record(None), Err(Error::Status(701)));
    let (old, _) = Login.session(PAYLOAD, &k, 1000).unwrap();
    assert_eq!(
        Refresh.check_token(Some(old.refresh_token.as_bytes()), &k),
        Err(Error::Status(701))
    );
    assert_eq!(Refresh.check_record(Some(0)), Ok(()));
}

#[test]
fn student_addresses() {
    assert!(has_stu_suffix("21abc@stu.edu.cn"));
    assert!(has_stu_suffix("@stu.edu.cn"));
    assert!(!has_stu_suffix("21abc@qq.com"));
    assert!(!has_stu_suffix("stu.edu.cn"));
    assert!(!has_stu_suffix("21abc@STU.edu.cn"));
}

#[test]
fn sign_up_checks() {
    assert_eq!(SignUp.check_email("21abc@stu.edu.cn"), Ok(()));
    assert_eq!(SignUp.check_email("21abcdef@qq.com"), Err(Error::Status(701)));
    assert_eq!(SignUp.check_email("a@b.cn"), Err(Error::Status(701)));
    assert_eq!(SignUp.check_email(""), Err(Error::Status(701)));
    assert_eq!(SignUp.check_unregistered(true), Err(Error::Status(702)));
    assert_eq!(SignUp.check_unregistered(false), Ok(()));
    let code = String::from("Ab3dE9xZ");
    assert_eq!(SignUp.check_code(None, &code), Err(Error::Status(703)));
    assert_eq!(SignUp.check_code(Some("Ab3dE9xY".into()), &code), Err(Error::Status(703)));
    assert_eq!(SignUp.check_code(Some("Ab3dE9xZ".into()), &code), Ok(()));
}

#[test]
fn verify_email_checks() {
    assert_eq!(VerifyEmail.check_email("a@stu.edu.cn"), Err(Error::Status(401)));
    assert_eq!(VerifyEmail.check_email("ab@stu.edu.cn"), Err(Error::Status(401)));
    assert_eq!(VerifyEmail.check_email("a@b.cn"), Err(Error::Status(701)));
    assert_eq!(VerifyEmail.check_email("21abcd@stu.edu.cn"), Ok(()));
    assert_eq!(VerifyEmail.check_email("21abcdefgh@qq.com"), Err(Error::Status(701)));
    assert_eq!(VerifyEmail.check_unregistered(true), Err(Error::Status(702)));
    assert_eq!(VerifyEmail.check_sent(false), Err(Error::Status(534)));
    assert_eq!(VerifyEmail.check_sent(true), Ok(()));
}

#[test]
fn verified_address_is_accepted_by_sign_up() {
    let email = "2021abcd@stu.edu.cn";
    assert_eq!(VerifyEmail.check_email(email), Ok(()));
    assert_eq!(SignUp.check_email(email), Ok(()));
}

#[test]
fn verification_codes() {
    for _ in 0..50 {
        let code = random_code();
        assert_eq!(code.chars().count(), 8);
        assert!(code.chars().all(|c| CHARSET.contains(c)));
    }
    assert_eq!(VerifyEmail.new_code().len(), 8);
}

#[test]
fn code_spelling() {
    assert_eq!(code_from_indices(&[0, 25, 26, 51, 52, 61]), "AZaz09");
    assert_eq!(code_from_indices(&[]), "");
}

#[test]
fn refresh_outcomes() {
    assert_eq!(
        refresh_outcome(Ok("claims".into()), "abcdefghijklmnopqrstuvwxyz"),
        Ok(("claims".to_string(), "klmnopqrstuvwxyz".to_string()))
    );
    assert_eq!(refresh_outcome(Err(TokenFault::Expired), "t"), Err(Error::Status(701)));
    assert_eq!(refresh_outcome(Err(TokenFault::Invalid), "t"), Err(Error::Status(401)));
}
