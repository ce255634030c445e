use mystu::error::Error;
use mystu::text::{decimal, header_text, same_text};

#[test]
fn default_error_is_404() {
    assert_eq!(Error::default(), Error::Status(404));
    assert_eq!(Error::default().status(), 404);
}

#[test]
fn status_of_errors() {
    assert_eq!(Error::NoCare.status(), 404);
    assert_eq!(Error::Status(701).status(), 701);
}

#[test]
fn error_text() {
    assert_eq!(Error::NoCare.to_string(), "Error::NoCare");
    assert_eq!(Error::Status(532).to_string(), "Error::Status(532)");
    assert_eq!(Error::Status(0).to_string(), "Error::Status(0)");
}

#[test]
fn database_errors_are_531() {
    assert_eq!(Error::from(sqlx::Error::RowNotFound), Error::Status(531));
}

#[test]
fn redis_errors_are_532() {
    let e = redis::RedisError::from((redis::ErrorKind::IoError, "connection refused"));
    assert_eq!(Error::from(e), Error::Status(532));
}

#[test]
fn decimal_rendering() {
    assert_eq!(decimal(0), "0");
    assert_eq!(decimal(7), "7");
    assert_eq!(decimal(10), "10");
    assert_eq!(decimal(1234567890), "1234567890");
    assert_eq!(decimal(u64::MAX), "18446744073709551615");
}

#[test]
fn comparing_texts() {
    assert!(same_text("GET", "GET"));
    assert!(!same_text("GET", "GE"));
    assert!(!same_text("GET", "get"));
    assert!(same_text("", ""));
}

#[test]
fn header_values_that_read_as_text() {
    assert_eq!(header_text(b"Bearer a.b.c"), Some("Bearer a.b.c"));
    assert_eq!(header_text(b"tab\there"), Some("tab\there"));
    assert_eq!(header_text(b""), Some(""));
}

#[test]
fn header_values_that_do_not_read_as_text() {
    assert_eq!(header_text(&[0x7f]), None);
    assert_eq!(header_text(b"line\nbreak"), None);
    assert_eq!(header_text("caf\u{e9}".as_bytes()), None);
    assert_eq!(header_text(&[0xff, 0xfe]), None);
}
