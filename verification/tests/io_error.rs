use grust_gio::error::{Error, Match};
use grust_gio::io_error::IOErrorEnum;
use grust_gio::quark::Quark;

fn io_error(code: i32) -> Error {
    Error::new(IOErrorEnum::error_domain(), code, "input/output error")
}

#[test]
fn known_code_is_known() {
    assert!(IOErrorEnum::from_error(&io_error(0)) == Match::Known(IOErrorEnum::Failed));
    assert!(IOErrorEnum::from_error(&io_error(1)) == Match::Known(IOErrorEnum::NotFound));
    assert!(IOErrorEnum::from_error(&io_error(2)) == Match::Known(IOErrorEnum::Exists));
}

#[test]
fn unknown_code_is_carried() {
    assert!(IOErrorEnum::from_error(&io_error(3)) == Match::Unknown(3));
    assert!(IOErrorEnum::from_error(&io_error(-1)) == Match::Unknown(-1));
    assert!(IOErrorEnum::from_error(&io_error(i32::MAX)) == Match::Unknown(i32::MAX));
    assert!(IOErrorEnum::from_error(&io_error(i32::MIN)) == Match::Unknown(i32::MIN));
}

#[test]
fn other_domain_is_not_in_domain() {
    let err = Error::new(Quark::from_str("g-file-error-quark"), 1, "no such file");
    assert!(IOErrorEnum::from_error(&err) == Match::NotInDomain);
    let err = Error::new(Quark::from_str(""), 0, "");
    assert!(IOErrorEnum::from_error(&err) == Match::NotInDomain);
    let err = Error::new(Quark::from_str("g-io-error-quark "), 2, "");
    assert!(IOErrorEnum::from_error(&err) == Match::NotInDomain);
}

#[test]
fn domain_decides_before_code() {
    let err = Error::new(Quark::from_str("g-spawn-error-quark"), 99, "");
    assert!(IOErrorEnum::from_error(&err) == Match::NotInDomain);
}

#[test]
fn error_domain_is_the_io_error_quark() {
    assert_eq!(IOErrorEnum::error_domain().as_str(), "g-io-error-quark");
    assert_eq!(IOErrorEnum::error_domain(), IOErrorEnum::error_domain());
    assert_ne!(IOErrorEnum::error_domain(), Quark::from_str("g-file-error-quark"));
}

#[test]
fn codes_are_the_native_numbers() {
    assert_eq!(IOErrorEnum::Failed.code(), 0);
    assert_eq!(IOErrorEnum::NotFound.code(), 1);
    assert_eq!(IOErrorEnum::Exists.code(), 2);
}

#[test]
fn value_from_number() {
    assert!(IOErrorEnum::from_i64(0) == Some(IOErrorEnum::Failed));
    assert!(IOErrorEnum::from_i64(1) == Some(IOErrorEnum::NotFound));
    assert!(IOErrorEnum::from_i64(2) == Some(IOErrorEnum::Exists));
    assert!(IOErrorEnum::from_i64(3).is_none());
    assert!(IOErrorEnum::from_i64(-1).is_none());
    assert!(IOErrorEnum::from_i64(i64::MAX).is_none());
    assert!(IOErrorEnum::from_i64(1 << 32).is_none());
}

#[test]
fn number_and_value_round_trip() {
    for v in [IOErrorEnum::Failed, IOErrorEnum::NotFound, IOErrorEnum::Exists] {
        assert!(IOErrorEnum::from_i64(v.code() as i64) == Some(v));
    }
}

#[test]
fn names_are_the_native_nicks() {
    assert_eq!(IOErrorEnum::Failed.name(), "failed");
    assert_eq!(IOErrorEnum::NotFound.name(), "not-found");
    assert_eq!(IOErrorEnum::Exists.name(), "exists");
}

#[test]
fn error_keeps_what_it_was_made_of() {
    let err = Error::new(Quark::from_str("g-io-error-quark"), 2, "file exists");
    let (domain, code) = err.key();
    assert_eq!(domain.as_str(), "g-io-error-quark");
    assert_eq!(code, 2);
    assert_eq!(err.message(), "file exists");
}

#[test]
fn quarks_are_equal_when_their_strings_are() {
    assert_eq!(Quark::from_str("a-domain"), Quark::from_str("a-domain"));
    assert_ne!(Quark::from_str("a-domain"), Quark::from_str("b-domain"));
    assert_ne!(Quark::from_str("a-domain"), Quark::from_str("a-domai"));
}
