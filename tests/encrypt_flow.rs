use snailcrypt_cli::encrypt::{
    encrypt_exit_code, finish_encryption, prepare_encryption, prepare_encryption_now, EncryptError,
};
use snailcrypt_cli::lockdate::{check_lock_date, DateError, Instant};
use snailcrypt_cli::version::ProtocolVersion;

const PAST_DATE: &str = "2022-11-19T17:00:00+0100";

#[test]
fn encrypt_fail_lockdate() {
    let r = prepare_encryption_now(PAST_DATE, "", false);
    match r {
        Err(e) => {
            assert_eq!(
                format!("{}\n", e.message()),
                "Error: lock date \"2022-11-19T17:00:00+0100\" is in the past.\n"
            );
            assert!(matches!(e, EncryptError::DateInPast { .. }));
        },
        Ok(_) => panic!("a past lock date was accepted"),
    }
}

#[test]
fn past_date_accepted_with_force() {
    let plan = prepare_encryption_now(PAST_DATE, "", true).unwrap();
    assert_eq!(plan.version, ProtocolVersion::V1);
    assert_eq!(plan.lock_date.at, Instant { seconds: 1668873600, nanos: 0 });
    assert_eq!(plan.lock_date.offset_seconds, 3600);
}

#[test]
fn hint_selects_extended_version_for_plan() {
    let plan = prepare_encryption_now("2999-01-01T00:00:00+0000", "This is a small hint.", false).unwrap();
    assert_eq!(plan.version, ProtocolVersion::V2);
    assert_eq!(plan.lock_date.at, Instant { seconds: 32472144000, nanos: 0 });
    assert_eq!(plan.lock_date.offset_seconds, 0);
}

#[test]
fn future_date_accepted_without_force() {
    let plan = prepare_encryption_now("2999-01-01T00:00:00+0000", "", false).unwrap();
    assert_eq!(plan.version, ProtocolVersion::V1);
}

#[test]
fn lock_date_equal_to_now_is_in_the_past() {
    let now = Instant { seconds: 1668873600, nanos: 0 };
    let r = prepare_encryption(PAST_DATE, "", false, now);
    assert!(matches!(r, Err(EncryptError::DateInPast { .. })));
    let earlier = Instant { seconds: 1668873599, nanos: 999_999_999 };
    assert!(prepare_encryption(PAST_DATE, "", false, earlier).is_ok());
}

#[test]
fn unparseable_lock_date_is_refused_even_with_force() {
    let r = prepare_encryption_now("2022-11-19", "", true);
    match r {
        Err(e) => {
            assert_eq!(e.message(), "Error: unable to parse the lock date \"2022-11-19\"");
            assert!(matches!(e, EncryptError::UnparseableDate { .. }));
        },
        Ok(_) => panic!("an unparseable lock date was accepted"),
    }
}

#[test]
fn check_lock_date_formats_date_in_error() {
    let now = Instant { seconds: 1700000000, nanos: 0 };
    match check_lock_date("2022-11-19T17:00:00-0230", ProtocolVersion::V2, false, now) {
        Err(DateError::InPast { shown }) => assert_eq!(shown, "2022-11-19T17:00:00-0230"),
        _ => panic!("expected a date in the past"),
    }
}

#[test]
fn check_lock_date_before_and_after_now() {
    let now = Instant { seconds: 1700000000, nanos: 0 };
    assert!(check_lock_date(PAST_DATE, ProtocolVersion::V1, false, now).is_err());
    let d = check_lock_date(PAST_DATE, ProtocolVersion::V1, true, now).unwrap();
    assert_eq!(d.at.seconds, 1668873600);
}

#[test]
fn finish_passes_client_error_on() {
    let r = finish_encryption(Err(String::from("server refused")), false, false);
    match r {
        Err(e) => {
            assert_eq!(e.message(), "server refused");
            assert_eq!(encrypt_exit_code(&Err(e)), 1);
        },
        Ok(_) => panic!("a client error was lost"),
    }
}

#[test]
fn finish_writes_raw_ciphertext() {
    let r = finish_encryption(Ok(String::from("1:abc:def")), false, false);
    assert_eq!(r.as_ref().unwrap(), "1:abc:def");
    assert_eq!(encrypt_exit_code(&r), 0);
}

#[test]
fn finish_wraps_ciphertext_into_link() {
    let r = finish_encryption(Ok(String::from("1:ab c+d/e")), true, false);
    assert_eq!(r.unwrap(), "https://webapp.snailcrypt.com/timer.php?c=1%3Aab+c%2Bd%2Fe");
}

#[test]
fn finish_refuses_long_link_without_force() {
    let long = "a".repeat(9000);
    match finish_encryption(Ok(long.clone()), true, false) {
        Err(e) => {
            assert_eq!(e.message(), "Error: the generated URL is longer than 8000 characters");
            assert!(matches!(e, EncryptError::UrlTooLong { length: 9042 }));
        },
        Ok(_) => panic!("a long link was accepted"),
    }
    let forced = finish_encryption(Ok(long), true, true).unwrap();
    assert_eq!(forced.len(), 9042);
}
