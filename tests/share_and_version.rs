use snailcrypt_cli::mode::{select_mode, Mode, ModeError};
use snailcrypt_cli::share_link::{share_link, UrlTooLong};
use snailcrypt_cli::version::{detect_version, select_version, ProtocolVersion};

#[test]
fn empty_hint_selects_baseline() {
    assert_eq!(select_version(""), ProtocolVersion::V1);
}

#[test]
fn hint_selects_extended() {
    assert_eq!(select_version("This is a small hint."), ProtocolVersion::V2);
}

#[test]
fn detect_version_from_tag() {
    assert_eq!(detect_version("1:bG9jaw==:Y2lwaGVy"), Some(ProtocolVersion::V1));
    assert_eq!(detect_version("2:bG9jaw==:Y2lwaGVy:aGludA=="), Some(ProtocolVersion::V2));
    assert_eq!(detect_version("1"), Some(ProtocolVersion::V1));
}

#[test]
fn detect_version_refuses_unknown_tags() {
    assert_eq!(detect_version(""), None);
    assert_eq!(detect_version("3:abc"), None);
    assert_eq!(detect_version(":1:abc"), None);
    assert_eq!(detect_version("12:abc"), None);
    assert_eq!(detect_version("hello world"), None);
}

#[test]
fn share_link_encodes_ciphertext() {
    assert_eq!(share_link("abc", false).unwrap(), "https://webapp.snailcrypt.com/timer.php?c=abc");
    assert_eq!(
        share_link("a b=c&d", false).unwrap(),
        "https://webapp.snailcrypt.com/timer.php?c=a+b%3Dc%26d"
    );
    assert_eq!(share_link("", false).unwrap(), "https://webapp.snailcrypt.com/timer.php?c=");
    assert_eq!(
        share_link("\u{e9}t\u{e9}*-._~", false).unwrap(),
        "https://webapp.snailcrypt.com/timer.php?c=%C3%A9t%C3%A9*-._%7E"
    );
}

#[test]
fn share_link_length_limit() {
    let fits = "a".repeat(7958);
    assert_eq!(share_link(&fits, false).unwrap().len(), 8000);
    let over = "a".repeat(7959);
    assert_eq!(share_link(&over, false), Err(UrlTooLong { length: 8001 }));
    assert_eq!(share_link(&over, true).unwrap().len(), 8001);
}

#[test]
fn force_does_not_change_link() {
    let c = "2:x/y:z+w:aGludA==";
    assert_eq!(share_link(c, false).unwrap(), share_link(c, true).unwrap());
}

#[test]
fn mode_flags_exclude_each_other() {
    assert_eq!(select_mode(true, true), Err(ModeError::Both));
    assert_eq!(select_mode(false, false), Err(ModeError::Neither));
    assert_eq!(select_mode(true, false), Ok(Mode::Encrypt));
    assert_eq!(select_mode(false, true), Ok(Mode::Decrypt));
    assert_eq!(ModeError::Both.message(), "Option 'e' and option 'd' are present. Select one.");
    assert_eq!(ModeError::Neither.message(), "Neither option 'e' nor option 'd' is present. Select one.");
}
