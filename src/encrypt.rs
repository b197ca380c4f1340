use vstd::prelude::*;
use crate::lockdate::{
    accepted_lock_date, check_lock_date, now_from_clock, formatted_date_of,
    is_before, instant_of, lock_date_format, parsed_date_of, DateError, Instant, LockDate,
};
use crate::share_link::{link_of, share_link, URL_MAX_LEN};
use crate::version::{select_version, version_for_hint, ProtocolVersion};

verus! {

/// Why an encryption did not produce output.
#[derive(Debug)]
pub enum EncryptError {
    /// The lock date does not match the protocol's date format; holds the text given.
    UnparseableDate { text: String },
    /// The lock date is not strictly later than now; holds it as the protocol formats it.
    DateInPast { shown: String },
    /// The client reported an error; holds its message.
    Client { message: String },
    /// The share link would be longer than `URL_MAX_LEN` characters; holds its length.
    UrlTooLong { length: usize },
}

/// The message reported for an encryption error.
pub open spec fn encrypt_message_of(e: EncryptError) -> Seq<char> {
    match e {
        EncryptError::UnparseableDate { text } => "Error: unable to parse the lock date \""@ + text@ + "\""@,
        EncryptError::DateInPast { shown } => "Error: lock date \""@ + shown@ + "\" is in the past."@,
        EncryptError::Client { message } => message@,
        EncryptError::UrlTooLong { .. } => "Error: the generated URL is longer than 8000 characters"@,
    }
}

impl EncryptError {
    /// The human-readable message for this error.
    pub fn message(&self) -> (r: String)
        ensures
            r@ == encrypt_message_of(*self),
    {
        match self {
            EncryptError::UnparseableDate { text } => {
                "Error: unable to parse the lock date \"".to_owned().concat(text.as_str()).concat("\"")
            },
            EncryptError::DateInPast { shown } => {
                "Error: lock date \"".to_owned().concat(shown.as_str()).concat("\" is in the past.")
            },
            EncryptError::Client { message } => message.clone(),
            EncryptError::UrlTooLong { .. } => {
                "Error: the generated URL is longer than 8000 characters".to_owned()
            },
        }
    }
}

/// What an encryption is carried out with: the protocol and the checked lock date.
#[derive(Clone, Copy, Debug, PartialEq, Eq, Structural)]
pub struct EncryptPlan {
    pub version: ProtocolVersion,
    pub lock_date: LockDate,
}

/// Selects the protocol from the hint and checks the lock date against `now`
/// in that protocol's format; `force` skips the check against `now` but not the parse.
pub fn prepare_encryption(lockdate_text: &str, hint: &str, force: bool, now: Instant) -> (r: Result<EncryptPlan, EncryptError>)
    ensures
        match parsed_date_of(lockdate_text@, lock_date_format()) {
            None => r matches Err(EncryptError::UnparseableDate { text }) && text@ == lockdate_text@,
            Some(t) => if force || is_before(now, instant_of(t)) {
                r matches Ok(p) && p.version == version_for_hint(hint@) && p.lock_date.fields() == t
            } else {
                r matches Err(EncryptError::DateInPast { shown })
                    && shown@ == formatted_date_of(t, lock_date_format())
            },
        },
        match r {
            Ok(p) => accepted_lock_date(lockdate_text@, lock_date_format(), force, now) == Some(p.lock_date.fields()),
            Err(_) => accepted_lock_date(lockdate_text@, lock_date_format(), force, now) is None,
        },
{
    let version = select_version(hint);
    match check_lock_date(lockdate_text, version, force, now) {
        Ok(lock_date) => Ok(EncryptPlan { version, lock_date }),
        Err(DateError::Unparseable) => Err(EncryptError::UnparseableDate { text: lockdate_text.to_owned() }),
        Err(DateError::InPast { shown }) => Err(EncryptError::DateInPast { shown }),
    }
}

/// `prepare_encryption` against the system clock. Whatever the clock reads, an
/// unparseable date is refused, a forced date is taken, and an unforced date
/// is either taken or refused as lying in the past.
pub fn prepare_encryption_now(lockdate_text: &str, hint: &str, force: bool) -> (r: Result<EncryptPlan, EncryptError>)
    ensures
        match parsed_date_of(lockdate_text@, lock_date_format()) {
            None => r matches Err(EncryptError::UnparseableDate { text }) && text@ == lockdate_text@,
            Some(t) => {
                ||| r matches Ok(p) && p.version == version_for_hint(hint@) && p.lock_date.fields() == t
                ||| !force && (r matches Err(EncryptError::DateInPast { shown })
                    && shown@ == formatted_date_of(t, lock_date_format()))
            },
        },
        force && parsed_date_of(lockdate_text@, lock_date_format()) is Some ==> r is Ok,
{
    let now = now_from_clock();
    prepare_encryption(lockdate_text, hint, force, now)
}

/// Turns the client's answer into the output: its error becomes
/// `EncryptError::Client`; a ciphertext is passed on as it is, or as a share
/// link when `generate_url`, which unless `force` must not exceed `URL_MAX_LEN`.
pub fn finish_encryption(cipher: Result<String, String>, generate_url: bool, force: bool) -> (r: Result<String, EncryptError>)
    ensures
        match cipher {
            Err(m) => r matches Err(EncryptError::Client { message }) && message@ == m@,
            Ok(c) => if !generate_url {
                r matches Ok(o) && o@ == c@
            } else if !force && link_of(c@).len() > URL_MAX_LEN {
                r matches Err(EncryptError::UrlTooLong { length }) && length == link_of(c@).len()
            } else {
                r matches Ok(o) && o@ == link_of(c@)
            },
        },
{
    match cipher {
        Err(message) => Err(EncryptError::Client { message }),
        Ok(c) => {
            if generate_url {
                match share_link(c.as_str(), force) {
                    Ok(link) => Ok(link),
                    Err(e) => Err(EncryptError::UrlTooLong { length: e.length }),
                }
            } else {
                Ok(c)
            }
        },
    }
}

/// The process exit code of an encryption: 0 on output, 1 on any error.
pub fn encrypt_exit_code(r: &Result<String, EncryptError>) -> (code: i32)
    ensures
        code == (if r is Ok { 0i32 } else { 1i32 }),
{
    match r {
        Ok(_) => 0,
        Err(_) => 1,
    }
}

} // verus!
