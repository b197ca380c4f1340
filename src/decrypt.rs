use vstd::prelude::*;
use crate::version::{detect_version, detected_version, ProtocolVersion};

verus! {

/// What a decryption gave: the plaintext on success, the client's error
/// message otherwise. Both carry the hint, which is readable without the
/// lock date having passed.
#[derive(Debug)]
pub enum DecryptionOutcome {
    Success { plaintext: String, hint: String },
    Failure { error_message: String, hint: String },
}

impl DecryptionOutcome {
    /// The hint carried by either variant.
    pub open spec fn hint_view(&self) -> Seq<char> {
        match self {
            DecryptionOutcome::Success { hint, .. } => hint@,
            DecryptionOutcome::Failure { hint, .. } => hint@,
        }
    }
}

/// Why a decryption did not produce output.
#[derive(Debug)]
pub enum DecryptError {
    /// The ciphertext names no known protocol.
    UnknownVersion,
    /// The plaintext was asked for and the client could not decrypt; holds its message.
    Failed { message: String },
}

/// The message reported for a decryption error.
pub open spec fn decrypt_message_of(e: DecryptError) -> Seq<char> {
    match e {
        DecryptError::UnknownVersion => "Error: the ciphertext names no known protocol version"@,
        DecryptError::Failed { message } => message@,
    }
}

impl DecryptError {
    /// The human-readable message for this error.
    pub fn message(&self) -> (r: String)
        ensures
            r@ == decrypt_message_of(*self),
    {
        match self {
            DecryptError::UnknownVersion => "Error: the ciphertext names no known protocol version".to_owned(),
            DecryptError::Failed { message } => message.clone(),
        }
    }
}

/// The protocol to decrypt `ciphertext` with, as its leading field names it;
/// a ciphertext that names none is refused.
pub fn decryption_version(ciphertext: &str) -> (r: Result<ProtocolVersion, DecryptError>)
    ensures
        match detected_version(ciphertext@) {
            Some(v) => r matches Ok(w) && w == v,
            None => r matches Err(DecryptError::UnknownVersion),
        },
{
    match detect_version(ciphertext) {
        Some(v) => Ok(v),
        None => Err(DecryptError::UnknownVersion),
    }
}

/// Picks what a decryption writes: the hint when `extract_hint`, whether or
/// not the decryption succeeded; otherwise the plaintext, which a failed
/// decryption does not have.
pub fn select_output(outcome: DecryptionOutcome, extract_hint: bool) -> (r: Result<String, DecryptError>)
    ensures
        extract_hint ==> (r matches Ok(h) && h@ == outcome.hint_view()),
        !extract_hint ==> match outcome {
            DecryptionOutcome::Success { plaintext, .. } => r matches Ok(p) && p@ == plaintext@,
            DecryptionOutcome::Failure { error_message, .. } =>
                r matches Err(DecryptError::Failed { message }) && message@ == error_message@,
        },
{
    match outcome {
        DecryptionOutcome::Success { plaintext, hint } => {
            if extract_hint {
                Ok(hint)
            } else {
                Ok(plaintext)
            }
        },
        DecryptionOutcome::Failure { error_message, hint } => {
            if extract_hint {
                Ok(hint)
            } else {
                Err(DecryptError::Failed { message: error_message })
            }
        },
    }
}

/// The process exit code of a decryption: 0 on output, 1 on any error.
pub fn decrypt_exit_code(r: &Result<String, DecryptError>) -> (code: i32)
    ensures
        code == (if r is Ok { 0i32 } else { 1i32 }),
{
    match r {
        Ok(_) => 0,
        Err(_) => 1,
    }
}

} // verus!
