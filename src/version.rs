use vstd::prelude::*;

verus! {

/// The two ciphertext protocols of the snailcrypt client library.
/// `V1` is the baseline protocol; `V2` extends it with a clear-text hint.
#[derive(Clone, Copy, Debug, PartialEq, Eq, Structural)]
pub enum ProtocolVersion {
    V1,
    V2,
}

/// The protocol an encryption uses: the extended one exactly when a hint is given.
pub open spec fn version_for_hint(hint: Seq<char>) -> ProtocolVersion {
    if hint.len() > 0 {
        ProtocolVersion::V2
    } else {
        ProtocolVersion::V1
    }
}

/// The tag that a ciphertext of the given protocol starts with.
pub open spec fn version_tag(v: ProtocolVersion) -> Seq<char> {
    match v {
        ProtocolVersion::V1 => seq!['1'],
        ProtocolVersion::V2 => seq!['2'],
    }
}

/// The characters of `s` before its first colon (all of `s` if it has none).
pub open spec fn leading_field(s: Seq<char>) -> Seq<char>
    decreases s.len(),
{
    if s.len() == 0 || s[0] == ':' {
        Seq::empty()
    } else {
        seq![s[0]] + leading_field(s.drop_first())
    }
}

/// The protocol that a leading field names, if any.
pub open spec fn version_of_tag(tag: Seq<char>) -> Option<ProtocolVersion> {
    if tag == seq!['1'] {
        Some(ProtocolVersion::V1)
    } else if tag == seq!['2'] {
        Some(ProtocolVersion::V2)
    } else {
        None
    }
}

/// The protocol a ciphertext announces in its leading field.
pub open spec fn detected_version(ciphertext: Seq<char>) -> Option<ProtocolVersion> {
    version_of_tag(leading_field(ciphertext))
}

/// `c` starts with the tag of `v` followed by a colon, as every ciphertext
/// that the client of `v` writes does.
pub open spec fn tagged_with(c: Seq<char>, v: ProtocolVersion) -> bool {
    c.len() >= 2 && c.subrange(0, 2) == version_tag(v).push(':')
}

/// Chooses the protocol for an encryption: `V2` when `hint` is non-empty, else `V1`.
pub fn select_version(hint: &str) -> (r: ProtocolVersion)
    ensures
        r == version_for_hint(hint@),
{
    if hint.is_empty() {
        ProtocolVersion::V1
    } else {
        ProtocolVersion::V2
    }
}

/// Relies on snailcrypt's `DefaultAnalyzer::get_version`: it panics on an empty
/// string, takes the text before the first `:` and maps "1" to V1, "2" to V2,
/// and anything else to an error message.
#[verifier::external_body]
fn analyze_version(ciphertext: &str) -> (r: Result<ProtocolVersion, String>)
    requires
        ciphertext@.len() > 0,
    ensures
        match r {
            Ok(v) => detected_version(ciphertext@) == Some(v),
            Err(_) => detected_version(ciphertext@) is None,
        },
{
    let analyzer = snailcrypt::factory::AnalyzerFactory::new().create();
    match analyzer.get_version(ciphertext) {
        Ok(snailcrypt::client::ClientVersion::V1) => Ok(ProtocolVersion::V1),
        Ok(snailcrypt::client::ClientVersion::V2) => Ok(ProtocolVersion::V2),
        Err(e) => Err(e),
    }
}

/// Finds the protocol of a ciphertext from its leading field; `None` for an
/// empty ciphertext or an unknown tag.
pub fn detect_version(ciphertext: &str) -> (r: Option<ProtocolVersion>)
    ensures
        r == detected_version(ciphertext@),
{
    if ciphertext.is_empty() {
        proof {
            assert(leading_field(ciphertext@).len() == 0);
            assert(seq!['1'].len() == 1 && seq!['2'].len() == 1);
        }
        None
    } else {
        match analyze_version(ciphertext) {
            Ok(v) => Some(v),
            Err(_) => None,
        }
    }
}

} // verus!
