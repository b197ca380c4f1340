use vstd::prelude::*;
use vstd::utf8::{encode_scalar, encode_utf8};
use crate::lockdate::{accepted_lock_date, instant_of, is_before, parsed_date_of, Instant};
use crate::share_link::{form_byte, form_bytes, form_encoded, link_of, link_outcome, URL_MAX_LEN};
use crate::version::{detected_version, leading_field, tagged_with, version_for_hint, version_tag, ProtocolVersion};

verus! {

/// An encryption without a hint uses the baseline protocol, and one with a
/// hint uses the extended protocol.
pub proof fn lemma_version_follows_hint(hint: Seq<char>)
    ensures
        hint.len() == 0 ==> version_for_hint(hint) == ProtocolVersion::V1,
        hint.len() > 0 ==> version_for_hint(hint) == ProtocolVersion::V2,
{
}

/// A ciphertext that starts with a protocol's tag and a colon is detected as
/// that protocol, from the ciphertext alone.
pub proof fn lemma_version_recovered(c: Seq<char>, v: ProtocolVersion)
    requires
        tagged_with(c, v),
    ensures
        detected_version(c) == Some(v),
{
    let tag = version_tag(v);
    assert(c[0] == tag[0]) by {
        assert(c.subrange(0, 2)[0] == tag.push(':')[0]);
    }
    assert(c[1] == ':') by {
        assert(c.subrange(0, 2)[1] == tag.push(':')[1]);
    }
    let rest = c.drop_first();
    assert(rest[0] == c[1]);
    assert(leading_field(rest) == Seq::<char>::empty());
    assert(leading_field(c) == seq![c[0]] + leading_field(rest));
    assert(leading_field(c) =~= tag);
}

/// A ciphertext written by the client that an encryption without a hint
/// selects is detected, from the ciphertext alone, as the baseline protocol.
pub proof fn lemma_unhinted_ciphertext_is_baseline(hint: Seq<char>, c: Seq<char>)
    requires
        hint.len() == 0,
        tagged_with(c, version_for_hint(hint)),
    ensures
        detected_version(c) == Some(ProtocolVersion::V1),
{
    lemma_version_recovered(c, version_for_hint(hint));
}

/// A ciphertext written by the client that an encryption with a hint selects
/// is detected, from the ciphertext alone, as the extended protocol.
pub proof fn lemma_hinted_ciphertext_is_extended(hint: Seq<char>, c: Seq<char>)
    requires
        hint.len() > 0,
        tagged_with(c, version_for_hint(hint)),
    ensures
        detected_version(c) == Some(ProtocolVersion::V2),
{
    lemma_version_recovered(c, version_for_hint(hint));
}

/// A lock date that is not strictly later than now is refused without force
/// and taken with force; the parse is required either way.
pub proof fn lemma_past_date_rejected(text: Seq<char>, format: Seq<char>, now: Instant, t: (i64, u32, i32))
    ensures
        parsed_date_of(text, format) is None ==> accepted_lock_date(text, format, true, now) is None,
        parsed_date_of(text, format) == Some(t) && !is_before(now, instant_of(t))
            ==> accepted_lock_date(text, format, false, now) is None
                && accepted_lock_date(text, format, true, now) == Some(t),
{
}

/// Force never changes what is produced: a lock date or a link that is
/// accepted without force is accepted, unchanged, with force.
pub proof fn lemma_force_keeps_output(text: Seq<char>, format: Seq<char>, now: Instant, ciphertext: Seq<char>)
    ensures
        accepted_lock_date(text, format, false, now) is Some
            ==> accepted_lock_date(text, format, true, now) == accepted_lock_date(text, format, false, now),
        link_outcome(ciphertext, false) is Some
            ==> link_outcome(ciphertext, true) == link_outcome(ciphertext, false),
{
}

/// The link for a ciphertext is the base page, `c=`, and the form-encoded
/// ciphertext. Without force it is refused exactly when longer than
/// `URL_MAX_LEN` characters; with force it is always produced.
pub proof fn lemma_link_shape(ciphertext: Seq<char>)
    ensures
        link_of(ciphertext) == "https://webapp.snailcrypt.com/timer.php?c="@ + form_encoded(ciphertext),
        link_outcome(ciphertext, true) == Some(link_of(ciphertext)),
        link_outcome(ciphertext, false) is None <==> link_of(ciphertext).len() > URL_MAX_LEN,
        link_outcome(ciphertext, false) is Some ==> link_outcome(ciphertext, false) == Some(link_of(ciphertext)),
{
    reveal_strlit("c");
    reveal_strlit("https://webapp.snailcrypt.com/timer.php?");
    reveal_strlit("https://webapp.snailcrypt.com/timer.php?c=");
    let key = "c"@;
    assert(key[0] == 'c');
    assert('c' as u32 == 99u32);
    assert((99u32 & 0x7F) as u8 == 99u8) by (bit_vector);
    assert(encode_scalar('c' as u32) == seq![99u8]);
    assert(key.drop_first() =~= Seq::<char>::empty());
    assert(key.len() == 1);
    assert(encode_utf8(Seq::<char>::empty()) =~= Seq::<u8>::empty());
    assert(encode_utf8(key) == encode_scalar(key[0] as u32) + encode_utf8(key.drop_first()));
    assert(encode_utf8(key) =~= seq![99u8]);
    let bs = seq![99u8];
    assert(bs.drop_first() =~= Seq::<u8>::empty());
    assert(99u8 as char == 'c');
    assert(form_bytes(bs) == form_byte(bs[0]) + form_bytes(bs.drop_first()));
    assert(form_bytes(Seq::<u8>::empty()) =~= Seq::<char>::empty());
    assert(form_bytes(bs) =~= seq!['c']);
    assert(link_of(ciphertext) =~= "https://webapp.snailcrypt.com/timer.php?c="@ + form_encoded(ciphertext));
}

} // verus!
