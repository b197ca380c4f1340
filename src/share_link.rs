use vstd::prelude::*;
use vstd::utf8::encode_utf8;

verus! {

/// The longest share link, in characters, that is produced without force.
pub const URL_MAX_LEN: usize = 8000;

/// The page that a share link points to, with the start of its query.
pub open spec fn link_base() -> Seq<char> {
    "https://webapp.snailcrypt.com/timer.php?"@
}

/// A byte that form encoding keeps as it is: ASCII letters, digits and `*-._`.
pub open spec fn form_kept(b: u8) -> bool {
    b == 42 || b == 45 || b == 46 || (48 <= b <= 57) || (65 <= b <= 90) || b == 95 || (97 <= b <= 122)
}

/// The upper-case hexadecimal digits.
pub open spec fn hex_digits() -> Seq<char> {
    "0123456789ABCDEF"@
}

/// How form encoding writes one byte: a kept byte as itself, a space as `+`,
/// any other byte as `%` and two upper-case hexadecimal digits.
pub open spec fn form_byte(b: u8) -> Seq<char> {
    if form_kept(b) {
        seq![b as char]
    } else if b == 32 {
        seq!['+']
    } else {
        seq!['%', hex_digits()[(b / 16) as int], hex_digits()[(b % 16) as int]]
    }
}

/// Form encoding of a byte sequence, byte by byte.
pub open spec fn form_bytes(bs: Seq<u8>) -> Seq<char>
    decreases bs.len(),
{
    if bs.len() == 0 {
        Seq::empty()
    } else {
        form_byte(bs[0]) + form_bytes(bs.drop_first())
    }
}

/// Form encoding (application/x-www-form-urlencoded) of a text's UTF-8 bytes.
pub open spec fn form_encoded(s: Seq<char>) -> Seq<char> {
    form_bytes(encode_utf8(s))
}

/// A single encoded `key=value` pair.
pub open spec fn form_pair_of(key: Seq<char>, value: Seq<char>) -> Seq<char> {
    form_encoded(key) + seq!['='] + form_encoded(value)
}

/// The share link for a ciphertext.
pub open spec fn link_of(ciphertext: Seq<char>) -> Seq<char> {
    link_base() + form_pair_of("c"@, ciphertext)
}

/// What `share_link` gives for a ciphertext: the link, or nothing when it is
/// too long and not forced.
pub open spec fn link_outcome(ciphertext: Seq<char>, force: bool) -> Option<Seq<char>> {
    if !force && link_of(ciphertext).len() > URL_MAX_LEN {
        None
    } else {
        Some(link_of(ciphertext))
    }
}

/// Relies on url's `form_urlencoded::Serializer`: a new serializer over an
/// empty string, one `append_pair`, then `finish`. With no encoding override
/// the pair is the key's UTF-8 bytes through `byte_serialize`, `=`, and the
/// value's bytes through `byte_serialize`; nothing goes before it.
#[verifier::external_body]
fn form_encode_pair(key: &str, value: &str) -> (r: String)
    ensures
        r@ == form_pair_of(key@, value@),
{
    url::form_urlencoded::Serializer::new(String::new()).append_pair(key, value).finish()
}

/// The link was longer than `URL_MAX_LEN` characters; holds its length.
#[derive(Clone, Copy, Debug, PartialEq, Eq, Structural)]
pub struct UrlTooLong {
    pub length: usize,
}

/// Wraps a ciphertext into a share link: the base page followed by the
/// ciphertext percent-encoded as query parameter `c`. Unless `force`, a link
/// longer than `URL_MAX_LEN` characters is refused.
pub fn share_link(ciphertext: &str, force: bool) -> (r: Result<String, UrlTooLong>)
    ensures
        match r {
            Ok(link) => link@ == link_of(ciphertext@) && (force || link_of(ciphertext@).len() <= URL_MAX_LEN),
            Err(e) => !force && link_of(ciphertext@).len() > URL_MAX_LEN
                && e.length == link_of(ciphertext@).len(),
        },
        match r {
            Ok(link) => link_outcome(ciphertext@, force) == Some(link@),
            Err(_) => link_outcome(ciphertext@, force) is None,
        },
{
    let pair = form_encode_pair("c", ciphertext);
    let link = "https://webapp.snailcrypt.com/timer.php?".to_owned().concat(pair.as_str());
    proof {
        reveal_strlit("c");
        reveal_strlit("https://webapp.snailcrypt.com/timer.php?");
    }
    let length = link.as_str().unicode_len();
    if length > URL_MAX_LEN && !force {
        Err(UrlTooLong { length })
    } else {
        Ok(link)
    }
}

} // verus!
