//! Resolving a raw user string into a canonical video identifier.
//!
//! A canonical identifier is exactly eleven characters drawn from the
//! alphabet `A`-`Z`, `a`-`z`, `0`-`9`, `_`, `-`. The resolver accepts either
//! such a bare token or a URL of one of the known hosting-service shapes,
//! from which the token is extracted.

use vstd::prelude::*;

use crate::errors::PipelineError;

verus! {

/// Length, in characters, of a canonical video identifier.
pub const ID_LEN: usize = 11;

/// A character the identifier alphabet admits.
pub open spec fn is_id_char(c: char) -> bool {
    ||| 'a' as u32 <= c as u32 && c as u32 <= 'z' as u32
    ||| 'A' as u32 <= c as u32 && c as u32 <= 'Z' as u32
    ||| '0' as u32 <= c as u32 && c as u32 <= '9' as u32
    ||| c == '_'
    ||| c == '-'
}

/// A well-formed identifier: exactly `ID_LEN` characters of the alphabet.
pub open spec fn is_valid_id(s: Seq<char>) -> bool {
    &&& s.len() == ID_LEN
    &&& forall|i: int| 0 <= i < s.len() ==> is_id_char(s[i])
}

/// `p` is a character-for-character prefix of `s`.
pub open spec fn starts_with(s: Seq<char>, p: Seq<char>) -> bool {
    &&& s.len() >= p.len()
    &&& forall|i: int| 0 <= i < p.len() ==> s[i] == p[i]
}

/// The `ID_LEN` characters following the prefix `p` in `s`.
pub open spec fn extracted(s: Seq<char>, p: Seq<char>) -> Seq<char> {
    s.subrange(p.len() as int, p.len() + ID_LEN)
}

/// `s` is a URL of the shape `p` followed by a valid identifier: the
/// identifier must end the string or be followed by a character outside the
/// identifier alphabet (a query or path separator), so that it cannot be a
/// truncation of a longer token.
pub open spec fn url_shape_matches(s: Seq<char>, p: Seq<char>) -> bool {
    &&& s.len() >= p.len() + ID_LEN
    &&& starts_with(s, p)
    &&& is_valid_id(extracted(s, p))
    &&& (s.len() == p.len() + ID_LEN || !is_id_char(s[p.len() + ID_LEN]))
}

/// The recognized URL shapes, by their fixed prefixes.
pub open spec fn watch_www_prefix() -> Seq<char> {
    "https://www.youtube.com/watch?v="@
}

pub open spec fn watch_prefix() -> Seq<char> {
    "https://youtube.com/watch?v="@
}

pub open spec fn short_prefix() -> Seq<char> {
    "https://youtu.be/"@
}

pub open spec fn embed_prefix() -> Seq<char> {
    "https://www.youtube.com/embed/"@
}

/// What `resolve` yields on a raw input: the canonical identifier when the
/// input is a bare token or any recognized URL shape, nothing otherwise.
pub open spec fn spec_resolve(s: Seq<char>) -> Option<Seq<char>> {
    if is_valid_id(s) {
        Some(s)
    } else if url_shape_matches(s, watch_www_prefix()) {
        Some(extracted(s, watch_www_prefix()))
    } else if url_shape_matches(s, watch_prefix()) {
        Some(extracted(s, watch_prefix()))
    } else if url_shape_matches(s, short_prefix()) {
        Some(extracted(s, short_prefix()))
    } else if url_shape_matches(s, embed_prefix()) {
        Some(extracted(s, embed_prefix()))
    } else {
        None
    }
}

/// An opaque, validated token uniquely naming a remote video. Immutable once
/// constructed; construction goes through `resolve`, which enforces the
/// grammar.
pub struct VideoIdentifier {
    text: String,
}

impl View for VideoIdentifier {
    type V = Seq<char>;

    closed spec fn view(&self) -> Seq<char> {
        self.text@
    }
}

impl VideoIdentifier {
    /// A constructed identifier always satisfies the grammar.
    pub open spec fn wf(&self) -> bool {
        is_valid_id(self@)
    }

    /// The identifier's text.
    pub fn as_str(&self) -> (r: &str)
        ensures
            r@ == self@,
    {
        self.text.as_str()
    }

    /// A copy of the identifier, equal to the original.
    pub fn duplicate(&self) -> (r: VideoIdentifier)
        ensures
            r@ == self@,
    {
        VideoIdentifier { text: self.text.clone() }
    }
}

/// Whether `c` belongs to the identifier alphabet.
fn id_char(c: char) -> (r: bool)
    ensures
        r == is_id_char(c),
{
    let u = c as u32;
    ('a' as u32 <= u && u <= 'z' as u32) || ('A' as u32 <= u && u <= 'Z' as u32) || ('0' as u32 <= u
        && u <= '9' as u32) || c == '_' || c == '-'
}

/// Whether every character of `s` in `[from, to)` belongs to the alphabet.
fn all_id_chars(s: &str, from: usize, to: usize) -> (r: bool)
    requires
        from <= to <= s@.len(),
    ensures
        r == forall|i: int| from <= i < to ==> is_id_char(s@[i]),
{
    let mut i: usize = from;
    while i < to
        invariant
            from <= i <= to <= s@.len(),
            forall|j: int| from <= j < i ==> is_id_char(s@[j]),
        decreases to - i,
    {
        if !id_char(s.get_char(i)) {
            return false;
        }
        i = i + 1;
    }
    true
}

/// Whether `p` is a prefix of `s`.
fn has_prefix(s: &str, p: &str) -> (r: bool)
    ensures
        r == starts_with(s@, p@),
{
    let slen = s.unicode_len();
    let plen = p.unicode_len();
    if slen < plen {
        return false;
    }
    let mut i: usize = 0;
    while i < plen
        invariant
            0 <= i <= plen,
            plen == p@.len() <= s@.len(),
            forall|j: int| 0 <= j < i ==> s@[j] == p@[j],
        decreases plen - i,
    {
        if s.get_char(i) != p.get_char(i) {
            return false;
        }
        i = i + 1;
    }
    true
}

/// Whether `s` is a bare identifier.
fn is_bare_id(s: &str) -> (r: bool)
    ensures
        r == is_valid_id(s@),
{
    let slen = s.unicode_len();
    if slen != ID_LEN {
        return false;
    }
    all_id_chars(s, 0, slen)
}

/// Extracts the identifier following the URL prefix `p`, when `s` has that
/// shape.
fn try_url_shape(s: &str, p: &str) -> (r: Option<VideoIdentifier>)
    ensures
        r is Some <==> url_shape_matches(s@, p@),
        r matches Some(id) ==> id@ == extracted(s@, p@),
{
    let slen = s.unicode_len();
    let plen = p.unicode_len();
    if slen < plen || slen - plen < ID_LEN {
        return None;
    }
    if !has_prefix(s, p) {
        return None;
    }
    if !all_id_chars(s, plen, plen + ID_LEN) {
        proof {
            let bad = choose|i: int| plen <= i < plen + ID_LEN && !is_id_char(s@[i]);
            assert(!is_id_char(extracted(s@, p@)[bad - plen]));
        }
        return None;
    }
    if slen > plen + ID_LEN && id_char(s.get_char(plen + ID_LEN)) {
        return None;
    }
    let text = s.substring_char(plen, plen + ID_LEN).to_owned();
    Some(VideoIdentifier { text })
}

/// Normalizes a raw user string into a canonical video identifier: a bare
/// token is taken as it stands, a URL of a known shape has the token
/// extracted, and anything else is rejected as `InvalidIdentifier`.
pub fn resolve(raw: &str) -> (r: Result<VideoIdentifier, PipelineError>)
    ensures
        r is Ok <==> spec_resolve(raw@) is Some,
        r matches Ok(id) ==> spec_resolve(raw@) == Some(id@) && id.wf(),
        r matches Err(e) ==> e == PipelineError::InvalidIdentifier,
{
    if is_bare_id(raw) {
        return Ok(VideoIdentifier { text: raw.to_owned() });
    }
    if let Some(id) = try_url_shape(raw, "https://www.youtube.com/watch?v=") {
        return Ok(id);
    }
    if let Some(id) = try_url_shape(raw, "https://youtube.com/watch?v=") {
        return Ok(id);
    }
    if let Some(id) = try_url_shape(raw, "https://youtu.be/") {
        return Ok(id);
    }
    if let Some(id) = try_url_shape(raw, "https://www.youtube.com/embed/") {
        return Ok(id);
    }
    Err(PipelineError::InvalidIdentifier)
}

/// Resolution is idempotent: feeding the text of a resolved identifier back
/// through `resolve` yields that same identifier. A resolved identifier is
/// always a valid bare token, which resolution accepts unchanged.
pub proof fn lemma_resolve_idempotent(s: Seq<char>)
    requires
        spec_resolve(s) is Some,
    ensures
        spec_resolve(spec_resolve(s).unwrap()) == spec_resolve(s),
{
}

} // verus!
