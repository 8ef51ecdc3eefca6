//! The calls into std and into outside crates, each with the contract that the
//! library relies on. Those contracts are believed, not proved: each is what
//! the called function's source or documentation shows. The spec functions
//! they are stated over, and the lemma about hex encodings, are ordinary
//! verified code.
use vstd::prelude::*;
use crate::json::{json_string_literal, lemma_hex_value_of_digit};

verus! {

/// `std::path::PathBuf`, carried through the library as an opaque value.
#[verifier::external_type_specification]
#[verifier::external_body]
pub struct ExPathBuf(std::path::PathBuf);

/// `<PathBuf as Clone>::clone` returns a copy of the path: the same value.
pub assume_specification[ <std::path::PathBuf as Clone>::clone ](
    p: &std::path::PathBuf,
) -> (r: std::path::PathBuf)
    ensures
        r == *p,
;

/// The path that `PathBuf::from` makes of the text `s`.
pub uninterp spec fn path_named(s: Seq<char>) -> std::path::PathBuf;

/// `PathBuf::from(&str)`: the path is named by `path_named` of the text; it
/// depends on the text alone (the bytes are copied into the path).
#[verifier::external_body]
pub(crate) fn path_from_str(s: &str) -> (p: std::path::PathBuf)
    ensures
        p == path_named(s@),
{
    std::path::PathBuf::from(s)
}

/// The paths that `Path::ancestors` yields for `p`, in order.
pub uninterp spec fn path_ancestors(p: std::path::PathBuf) -> Seq<std::path::PathBuf>;

/// `Path::ancestors`, collected: named by `path_ancestors`. As its
/// documentation states, it yields `p` itself first and then the result of
/// `parent` applied again and again, so there is always at least one path.
#[verifier::external_body]
pub(crate) fn ancestors_of(p: &std::path::PathBuf) -> (r: Vec<std::path::PathBuf>)
    ensures
        r@ == path_ancestors(*p),
        r@.len() >= 1,
        r@[0] == *p,
{
    let mut all = Vec::new();
    for a in p.ancestors() {
        all.push(a.to_path_buf());
    }
    all
}

/// The path that `Path::join` makes of `base` with `part` adjoined.
pub uninterp spec fn joined_path(base: std::path::PathBuf, part: Seq<char>) -> std::path::PathBuf;

/// `Path::join`: named by `joined_path`; it depends on the two arguments alone.
#[verifier::external_body]
pub(crate) fn path_join(base: &std::path::PathBuf, part: &str) -> (r: std::path::PathBuf)
    ensures
        r == joined_path(*base, part@),
{
    base.join(part)
}

/// Whether `c` has the Unicode `White_Space` property (PropList.txt), the
/// notion of whitespace that `char::is_whitespace` and `str::split_whitespace`
/// share: U+0009–U+000D, U+0020, U+0085, U+00A0, U+1680, U+2000–U+200A,
/// U+2028, U+2029, U+202F, U+205F and U+3000.
pub open spec fn unicode_white_space(c: char) -> bool {
    let n = c as u32;
    ||| 0x09 <= n && n <= 0x0D
    ||| n == 0x20
    ||| n == 0x85
    ||| n == 0xA0
    ||| n == 0x1680
    ||| 0x2000 <= n && n <= 0x200A
    ||| n == 0x2028
    ||| n == 0x2029
    ||| n == 0x202F
    ||| n == 0x205F
    ||| n == 0x3000
}

/// `char::is_whitespace`: true exactly for the chars with the Unicode
/// `White_Space` property, as its documentation states.
#[verifier::external_body]
pub(crate) fn is_whitespace(c: char) -> (r: bool)
    ensures
        r == unicode_white_space(c),
{
    c.is_whitespace()
}

/// The SHA-256 digest of `data`.
pub uninterp spec fn sha256(data: Seq<u8>) -> Seq<u8>;

/// `sha2::Sha256::digest` (the `Digest` trait's one-shot `new`, `update`,
/// `finalize`): the digest is named by `sha256` of the input bytes, and is
/// 32 bytes long (the output type is `GenericArray<u8, U32>`). The algorithm
/// itself is not restated.
#[verifier::external_body]
pub(crate) fn sha256_digest(data: &[u8]) -> (out: Vec<u8>)
    ensures
        out@ == sha256(data@),
        out@.len() == 32,
{
    <sha2::Sha256 as sha2::Digest>::digest(data).to_vec()
}

/// The lower-case hex digit for `n` (below 16).
pub open spec fn hex_digit(n: int) -> char {
    seq!['0', '1', '2', '3', '4', '5', '6', '7', '8', '9', 'a', 'b', 'c', 'd', 'e', 'f'][n]
}

/// Lower-case hex encoding: each byte becomes two digits, high nibble first.
pub open spec fn hex_lower(data: Seq<u8>) -> Seq<char>
    decreases data.len(),
{
    if data.len() == 0 {
        Seq::empty()
    } else {
        seq![hex_digit(data[0] as int / 16), hex_digit(data[0] as int % 16)] + hex_lower(data.drop_first())
    }
}

/// `c` is one of the lower-case hex digits `0-9a-f`.
pub open spec fn is_lower_hex_digit(c: char) -> bool {
    ('0' <= c && c <= '9') || ('a' <= c && c <= 'f')
}

/// A hex encoding has two digits per byte, all of them lower-case hex digits.
pub proof fn lemma_hex_lower_shape(data: Seq<u8>)
    ensures
        hex_lower(data).len() == 2 * data.len(),
        forall|i: int| 0 <= i < hex_lower(data).len() ==> is_lower_hex_digit(#[trigger] hex_lower(data)[i]),
    decreases data.len(),
{
    if data.len() > 0 {
        lemma_hex_lower_shape(data.drop_first());
        let hi = data[0] as int / 16;
        let lo = data[0] as int % 16;
        assert(is_lower_hex_digit(hex_digit(hi)));
        assert(is_lower_hex_digit(hex_digit(lo)));
        let head = seq![hex_digit(hi), hex_digit(lo)];
        assert(hex_lower(data) == head + hex_lower(data.drop_first()));
        assert forall|i: int| 0 <= i < hex_lower(data).len() implies is_lower_hex_digit(
            #[trigger] hex_lower(data)[i],
        ) by {
            if i >= 2 {
                assert(hex_lower(data)[i] == hex_lower(data.drop_first())[i - 2]);
            }
        }
    }
}

/// Different byte strings have different hex encodings.
pub proof fn lemma_hex_lower_injective(a: Seq<u8>, b: Seq<u8>)
    requires
        hex_lower(a) == hex_lower(b),
    ensures
        a == b,
    decreases a.len(),
{
    lemma_hex_lower_shape(a);
    lemma_hex_lower_shape(b);
    if a.len() > 0 {
        let ha = hex_lower(a);
        let hb = hex_lower(b);
        assert(ha == seq![hex_digit(a[0] as int / 16), hex_digit(a[0] as int % 16)] + hex_lower(a.drop_first()));
        assert(hb == seq![hex_digit(b[0] as int / 16), hex_digit(b[0] as int % 16)] + hex_lower(b.drop_first()));
        assert(ha[0] == hb[0] && ha[1] == hb[1]);
        lemma_hex_value_of_digit(a[0] as int / 16);
        lemma_hex_value_of_digit(b[0] as int / 16);
        lemma_hex_value_of_digit(a[0] as int % 16);
        lemma_hex_value_of_digit(b[0] as int % 16);
        assert(a[0] as int / 16 == b[0] as int / 16);
        assert(a[0] as int % 16 == b[0] as int % 16);
        assert(a[0] == b[0]);
        assert(hex_lower(a.drop_first()) =~= ha.subrange(2, ha.len() as int));
        assert(hex_lower(b.drop_first()) =~= hb.subrange(2, hb.len() as int));
        lemma_hex_lower_injective(a.drop_first(), b.drop_first());
        assert(a =~= seq![a[0]] + a.drop_first());
        assert(b =~= seq![b[0]] + b.drop_first());
    } else {
        assert(a =~= b);
    }
}

/// `hex::encode`: as its documentation states, every byte is written as two
/// lower-case hex digits, high nibble first, in order.
#[verifier::external_body]
pub(crate) fn hex_encode(data: &[u8]) -> (s: String)
    ensures
        s@ == hex_lower(data@),
{
    hex::encode(data)
}

/// `serde_json::to_string` on a `&str`. Its source writes the string into a
/// `Vec<u8>`, which cannot fail, so the result is always `Ok`; the text is the
/// string between double quotes, escaped by the `ESCAPE` table of its
/// `ser.rs` (stated by `json_string_literal`).
#[verifier::external_body]
pub(crate) fn json_string(s: &str) -> (r: Result<String, String>)
    ensures
        r is Ok,
        r is Ok ==> r->Ok_0@ == json_string_literal(s@),
{
    match serde_json::to_string(s) {
        Ok(literal) => Ok(literal),
        Err(e) => Err(e.to_string()),
    }
}

} // verus!
