//! JSON string literals: the escaping `serde_json` applies when it writes a
//! string, and the JSON string grammar that reads such a literal back.
use vstd::prelude::*;
use crate::trusted::hex_digit;

verus! {

/// How `serde_json` writes one char inside a string literal: `"` and `\` and
/// the control chars below U+0020 are escaped (the short forms `\b \t \n \f \r`
/// where JSON has them, `\u00XX` with lower-case hex otherwise); every other
/// char is written as it is.
pub open spec fn json_escape_char(c: char) -> Seq<char> {
    if c == '"' {
        seq!['\\', '"']
    } else if c == '\\' {
        seq!['\\', '\\']
    } else if c == '\u{8}' {
        seq!['\\', 'b']
    } else if c == '\t' {
        seq!['\\', 't']
    } else if c == '\n' {
        seq!['\\', 'n']
    } else if c == '\u{c}' {
        seq!['\\', 'f']
    } else if c == '\r' {
        seq!['\\', 'r']
    } else if (c as u32) < 0x20 {
        seq!['\\', 'u', '0', '0', hex_digit(c as int / 16), hex_digit(c as int % 16)]
    } else {
        seq![c]
    }
}

/// The escaped body of a JSON string literal for `s`.
pub open spec fn json_escape(s: Seq<char>) -> Seq<char>
    decreases s.len(),
{
    if s.len() == 0 {
        Seq::empty()
    } else {
        json_escape_char(s[0]) + json_escape(s.drop_first())
    }
}

/// The JSON string literal that `serde_json` writes for `s`: the escaped body
/// between double quotes.
pub open spec fn json_string_literal(s: Seq<char>) -> Seq<char> {
    seq!['"'] + json_escape(s) + seq!['"']
}

/// The value of a hex digit (either case).
pub open spec fn hex_value(c: char) -> Option<int> {
    if '0' <= c && c <= '9' {
        Some(c as int - '0' as int)
    } else if 'a' <= c && c <= 'f' {
        Some(c as int - 'a' as int + 10)
    } else if 'A' <= c && c <= 'F' {
        Some(c as int - 'A' as int + 10)
    } else {
        None
    }
}

/// The number written by the four hex digits `t[0..4]`.
pub open spec fn hex4_value(t: Seq<char>) -> Option<int> {
    match (hex_value(t[0]), hex_value(t[1]), hex_value(t[2]), hex_value(t[3])) {
        (Some(a), Some(b), Some(c), Some(d)) => Some(a * 4096 + b * 256 + c * 16 + d),
        _ => None,
    }
}

/// The char that a two-char JSON escape `\e` stands for.
pub open spec fn json_short_escape(e: char) -> Option<char> {
    if e == '"' {
        Some('"')
    } else if e == '\\' {
        Some('\\')
    } else if e == '/' {
        Some('/')
    } else if e == 'b' {
        Some('\u{8}')
    } else if e == 'f' {
        Some('\u{c}')
    } else if e == 'n' {
        Some('\n')
    } else if e == 'r' {
        Some('\r')
    } else if e == 't' {
        Some('\t')
    } else {
        None
    }
}

/// Reads the body of a JSON string literal (RFC 8259): the chars it stands
/// for, or `None` when the body is not well formed (a raw `"`, a raw control
/// char, or an unknown escape). `\uXXXX` escapes of surrogate halves are not
/// decoded, so bodies that use surrogate pairs are not read either.
pub open spec fn json_unescape(t: Seq<char>) -> Option<Seq<char>>
    decreases t.len(),
{
    if t.len() == 0 {
        Some(Seq::empty())
    } else if t[0] == '\\' {
        if t.len() >= 2 && json_short_escape(t[1]) is Some {
            match json_unescape(t.subrange(2, t.len() as int)) {
                Some(r) => Some(seq![json_short_escape(t[1])->0] + r),
                None => None,
            }
        } else if t.len() >= 6 && t[1] == 'u' && hex4_value(t.subrange(2, 6)) is Some {
            let v = hex4_value(t.subrange(2, 6))->0;
            if 0xD800 <= v && v <= 0xDFFF {
                None
            } else {
                match json_unescape(t.subrange(6, t.len() as int)) {
                    Some(r) => Some(seq![v as char] + r),
                    None => None,
                }
            }
        } else {
            None
        }
    } else if t[0] == '"' || (t[0] as u32) < 0x20 {
        None
    } else {
        match json_unescape(t.drop_first()) {
            Some(r) => Some(seq![t[0]] + r),
            None => None,
        }
    }
}

/// Reading a hex digit gives back its value.
pub proof fn lemma_hex_value_of_digit(n: int)
    requires
        0 <= n < 16,
    ensures
        hex_value(hex_digit(n)) == Some(n),
{
}

proof fn lemma_unescape_after_char(c: char, t: Seq<char>)
    ensures
        json_unescape(json_escape_char(c) + t) == match json_unescape(t) {
            Some(r) => Some(seq![c] + r),
            None => None::<Seq<char>>,
        },
{
    let e = json_escape_char(c);
    let u = e + t;
    if e.len() == 2 {
        assert(u.subrange(2, u.len() as int) =~= t);
    } else if e.len() == 6 {
        let n = c as int;
        let hi = n / 16;
        let lo = n % 16;
        lemma_hex_value_of_digit(hi);
        lemma_hex_value_of_digit(lo);
        assert(u.subrange(2, 6) =~= seq!['0', '0', hex_digit(hi), hex_digit(lo)]);
        assert(hex4_value(u.subrange(2, 6)) == Some(n));
        assert(u.subrange(6, u.len() as int) =~= t);
        assert((n as char) == c);
    } else {
        assert(u.drop_first() =~= t);
    }
}

/// What `serde_json` writes for a string reads back as that string under the
/// JSON string grammar: the body holds no raw `"` or control char, so the
/// literal cannot end early.
pub proof fn lemma_json_escape_reads_back(s: Seq<char>)
    ensures
        json_unescape(json_escape(s)) == Some(s),
    decreases s.len(),
{
    if s.len() > 0 {
        lemma_json_escape_reads_back(s.drop_first());
        lemma_unescape_after_char(s[0], json_escape(s.drop_first()));
        assert(seq![s[0]] + s.drop_first() =~= s);
    } else {
        assert(json_escape(s) =~= Seq::<char>::empty());
    }
}

} // verus!
