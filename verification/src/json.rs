use vstd::prelude::*;

verus! {

/// The serialization error of `serde_json`, carried as is.
#[verifier::external_type_specification]
#[verifier::external_body]
pub struct ExJsonError(serde_json::Error);

/// The lower-case hexadecimal digit of `n`, for `n < 16`.
pub open spec fn hex_digit(n: u32) -> char {
    if n < 10 { (('0' as u32) + n) as char } else { (('a' as u32) + n - 10) as char }
}

/// How a JSON string literal writes the character `c`: quote and backslash
/// behind a backslash, the five named controls by their short escapes, the
/// other controls below U+0020 as `\u00XX`, anything else as itself.
pub open spec fn json_escape_char(c: char) -> Seq<char> {
    if c == '"' {
        seq!['\\', '"']
    } else if c == '\\' {
        seq!['\\', '\\']
    } else if c == '\x08' {
        seq!['\\', 'b']
    } else if c == '\t' {
        seq!['\\', 't']
    } else if c == '\n' {
        seq!['\\', 'n']
    } else if c == '\x0c' {
        seq!['\\', 'f']
    } else if c == '\r' {
        seq!['\\', 'r']
    } else if (c as u32) < 0x20 {
        seq!['\\', 'u', '0', '0', hex_digit((c as u32) / 16), hex_digit((c as u32) % 16)]
    } else {
        seq![c]
    }
}

/// The characters of `s`, each written as `json_escape_char` writes it.
pub open spec fn json_escape(s: Seq<char>) -> Seq<char>
    decreases s.len(),
{
    if s.len() == 0 {
        Seq::empty()
    } else {
        json_escape_char(s[0]) + json_escape(s.drop_first())
    }
}

/// The JSON string literal of `s`.
pub open spec fn json_quote(s: Seq<char>) -> Seq<char> {
    seq!['"'] + json_escape(s) + seq!['"']
}

/// Calls `serde_json::to_string` on a string. Its documentation names two
/// causes of failure, a `Serialize` impl that decides to fail and a map with
/// non-string keys, and neither applies to a string, so the result is `Ok`;
/// the text is the string literal that `format_escaped_str` writes: a quote,
/// the characters escaped by the `ESCAPE` table, a quote.
#[verifier::external_body]
pub(crate) fn json_string_literal(s: &String) -> (r: Result<String, serde_json::Error>)
    ensures
        r is Ok,
        r->Ok_0@ == json_quote(s@),
{
    serde_json::to_string(s)
}

/// `c` is written as itself in a JSON string literal.
pub open spec fn is_plain_json_char(c: char) -> bool {
    c != '"' && c != '\\' && (c as u32) >= 0x20
}

/// Text with no quote, backslash or control character comes out of
/// `json_quote` as itself between two quotes.
pub proof fn law_plain_text_is_quoted_as_is(s: Seq<char>)
    requires
        forall|i: int| 0 <= i < s.len() ==> is_plain_json_char(#[trigger] s[i]),
    ensures
        json_quote(s) == seq!['"'] + s + seq!['"'],
{
    lemma_plain_escape(s);
}

proof fn lemma_plain_escape(s: Seq<char>)
    requires
        forall|i: int| 0 <= i < s.len() ==> is_plain_json_char(#[trigger] s[i]),
    ensures
        json_escape(s) == s,
    decreases s.len(),
{
    if s.len() > 0 {
        let rest = s.drop_first();
        assert forall|i: int| 0 <= i < rest.len() implies is_plain_json_char(#[trigger] rest[i]) by {
            assert(rest[i] == s[i + 1]);
        }
        lemma_plain_escape(rest);
        assert(is_plain_json_char(s[0]));
        assert(json_escape_char(s[0]) == seq![s[0]]);
        assert(json_escape(s) =~= s);
    }
}

/// The JSON string literal of any text starts and ends with a quote.
pub proof fn law_quoted(s: Seq<char>)
    ensures
        json_quote(s).len() >= 2,
        json_quote(s)[0] == '"',
        json_quote(s)[json_quote(s).len() - 1] == '"',
{
}

/// The value of a hexadecimal digit, either case.
pub open spec fn hex_value(c: char) -> Option<int> {
    if '0' <= c && c <= '9' {
        Some((c as int) - ('0' as int))
    } else if 'a' <= c && c <= 'f' {
        Some((c as int) - ('a' as int) + 10)
    } else if 'A' <= c && c <= 'F' {
        Some((c as int) - ('A' as int) + 10)
    } else {
        None
    }
}

/// The number written by the four hexadecimal digits of `s` from `i` on.
pub open spec fn hex4_value(s: Seq<char>, i: int) -> Option<int> {
    if 0 <= i && i + 4 <= s.len() && hex_value(s[i]) is Some && hex_value(s[i + 1]) is Some
        && hex_value(s[i + 2]) is Some && hex_value(s[i + 3]) is Some {
        Some(
            (hex_value(s[i])->Some_0 * 4096 + hex_value(s[i + 1])->Some_0 * 256 + hex_value(
                s[i + 2],
            )->Some_0 * 16 + hex_value(s[i + 3])->Some_0),
        )
    } else {
        None
    }
}

/// The character that a named escape `\e` stands for.
pub open spec fn named_escape(e: char) -> Option<char> {
    if e == '"' {
        Some('"')
    } else if e == '\\' {
        Some('\\')
    } else if e == '/' {
        Some('/')
    } else if e == 'b' {
        Some('\x08')
    } else if e == 'f' {
        Some('\x0c')
    } else if e == 'n' {
        Some('\n')
    } else if e == 'r' {
        Some('\r')
    } else if e == 't' {
        Some('\t')
    } else {
        None
    }
}

/// `c` prefixed to the text in `rest`, if there is any.
pub open spec fn prepend(c: char, rest: Option<Seq<char>>) -> Option<Seq<char>> {
    match rest {
        Some(r) => Some(seq![c] + r),
        None => None,
    }
}

/// The text that the body of a JSON string (RFC 8259, section 7) stands
/// for, or `None` where the body is not well formed: unescaped characters
/// stand for themselves (a quote or a control character may not stand
/// unescaped), the named escapes for their characters, `\uXXXX` for the
/// code point it writes, and a high surrogate escape followed by a low
/// surrogate escape for the code point that the pair encodes.
pub open spec fn json_unescape(s: Seq<char>) -> Option<Seq<char>>
    decreases s.len(),
{
    if s.len() == 0 {
        Some(Seq::empty())
    } else if s[0] == '"' || (s[0] as u32) < 0x20 {
        None
    } else if s[0] != '\\' {
        prepend(s[0], json_unescape(s.drop_first()))
    } else if s.len() < 2 {
        None
    } else if s[1] == 'u' {
        match hex4_value(s, 2) {
            Some(code) => if 0xD800 <= code && code < 0xDC00 {
                if s.len() >= 12 && s[6] == '\\' && s[7] == 'u' && hex4_value(s, 8) is Some
                    && 0xDC00 <= hex4_value(s, 8)->Some_0 && hex4_value(s, 8)->Some_0 < 0xE000 {
                    let low = hex4_value(s, 8)->Some_0;
                    let point = 0x10000 + (code - 0xD800) * 1024 + (low - 0xDC00);
                    prepend(point as char, json_unescape(s.subrange(12, s.len() as int)))
                } else {
                    None
                }
            } else if 0xDC00 <= code && code < 0xE000 {
                None
            } else {
                prepend(code as char, json_unescape(s.subrange(6, s.len() as int)))
            },
            None => None,
        }
    } else {
        match named_escape(s[1]) {
            Some(c) => prepend(c, json_unescape(s.subrange(2, s.len() as int))),
            None => None,
        }
    }
}

/// The text that the JSON string literal `lit` stands for, if `lit` is one.
pub open spec fn json_string_value(lit: Seq<char>) -> Option<Seq<char>> {
    if lit.len() >= 2 && lit[0] == '"' && lit[lit.len() - 1] == '"' {
        json_unescape(lit.subrange(1, lit.len() - 1))
    } else {
        None
    }
}

proof fn lemma_hex_digit_value(n: u32)
    requires
        n < 16,
    ensures
        hex_value(hex_digit(n)) == Some(n as int),
{
}

/// Reading back the escape of one character, then the rest.
proof fn lemma_unescape_char(c: char, t: Seq<char>)
    ensures
        json_unescape(json_escape_char(c) + t) == prepend(c, json_unescape(t)),
{
    let e = json_escape_char(c);
    let s = e + t;
    if c == '"' || c == '\\' || c == '\x08' || c == '\t' || c == '\n' || c == '\x0c' || c == '\r' {
        assert(s.subrange(2, s.len() as int) =~= t);
    } else if (c as u32) < 0x20 {
        let hi = (c as u32) / 16;
        let lo = (c as u32) % 16;
        lemma_hex_digit_value(0);
        lemma_hex_digit_value(hi);
        lemma_hex_digit_value(lo);
        assert(s[2] == '0' && s[3] == '0' && s[4] == hex_digit(hi) && s[5] == hex_digit(lo));
        assert(hex4_value(s, 2) == Some(c as int));
        assert(((c as int) as char) == c);
        assert(s.subrange(6, s.len() as int) =~= t);
    } else {
        assert(s.drop_first() =~= t);
    }
}

/// Reading back the escaped body of any text gives the text.
proof fn lemma_unescape_escape(s: Seq<char>)
    ensures
        json_unescape(json_escape(s)) == Some(s),
    decreases s.len(),
{
    if s.len() > 0 {
        lemma_unescape_escape(s.drop_first());
        lemma_unescape_char(s[0], json_escape(s.drop_first()));
        assert(seq![s[0]] + s.drop_first() =~= s);
    }
}

/// Decoding the JSON string literal of any text gives the text back.
pub proof fn law_json_round_trip(s: Seq<char>)
    ensures
        json_string_value(json_quote(s)) == Some(s),
{
    lemma_unescape_escape(s);
    let q = json_quote(s);
    assert(q.subrange(1, q.len() - 1) =~= json_escape(s));
}

} // verus!
