//! Text encodings used by the markup: HTML escaping, JSON string literals and
//! decimal numbers.

use vstd::prelude::*;

verus! {

/// The characters that HTML escaping writes for one input character: the four
/// markup-significant characters become entities, every other character is kept.
pub open spec fn html_escape_char(c: char) -> Seq<char> {
    if c == '&' {
        seq!['&', 'a', 'm', 'p', ';']
    } else if c == '<' {
        seq!['&', 'l', 't', ';']
    } else if c == '>' {
        seq!['&', 'g', 't', ';']
    } else if c == '"' {
        seq!['&', 'q', 'u', 'o', 't', ';']
    } else {
        seq![c]
    }
}

/// HTML escaping of a whole text, character by character.
pub open spec fn html_escaped(s: Seq<char>) -> Seq<char>
    decreases s.len(),
{
    if s.len() == 0 {
        Seq::empty()
    } else {
        html_escaped(s.drop_last()) + html_escape_char(s.last())
    }
}

/// Escapes `text` for use as HTML content or as a quoted attribute value.
///
/// Calls maud's `Render::render_to` for `str`, which writes `&amp;`, `&lt;`,
/// `&gt;` and `&quot;` for `&`, `<`, `>` and `"` and copies every other byte.
#[verifier::external_body]
pub(crate) fn html_escape(text: &str) -> (escaped: String)
    ensures
        escaped@ == html_escaped(text@),
{
    let mut escaped = String::new();
    maud::Render::render_to(text, &mut escaped);
    escaped
}


/// The lower-case hexadecimal digit for a value below sixteen.
pub open spec fn hex_digit(d: int) -> char {
    if d < 10 {
        (48 + d) as char
    } else {
        (87 + d) as char
    }
}

/// The characters that JSON writes for one character inside a string literal:
/// quote and backslash are escaped, the control characters below U+0020 get
/// their short escape or a `\u00XX` escape, and all others are kept.
pub open spec fn json_escape_char(c: char) -> Seq<char> {
    if c == '"' {
        seq!['\\', '"']
    } else if c == '\\' {
        seq!['\\', '\\']
    } else if c == '\x08' {
        seq!['\\', 'b']
    } else if c == '\x0c' {
        seq!['\\', 'f']
    } else if c == '\n' {
        seq!['\\', 'n']
    } else if c == '\r' {
        seq!['\\', 'r']
    } else if c == '\t' {
        seq!['\\', 't']
    } else if (c as u32) < 0x20 {
        seq!['\\', 'u', '0', '0', hex_digit((c as int) / 16), hex_digit((c as int) % 16)]
    } else {
        seq![c]
    }
}

/// JSON escaping of the contents of a string, character by character.
pub open spec fn json_escaped(s: Seq<char>) -> Seq<char>
    decreases s.len(),
{
    if s.len() == 0 {
        Seq::empty()
    } else {
        json_escaped(s.drop_last()) + json_escape_char(s.last())
    }
}

/// A JSON string literal: the escaped contents between double quotes.
pub open spec fn json_string(s: Seq<char>) -> Seq<char> {
    seq!['"'] + json_escaped(s) + seq!['"']
}

/// Writes `text` as a JSON string literal.
///
/// Calls `serde_json::to_string` on the `str`, which writes the string between
/// quotes with `"`, `\` and the control characters below U+0020 escaped as
/// serde_json's escape table gives them; serialising a `str` cannot fail.
#[verifier::external_body]
pub(crate) fn json_string_literal(text: &str) -> (literal: String)
    ensures
        literal@ == json_string(text@),
{
    serde_json::to_string(text).unwrap_or_default()
}

/// The decimal digit character for a value below ten.
pub open spec fn digit_char(d: int) -> char {
    (48 + d) as char
}

/// The decimal representation of a natural number, without sign or leading
/// zeros.
pub open spec fn decimal(n: nat) -> Seq<char>
    decreases n,
{
    if n < 10 {
        seq![digit_char(n as int)]
    } else {
        decimal(n / 10).push(digit_char((n % 10) as int))
    }
}

/// Writes `n` in decimal.
///
/// Calls `ToString::to_string` on the `u64`, whose `Display` writes the number
/// in base ten without sign or leading zeros.
#[verifier::external_body]
pub(crate) fn decimal_string(n: u64) -> (digits: String)
    ensures
        digits@ == decimal(n as nat),
{
    n.to_string()
}


/// Escaped text holds no `<`, `>` or `"`: text placed in markup through
/// escaping can neither open a tag nor end an attribute value.
pub proof fn lemma_escaped_text_is_inert(s: Seq<char>)
    ensures
        forall|i: int|
            0 <= i < html_escaped(s).len() ==> {
                let c = #[trigger] html_escaped(s)[i];
                c != '<' && c != '>' && c != '"'
            },
    decreases s.len(),
{
    if s.len() > 0 {
        lemma_escaped_text_is_inert(s.drop_last());
        let prefix = html_escaped(s.drop_last());
        let tail = html_escape_char(s.last());
        assert forall|i: int| 0 <= i < html_escaped(s).len() implies {
            let c = #[trigger] html_escaped(s)[i];
            c != '<' && c != '>' && c != '"'
        } by {
            if i < prefix.len() {
                assert(html_escaped(s)[i] == prefix[i]);
            } else {
                assert(html_escaped(s)[i] == tail[i - prefix.len()]);
            }
        }
    }
}

/// Escaping distributes over concatenation.
pub proof fn lemma_escape_concat(a: Seq<char>, b: Seq<char>)
    ensures
        html_escaped(a + b) == html_escaped(a) + html_escaped(b),
    decreases b.len(),
{
    if b.len() == 0 {
        assert(a + b =~= a);
        assert(html_escaped(a) + html_escaped(b) =~= html_escaped(a));
    } else {
        lemma_escape_concat(a, b.drop_last());
        assert((a + b).drop_last() =~= a + b.drop_last());
        assert((a + b).last() == b.last());
        assert(html_escaped(a) + html_escaped(b) =~= html_escaped(a) + html_escaped(b.drop_last())
            + html_escape_char(b.last()));
    }
}


/// Whether `s` holds none of the characters that HTML escaping rewrites.
pub open spec fn html_plain(s: Seq<char>) -> bool {
    forall|i: int| 0 <= i < s.len() ==> s[i] != '&' && s[i] != '<' && s[i] != '>' && s[i] != '"'
}

/// Escaping leaves text without markup characters as it is.
pub proof fn lemma_escape_keeps_plain_text(s: Seq<char>)
    requires
        html_plain(s),
    ensures
        html_escaped(s) == s,
    decreases s.len(),
{
    if s.len() > 0 {
        let rest = s.drop_last();
        assert(html_plain(rest)) by {
            assert forall|i: int| 0 <= i < rest.len() implies rest[i] != '&' && rest[i] != '<' && rest[i] != '>'
                && rest[i] != '"' by {
                assert(rest[i] == s[i]);
            }
        }
        lemma_escape_keeps_plain_text(rest);
        assert(s =~= rest.push(s.last()));
        assert(html_escaped(s) =~= rest + seq![s.last()]);
    }
}

/// Whether `s` holds none of the characters that JSON escapes in a string.
pub open spec fn json_plain(s: Seq<char>) -> bool {
    forall|i: int| 0 <= i < s.len() ==> s[i] != '"' && s[i] != '\\' && (s[i] as u32) >= 0x20
}

/// A JSON string literal of text without quotes, backslashes or control
/// characters is that text between double quotes.
pub proof fn lemma_json_keeps_plain_text(s: Seq<char>)
    requires
        json_plain(s),
    ensures
        json_escaped(s) == s,
        json_string(s) == seq!['"'] + s + seq!['"'],
    decreases s.len(),
{
    if s.len() > 0 {
        let rest = s.drop_last();
        assert(json_plain(rest)) by {
            assert forall|i: int| 0 <= i < rest.len() implies rest[i] != '"' && rest[i] != '\\' && (rest[i] as u32)
                >= 0x20 by {
                assert(rest[i] == s[i]);
            }
        }
        lemma_json_keeps_plain_text(rest);
        assert(s =~= rest.push(s.last()));
        assert(json_escaped(s) =~= rest + seq![s.last()]);
    }
}

/// The number that a string of decimal digits denotes.
pub open spec fn digits_value(s: Seq<char>) -> int
    decreases s.len(),
{
    if s.len() == 0 {
        0
    } else {
        10 * digits_value(s.drop_last()) + (s.last() as int - 48)
    }
}

/// The decimal form of `n` is a non-empty string of the digits `0` to `9`,
/// without a leading zero unless it is `0` itself, and it denotes `n`.
pub proof fn lemma_decimal_denotes(n: nat)
    ensures
        decimal(n).len() > 0,
        forall|i: int| 0 <= i < decimal(n).len() ==> '0' <= #[trigger] decimal(n)[i] <= '9',
        decimal(n).len() > 1 ==> decimal(n)[0] != '0',
        digits_value(decimal(n)) == n,
    decreases n,
{
    let last = (n % 10) as int;
    assert(digit_char(last) as int == 48 + last);
    if n >= 10 {
        lemma_decimal_denotes(n / 10);
        let d = decimal(n);
        assert(d.drop_last() =~= decimal(n / 10));
        assert(d[0] == decimal(n / 10)[0]);
        assert(d.last() == digit_char(last));
        assert(digits_value(d) == 10 * digits_value(d.drop_last()) + (d.last() as int - 48));
        assert(10 * (n / 10) + n % 10 == n);
        if n / 10 < 10 {
            assert(digit_char((n / 10) as int) as int == 48 + n / 10);
        } else {
            lemma_decimal_denotes(n / 100);
            assert(n / 10 / 10 == n / 100);
        }
    } else {
        assert(decimal(n).drop_last() =~= Seq::<char>::empty());
        assert(digits_value(Seq::<char>::empty()) == 0);
        assert(decimal(n).last() == digit_char(n as int));
        assert(digit_char(n as int) as int == 48 + n);
    }
}

} // verus!
