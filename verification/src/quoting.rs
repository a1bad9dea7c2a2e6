//! Safe textual nesting: kakoune single-quoting for the editor's command
//! channel, and JSON string literals for the structured argument payload.
//! Both encodings come with decoding specifications and round-trip laws, so
//! a double-encoded payload provably survives both textual layers.
use vstd::prelude::*;
use crate::text::{str_chars, string_from_chars};

verus! {

// Editor quoting: wrap in single quotes, double every inner single quote.

/// One character of a quoted body: a single quote is doubled.
pub open spec fn kak_esc_char(c: char) -> Seq<char> {
    if c == '\'' {
        seq!['\'', '\'']
    } else {
        seq![c]
    }
}

/// The body of an editor-quoted string.
pub open spec fn kak_escaped(s: Seq<char>) -> Seq<char>
    decreases s.len(),
{
    if s.len() == 0 {
        Seq::empty()
    } else {
        kak_esc_char(s[0]) + kak_escaped(s.skip(1))
    }
}

/// An editor-quoted string: the escaped body wrapped in single quotes.
pub open spec fn editor_quote_spec(s: Seq<char>) -> Seq<char> {
    seq!['\''] + kak_escaped(s) + seq!['\'']
}

/// Reading back a quoted body: each doubled quote becomes one.
pub open spec fn kak_unescaped(t: Seq<char>) -> Option<Seq<char>>
    decreases t.len(),
{
    if t.len() == 0 {
        Some(Seq::empty())
    } else if t[0] == '\'' {
        if t.len() >= 2 && t[1] == '\'' {
            cons_decoded('\'', kak_unescaped(t.skip(2)))
        } else {
            None
        }
    } else {
        cons_decoded(t[0], kak_unescaped(t.skip(1)))
    }
}

/// Prefixes a decoded character to a decoded tail.
pub open spec fn cons_decoded(c: char, rest: Option<Seq<char>>) -> Option<Seq<char>> {
    match rest {
        Some(r) => Some(seq![c] + r),
        None => None,
    }
}

/// Reading back an editor-quoted string.
pub open spec fn editor_unquote_spec(t: Seq<char>) -> Option<Seq<char>> {
    if t.len() >= 2 && t[0] == '\'' && t[t.len() - 1] == '\'' {
        kak_unescaped(t.subrange(1, t.len() - 1))
    } else {
        None
    }
}

proof fn lemma_kak_escaped_push(s: Seq<char>, c: char)
    ensures
        kak_escaped(s.push(c)) == kak_escaped(s) + kak_esc_char(c),
    decreases s.len(),
{
    if s.len() == 0 {
        assert(s.push(c)[0] == c);
        assert(s.push(c).skip(1) =~= Seq::<char>::empty());
        assert(kak_escaped(s.push(c).skip(1)) =~= Seq::<char>::empty());
        assert(kak_escaped(s) =~= Seq::<char>::empty());
        assert(kak_escaped(s.push(c)) =~= kak_escaped(s) + kak_esc_char(c));
    } else {
        assert(s.push(c)[0] == s[0]);
        assert(s.push(c).skip(1) =~= s.skip(1).push(c));
        lemma_kak_escaped_push(s.skip(1), c);
        assert(kak_escaped(s.push(c)) =~= kak_escaped(s) + kak_esc_char(c));
    }
}

proof fn lemma_kak_unescape_escape(s: Seq<char>)
    ensures
        kak_unescaped(kak_escaped(s)) == Some(s),
    decreases s.len(),
{
    if s.len() == 0 {
        assert(kak_escaped(s) =~= Seq::<char>::empty());
    } else {
        let c = s[0];
        let rest = s.skip(1);
        lemma_kak_unescape_escape(rest);
        let t = kak_escaped(s);
        if c == '\'' {
            assert(t[0] == '\'');
            assert(t[1] == '\'');
            assert(t.skip(2) =~= kak_escaped(rest));
            assert(seq!['\''] + rest =~= s);
        } else {
            assert(t[0] == c);
            assert(t.skip(1) =~= kak_escaped(rest));
            assert(seq![c] + rest =~= s);
        }
    }
}

/// Law: editor quoting round-trips — un-quoting a quoted string gives back
/// the original text exactly, for every text.
pub proof fn lemma_editor_quote_round_trip(s: Seq<char>)
    ensures
        editor_unquote_spec(editor_quote_spec(s)) == Some(s),
{
    let q = editor_quote_spec(s);
    assert(q[0] == '\'');
    assert(q[q.len() - 1] == '\'');
    assert(q.subrange(1, q.len() - 1) =~= kak_escaped(s));
    lemma_kak_unescape_escape(s);
}

/// Quotes a text for the editor's command channel.
pub fn editor_quote(s: &str) -> (r: String)
    ensures
        r@ == editor_quote_spec(s@),
{
    let chars = str_chars(s);
    let mut out: Vec<char> = Vec::new();
    out.push('\'');
    let mut i: usize = 0;
    while i < chars.len()
        invariant
            chars@ == s@,
            i <= chars@.len(),
            out@ == seq!['\''] + kak_escaped(s@.subrange(0, i as int)),
        decreases chars@.len() - i,
    {
        let c = chars[i];
        if c == '\'' {
            out.push('\'');
            out.push('\'');
        } else {
            out.push(c);
        }
        proof {
            lemma_kak_escaped_push(s@.subrange(0, i as int), c);
            assert(s@.subrange(0, i + 1 as int) =~= s@.subrange(0, i as int).push(c));
            assert(out@ =~= seq!['\''] + kak_escaped(s@.subrange(0, i + 1 as int)));
        }
        i = i + 1;
    }
    out.push('\'');
    proof {
        assert(s@.subrange(0, s@.len() as int) =~= s@);
        assert(out@ =~= editor_quote_spec(s@));
    }
    string_from_chars(out)
}

// JSON string literals, written exactly as serde_json writes them: a double
// quote, each character escaped, a double quote. Escaped are the double
// quote, the backslash, and the control characters below U+0020 — five of
// them as two-character shortcuts, the rest as lowercase \u00xy.

/// The character for one lowercase hexadecimal digit.
pub open spec fn hex_digit(d: nat) -> char {
    if d < 10 {
        ((d + 0x30) as u8) as char
    } else {
        ((d + 0x57) as u8) as char
    }
}

/// The value of a lowercase hexadecimal digit, negative for any other
/// character.
pub open spec fn hex_val(c: char) -> int {
    if 0x30 <= c as u32 && c as u32 <= 0x39 {
        c as u32 - 0x30
    } else if 0x61 <= c as u32 && c as u32 <= 0x66 {
        c as u32 - 0x61 + 10
    } else {
        -1
    }
}

/// One character of a JSON string literal body.
pub open spec fn json_esc_char(c: char) -> Seq<char> {
    if c == '"' {
        seq!['\\', '"']
    } else if c == '\\' {
        seq!['\\', '\\']
    } else if c == '\u{08}' {
        seq!['\\', 'b']
    } else if c == '\u{09}' {
        seq!['\\', 't']
    } else if c == '\u{0A}' {
        seq!['\\', 'n']
    } else if c == '\u{0C}' {
        seq!['\\', 'f']
    } else if c == '\u{0D}' {
        seq!['\\', 'r']
    } else if (c as u32) < 0x20 {
        seq!['\\', 'u', '0', '0', hex_digit((c as u32 / 16) as nat), hex_digit((c as u32 % 16) as nat)]
    } else {
        seq![c]
    }
}

/// The body of a JSON string literal.
pub open spec fn json_escaped(s: Seq<char>) -> Seq<char>
    decreases s.len(),
{
    if s.len() == 0 {
        Seq::empty()
    } else {
        json_esc_char(s[0]) + json_escaped(s.skip(1))
    }
}

/// A JSON string literal: the escaped body wrapped in double quotes.
pub open spec fn json_str_lit(s: Seq<char>) -> Seq<char> {
    seq!['"'] + json_escaped(s) + seq!['"']
}

/// Reading back the body of a JSON string literal.
pub open spec fn json_unescaped(t: Seq<char>) -> Option<Seq<char>>
    decreases t.len(),
{
    if t.len() == 0 {
        Some(Seq::empty())
    } else if t[0] == '\\' {
        if t.len() < 2 {
            None
        } else if t[1] == '"' {
            cons_decoded('"', json_unescaped(t.skip(2)))
        } else if t[1] == '\\' {
            cons_decoded('\\', json_unescaped(t.skip(2)))
        } else if t[1] == 'b' {
            cons_decoded('\u{08}', json_unescaped(t.skip(2)))
        } else if t[1] == 't' {
            cons_decoded('\u{09}', json_unescaped(t.skip(2)))
        } else if t[1] == 'n' {
            cons_decoded('\u{0A}', json_unescaped(t.skip(2)))
        } else if t[1] == 'f' {
            cons_decoded('\u{0C}', json_unescaped(t.skip(2)))
        } else if t[1] == 'r' {
            cons_decoded('\u{0D}', json_unescaped(t.skip(2)))
        } else if t[1] == 'u' {
            if t.len() >= 6 && t[2] == '0' && t[3] == '0' && hex_val(t[4]) >= 0 && hex_val(t[5])
                >= 0 {
                cons_decoded(
                    ((hex_val(t[4]) * 16 + hex_val(t[5])) as u32) as char,
                    json_unescaped(t.skip(6)),
                )
            } else {
                None
            }
        } else {
            None
        }
    } else {
        cons_decoded(t[0], json_unescaped(t.skip(1)))
    }
}

/// Reading back a JSON string literal.
pub open spec fn json_unlit_spec(t: Seq<char>) -> Option<Seq<char>> {
    if t.len() >= 2 && t[0] == '"' && t[t.len() - 1] == '"' {
        json_unescaped(t.subrange(1, t.len() - 1))
    } else {
        None
    }
}

proof fn lemma_hex_digit_val(d: nat)
    requires
        d < 16,
    ensures
        hex_val(hex_digit(d)) == d,
{
}

proof fn lemma_json_unescape_escape(s: Seq<char>)
    ensures
        json_unescaped(json_escaped(s)) == Some(s),
    decreases s.len(),
{
    if s.len() == 0 {
        assert(json_escaped(s) =~= Seq::<char>::empty());
    } else {
        let c = s[0];
        let rest = s.skip(1);
        lemma_json_unescape_escape(rest);
        let ch = json_esc_char(c);
        let t = json_escaped(s);
        assert(t.skip(ch.len() as int) =~= json_escaped(rest));
        if c == '"' || c == '\\' || c == '\u{08}' || c == '\u{09}' || c == '\u{0A}' || c
            == '\u{0C}' || c == '\u{0D}' {
            assert(seq![c] + rest =~= s);
        } else if (c as u32) < 0x20 {
            let v = c as u32;
            lemma_hex_digit_val((v / 16) as nat);
            lemma_hex_digit_val((v % 16) as nat);
            assert(t[4] == hex_digit((v / 16) as nat));
            assert(t[5] == hex_digit((v % 16) as nat));
            assert(hex_val(t[4]) * 16 + hex_val(t[5]) == v);
            vstd::utf8::char_u32_cast(c, v);
            assert((v as char) == c);
            assert(seq![c] + rest =~= s);
        } else {
            assert(t[0] == c);
            assert(seq![c] + rest =~= s);
        }
    }
}

/// Law: a JSON string literal round-trips — reading the literal back gives
/// the original text exactly, for every text.
pub proof fn lemma_json_lit_round_trip(s: Seq<char>)
    ensures
        json_unlit_spec(json_str_lit(s)) == Some(s),
{
    let t = json_str_lit(s);
    assert(t[0] == '"');
    assert(t[t.len() - 1] == '"');
    assert(t.subrange(1, t.len() - 1) =~= json_escaped(s));
    lemma_json_unescape_escape(s);
}

/// Law: double encoding round-trips — removing the editor quoting gives the
/// embedded JSON string literal unchanged, and reading that literal gives
/// back the argument text bit for bit, whatever characters it holds.
pub proof fn lemma_double_encoding_round_trip(args: Seq<char>)
    ensures
        editor_unquote_spec(editor_quote_spec(json_str_lit(args))) == Some(json_str_lit(args)),
        json_unlit_spec(json_str_lit(args)) == Some(args),
{
    lemma_editor_quote_round_trip(json_str_lit(args));
    lemma_json_lit_round_trip(args);
}

/// Relies on `serde_json::to_string` for a string value: the JSON string
/// literal of it, escaped exactly as `json_str_lit` states; serializing a
/// string cannot fail.
#[verifier::external_body]
pub(crate) fn json_quote(s: &str) -> (r: String)
    ensures
        r@ == json_str_lit(s@),
{
    match serde_json::to_string(s) {
        Ok(r) => r,
        Err(_) => String::new(),
    }
}

} // verus!
