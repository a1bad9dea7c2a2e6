//! Character-level text building: decimal rendering of numbers and editor
//! positions, turning character vectors into strings, and whitespace
//! trimming.
use vstd::prelude::*;
use crate::types::{KakounePosition, KakouneRange};

verus! {

/// The character for one decimal digit.
pub open spec fn digit_char(d: nat) -> char {
    ((d + 0x30) as u8) as char
}

/// The decimal digits of `n`, most significant first.
pub open spec fn dec_digits(n: nat) -> Seq<char>
    decreases n,
{
    if n < 10 {
        seq![digit_char(n)]
    } else {
        dec_digits(n / 10).push(digit_char(n % 10))
    }
}

/// Renders `n` in decimal.
pub fn u64_dec_chars(n: u64) -> (v: Vec<char>)
    ensures
        v@ == dec_digits(n as nat),
    decreases n,
{
    let d: u64 = n % 10;
    let c: char = (0x30u8 + (d as u8)) as char;
    proof {
        assert(c == digit_char((n as nat) % 10));
    }
    if n < 10 {
        let mut v: Vec<char> = Vec::new();
        v.push(c);
        proof {
            assert(v@ =~= dec_digits(n as nat));
        }
        v
    } else {
        let mut v = u64_dec_chars(n / 10);
        v.push(c);
        v
    }
}

/// Relies on `String::from_iter` over characters: the string holding exactly
/// the given characters in order.
#[verifier::external_body]
pub(crate) fn string_from_chars(v: Vec<char>) -> (s: String)
    ensures
        s@ == v@,
{
    String::from_iter(v)
}

/// The characters of `s`, one by one.
pub fn str_chars(s: &str) -> (v: Vec<char>)
    ensures
        v@ == s@,
{
    let n: usize = s.unicode_len();
    let mut v: Vec<char> = Vec::new();
    let mut i: usize = 0;
    while i < n
        invariant
            n == s@.len(),
            i <= n,
            v@ == s@.subrange(0, i as int),
        decreases n - i,
    {
        let c = s.get_char(i);
        v.push(c);
        i = i + 1;
        proof {
            assert(v@ =~= s@.subrange(0, i as int));
        }
    }
    proof {
        assert(s@.subrange(0, n as int) =~= s@);
    }
    v
}

/// What `str::trim` returns for the given characters: the text without its
/// leading and trailing whitespace.
pub uninterp spec fn trim_of(s: Seq<char>) -> Seq<char>;

/// Relies on `str::trim`: removes leading and trailing whitespace; the
/// result depends on the characters alone.
#[verifier::external_body]
pub(crate) fn trim(s: &str) -> (r: &str)
    ensures
        r@ == trim_of(s@),
{
    s.trim()
}

/// The editor text of a position: `line.column`.
pub open spec fn position_text(p: KakounePosition) -> Seq<char> {
    dec_digits(p.line as nat) + "."@ + dec_digits(p.column as nat)
}

impl KakounePosition {
    /// Renders the position as the editor writes it.
    pub fn display(&self) -> (r: String)
        ensures
            r@ == position_text(*self),
    {
        let mut v = u64_dec_chars(self.line);
        v.push('.');
        let tail = u64_dec_chars(self.column);
        proof {
            reveal_strlit(".");
            assert(v@ =~= dec_digits(self.line as nat) + "."@ + tail@.subrange(0, 0));
        }
        let mut j: usize = 0;
        while j < tail.len()
            invariant
                j <= tail@.len(),
                tail@ == dec_digits(self.column as nat),
                v@ == dec_digits(self.line as nat) + "."@ + tail@.subrange(
                    0,
                    j as int,
                ),
            decreases tail@.len() - j,
        {
            v.push(tail[j]);
            j = j + 1;
            proof {
                assert(v@ =~= dec_digits(self.line as nat) + "."@ + tail@.subrange(
                    0,
                    j as int,
                ));
            }
        }
        proof {
            assert(tail@.subrange(0, tail@.len() as int) =~= tail@);
            assert(v@ =~= position_text(*self));
        }
        string_from_chars(v)
    }
}

impl KakouneRange {
    /// Renders the range as the editor writes it: `start,end`.
    pub fn display(&self) -> (r: String)
        ensures
            r@ == position_text(self.start) + ","@ + position_text(self.end),
    {
        let mut out = self.start.display();
        out.append(",");
        let tail = self.end.display();
        out.append(tail.as_str());
        out
    }
}

} // verus!
