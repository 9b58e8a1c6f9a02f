//! Colours typed as text: `#RRGGBB`, `#RRGGBBAA` and the short `#RGB`.
//!
//! Lenient on the way in and strict on the way out: somebody pasting a colour
//! from a style guide should not have to think about which notation it is
//! written in, and what is shown can always be typed back
//! ([`hex_round_trips`]).

use vstd::prelude::*;

use crate::text::{chars_of, is_white_space, string_from, trim_chars, trimmed, trim_end, trim_start};

verus! {

/// A colour as four 8-bit channels, straight (not premultiplied) alpha.
#[derive(Debug, Clone, Copy, PartialEq, Eq, Hash, Structural)]
pub struct Rgba8 {
    pub r: u8,
    pub g: u8,
    pub b: u8,
    pub a: u8,
}

/// The upper-case hexadecimal digit for `d`, which is below sixteen.
pub open spec fn upper_hex(d: int) -> char {
    if d < 10 {
        ((d + 48) as u32) as char
    } else {
        ((d + 55) as u32) as char
    }
}

/// A byte as two upper-case hexadecimal digits, as `{:02X}` writes it.
pub open spec fn hex_pair(v: u8) -> Seq<char> {
    seq![upper_hex((v / 16) as int), upper_hex((v % 16) as int)]
}

/// A colour as `#RRGGBB`, or `#RRGGBBAA` when it is not opaque.
pub open spec fn hex_of_spec(c: Rgba8) -> Seq<char> {
    let rgb = seq!['#'] + hex_pair(c.r) + hex_pair(c.g) + hex_pair(c.b);
    if c.a == 255 {
        rgb
    } else {
        rgb + hex_pair(c.a)
    }
}

/// `s` with every leading `#` taken off, as `trim_start_matches('#')` does.
pub open spec fn strip_hashes(s: Seq<char>) -> Seq<char>
    decreases s.len(),
{
    if s.len() > 0 && s[0] == '#' {
        strip_hashes(s.drop_first())
    } else {
        s
    }
}

/// The value of one hexadecimal digit, in either case; `None` for any other
/// character, signs included.
pub open spec fn hex_value(c: char) -> Option<u8> {
    let u = c as u32;
    if 48 <= u <= 57 {
        Some((u - 48) as u8)
    } else if 97 <= u <= 102 {
        Some((u - 87) as u8)
    } else if 65 <= u <= 70 {
        Some((u - 55) as u8)
    } else {
        None
    }
}

/// Is every character of `s` a hexadecimal digit?
pub open spec fn all_hex(s: Seq<char>) -> bool {
    forall|i: int| 0 <= i < s.len() ==> (#[trigger] hex_value(s[i])) is Some
}

/// The digit at `i`, as a number.
pub open spec fn digit_at(s: Seq<char>, i: int) -> int {
    hex_value(s[i])->0 as int
}

/// The two digits from `i` on, as a byte.
pub open spec fn pair_at(s: Seq<char>, i: int) -> u8 {
    (digit_at(s, i) * 16 + digit_at(s, i + 1)) as u8
}

/// What a colour typed as `text` reads as. The text is trimmed and its
/// leading hashes dropped; what is left must be three, six or eight
/// hexadecimal digits — `RGB`, each digit standing for a pair, `RRGGBB`, or
/// `RRGGBBAA` — and anything else is no colour.
pub open spec fn parse_hex_spec(text: Seq<char>) -> Option<Rgba8> {
    let s = strip_hashes(trimmed(text));
    if !all_hex(s) {
        None
    } else if s.len() == 3 {
        Some(
            Rgba8 {
                r: (digit_at(s, 0) * 17) as u8,
                g: (digit_at(s, 1) * 17) as u8,
                b: (digit_at(s, 2) * 17) as u8,
                a: 255,
            },
        )
    } else if s.len() == 6 {
        Some(Rgba8 { r: pair_at(s, 0), g: pair_at(s, 2), b: pair_at(s, 4), a: 255 })
    } else if s.len() == 8 {
        Some(Rgba8 { r: pair_at(s, 0), g: pair_at(s, 2), b: pair_at(s, 4), a: pair_at(s, 6) })
    } else {
        None
    }
}

fn hex_value_of(c: char) -> (r: Option<u8>)
    ensures
        r == hex_value(c),
{
    let u = c as u32;
    if 48 <= u && u <= 57 {
        Some((u - 48) as u8)
    } else if 97 <= u && u <= 102 {
        Some((u - 87) as u8)
    } else if 65 <= u && u <= 70 {
        Some((u - 55) as u8)
    } else {
        None
    }
}

fn upper_hex_char(d: u8) -> (c: char)
    requires
        d < 16,
    ensures
        c == upper_hex(d as int),
{
    if d < 10 {
        (d + 48) as char
    } else {
        (d + 55) as char
    }
}

fn push_hex_pair(chars: &mut Vec<char>, v: u8)
    ensures
        final(chars)@ == old(chars)@ + hex_pair(v),
{
    chars.push(upper_hex_char(v / 16));
    chars.push(upper_hex_char(v % 16));
    assert(final(chars)@ =~= old(chars)@ + hex_pair(v));
}

/// A colour as `#RRGGBB`, or `#RRGGBBAA` when it is not opaque.
pub fn hex_of(c: Rgba8) -> (r: String)
    ensures
        r@ == hex_of_spec(c),
{
    let mut v: Vec<char> = Vec::new();
    v.push('#');
    push_hex_pair(&mut v, c.r);
    push_hex_pair(&mut v, c.g);
    push_hex_pair(&mut v, c.b);
    if c.a != 255 {
        push_hex_pair(&mut v, c.a);
    }
    assert(v@ =~= hex_of_spec(c));
    string_from(&v)
}

/// The text [`parse_hex`] reads its digits from.
fn hex_digit_text(text: &str) -> (r: String)
    ensures
        r@ == strip_hashes(trimmed(text@)),
{
    let chars = chars_of(text);
    let trimmed_chars = trim_chars(&chars);
    let n = trimmed_chars.len();
    let mut start: usize = 0;
    assert(trimmed_chars@.subrange(0, n as int) =~= trimmed_chars@);
    while start < n && trimmed_chars[start] == '#'
        invariant
            n == trimmed_chars@.len(),
            start <= n,
            strip_hashes(trimmed_chars@) == strip_hashes(trimmed_chars@.subrange(start as int, n as int)),
        decreases n - start,
    {
        let ghost rest = trimmed_chars@.subrange(start as int, n as int);
        assert(rest[0] == '#');
        assert(rest.drop_first() =~= trimmed_chars@.subrange(start + 1, n as int));
        start = start + 1;
    }
    let mut digits: Vec<char> = Vec::new();
    let mut i = start;
    while i < n
        invariant
            start <= i <= n,
            n == trimmed_chars@.len(),
            digits@ =~= trimmed_chars@.subrange(start as int, i as int),
        decreases n - i,
    {
        digits.push(trimmed_chars[i]);
        i = i + 1;
    }
    proof {
        let rest = trimmed_chars@.subrange(start as int, n as int);
        if rest.len() > 0 {
            assert(rest[0] == trimmed_chars@[start as int]);
        }
        assert(strip_hashes(rest) == rest);
        assert(digits@ == strip_hashes(trimmed(text@)));
    }
    string_from(&digits)
}

/// The characters [`parse_hex`] reads digits from: the text trimmed, with
/// its leading hashes taken off.
fn hex_digit_chars(text: &str) -> (r: Vec<char>)
    ensures
        r@ == strip_hashes(trimmed(text@)),
{
    let s = hex_digit_text(text);
    chars_of(s.as_str())
}

/// Read `#RGB`, `#RRGGBB` or `#RRGGBBAA`, with or without the hash, in either
/// case, around any white space. Anything else — a sign, a stray letter, the
/// wrong number of digits — is refused rather than guessed at, so a
/// half-typed field does not repaint the stage on every keystroke.
pub fn parse_hex(text: &str) -> (r: Option<Rgba8>)
    ensures
        r == parse_hex_spec(text@),
{
    let s = hex_digit_chars(text);
    let n = s.len();
    let mut values: Vec<u8> = Vec::new();
    let mut i: usize = 0;
    while i < n
        invariant
            n == s@.len(),
            s@ == strip_hashes(trimmed(text@)),
            i <= n,
            values@.len() == i,
            forall|k: int| 0 <= k < i ==> (#[trigger] hex_value(s@[k])) == Some(values@[k]),
        decreases n - i,
    {
        match hex_value_of(s[i]) {
            Some(v) => values.push(v),
            None => {
                assert(hex_value(s@[i as int]) is None);
                assert(!all_hex(s@));
                return None;
            },
        }
        i = i + 1;
    }
    assert(all_hex(s@));
    assert forall|k: int| 0 <= k < n implies values@[k] < 16 && #[trigger] digit_at(s@, k) == values@[k] by {
        assert(hex_value(s@[k]) == Some(values@[k]));
    }
    if n == 3 {
        let (r, g, b) = (values[0], values[1], values[2]);
        assert(digit_at(s@, 0) == r && digit_at(s@, 1) == g && digit_at(s@, 2) == b);
        Some(Rgba8 { r: r * 17, g: g * 17, b: b * 17, a: 255 })
    } else if n == 6 || n == 8 {
        assert(digit_at(s@, 0) == values@[0] && digit_at(s@, 1) == values@[1]);
        assert(digit_at(s@, 2) == values@[2] && digit_at(s@, 3) == values@[3]);
        assert(digit_at(s@, 4) == values@[4] && digit_at(s@, 5) == values@[5]);
        let r = values[0] * 16 + values[1];
        let g = values[2] * 16 + values[3];
        let b = values[4] * 16 + values[5];
        let a = if n == 8 {
            assert(digit_at(s@, 6) == values@[6] && digit_at(s@, 7) == values@[7]);
            values[6] * 16 + values[7]
        } else {
            255u8
        };
        Some(Rgba8 { r, g, b, a })
    } else {
        None
    }
}

/// **What is shown can be typed back**: reading the text [`hex_of`] writes
/// gives back exactly the colour it was written from.
pub proof fn hex_round_trips(c: Rgba8)
    ensures
        parse_hex_spec(hex_of_spec(c)) == Some(c),
{
    let s = hex_of_spec(c);
    let body = s.drop_first();
    lemma_upper_hex((c.r / 16) as int);
    lemma_upper_hex((c.r % 16) as int);
    lemma_upper_hex((c.g / 16) as int);
    lemma_upper_hex((c.g % 16) as int);
    lemma_upper_hex((c.b / 16) as int);
    lemma_upper_hex((c.b % 16) as int);
    lemma_upper_hex((c.a / 16) as int);
    lemma_upper_hex((c.a % 16) as int);
    assert(body.subrange(0, 2) =~= hex_pair(c.r));
    assert(body.subrange(2, 4) =~= hex_pair(c.g));
    assert(body.subrange(4, 6) =~= hex_pair(c.b));
    if c.a != 255 {
        assert(body.subrange(6, 8) =~= hex_pair(c.a));
    }
    assert forall|i: int| 0 <= i < body.len() implies (#[trigger] hex_value(body[i])) is Some
        && hex_value(body[i])->0 < 16 && !is_white_space(body[i]) && body[i] != '#' by {}
    assert(s[0] == '#');
    assert(!is_white_space(s[0]));
    assert(trim_start(s) == s);
    assert(s.last() == body[body.len() - 1]);
    assert(trim_end(s) == s);
    assert(trimmed(s) == s);
    assert(strip_hashes(body) == body);
    assert(strip_hashes(s) == body);
    assert(all_hex(body));
    lemma_pair_reads_back(body, 0, c.r);
    lemma_pair_reads_back(body, 2, c.g);
    lemma_pair_reads_back(body, 4, c.b);
    if c.a != 255 {
        lemma_pair_reads_back(body, 6, c.a);
    }
}

proof fn lemma_upper_hex(d: int)
    requires
        0 <= d < 16,
    ensures
        hex_value(upper_hex(d)) == Some(d as u8),
        !is_white_space(upper_hex(d)),
        upper_hex(d) != '#',
{
}

proof fn lemma_pair_reads_back(body: Seq<char>, at: int, v: u8)
    requires
        0 <= at,
        at + 2 <= body.len(),
        body.subrange(at, at + 2) == hex_pair(v),
    ensures
        pair_at(body, at) == v,
{
    let hi = v / 16;
    let lo = v % 16;
    lemma_upper_hex(hi as int);
    lemma_upper_hex(lo as int);
    assert(body[at] == hex_pair(v)[0]);
    assert(body[at + 1] == hex_pair(v)[1]);
    assert(digit_at(body, at) == hi);
    assert(digit_at(body, at + 1) == lo);
    assert(hi * 16 + lo == v);
}

} // verus!
