//! Text as the panels read it: trimming, case-insensitive search, numbers
//! written out for a person, and the few conversions between `str` and the
//! character sequences the rest of the library reasons about.

use vstd::prelude::*;

verus! {

/// Unicode's `White_Space` property: the characters `str::trim` removes.
pub open spec fn is_white_space(c: char) -> bool {
    let u = c as u32;
    ||| 0x9 <= u <= 0xD
    ||| u == 0x20
    ||| u == 0x85
    ||| u == 0xA0
    ||| u == 0x1680
    ||| 0x2000 <= u <= 0x200A
    ||| u == 0x2028
    ||| u == 0x2029
    ||| u == 0x202F
    ||| u == 0x205F
    ||| u == 0x3000
}

/// Is `c` white space, in the sense of [`is_white_space`]?
pub fn char_is_white_space(c: char) -> (r: bool)
    ensures
        r == is_white_space(c),
{
    let u = c as u32;
    (0x9 <= u && u <= 0xD) || u == 0x20 || u == 0x85 || u == 0xA0 || u == 0x1680 || (0x2000 <= u
        && u <= 0x200A) || u == 0x2028 || u == 0x2029 || u == 0x202F || u == 0x205F || u == 0x3000
}

/// `s` with its leading white space removed.
pub open spec fn trim_start(s: Seq<char>) -> Seq<char>
    decreases s.len(),
{
    if s.len() > 0 && is_white_space(s[0]) {
        trim_start(s.drop_first())
    } else {
        s
    }
}

/// `s` with its trailing white space removed.
pub open spec fn trim_end(s: Seq<char>) -> Seq<char>
    decreases s.len(),
{
    if s.len() > 0 && is_white_space(s.last()) {
        trim_end(s.drop_last())
    } else {
        s
    }
}

/// `s` with white space removed from both ends, as `str::trim` does.
pub open spec fn trimmed(s: Seq<char>) -> Seq<char> {
    trim_end(trim_start(s))
}

/// Every character of `s` is white space (so an empty `s` is blank too).
pub open spec fn is_blank(s: Seq<char>) -> bool {
    forall|i: int| 0 <= i < s.len() ==> is_white_space(#[trigger] s[i])
}

/// Does `needle` occur in `hay` as a run of consecutive characters?
///
/// The empty needle occurs in everything, as with `str::contains`.
pub open spec fn contains_sub(hay: Seq<char>, needle: Seq<char>) -> bool {
    exists|i: int|
        0 <= i && i + needle.len() <= hay.len() && #[trigger] hay.subrange(i, i + needle.len())
            == needle
}

/// The characters of an optional string.
pub open spec fn opt_view(o: Option<String>) -> Option<Seq<char>> {
    match o {
        Some(s) => Some(s@),
        None => None,
    }
}

/// Does `s` start with `prefix`?
pub open spec fn starts_with(s: Seq<char>, prefix: Seq<char>) -> bool {
    prefix.len() <= s.len() && s.subrange(0, prefix.len() as int) == prefix
}

/// The decimal digit for `d`, which is below ten.
pub open spec fn digit_char(d: nat) -> char {
    if d == 0 {
        '0'
    } else if d == 1 {
        '1'
    } else if d == 2 {
        '2'
    } else if d == 3 {
        '3'
    } else if d == 4 {
        '4'
    } else if d == 5 {
        '5'
    } else if d == 6 {
        '6'
    } else if d == 7 {
        '7'
    } else if d == 8 {
        '8'
    } else {
        '9'
    }
}

/// `n` written in decimal, with no leading zeros, as `format!("{n}")` does.
pub open spec fn decimal(n: nat) -> Seq<char>
    decreases n,
{
    if n < 10 {
        seq![digit_char(n)]
    } else {
        decimal(n / 10).push(digit_char(n % 10))
    }
}

/// What `str::to_lowercase` returns for a string, character by character:
/// Unicode's lower-case mapping, which takes tables rather than lines to state.
pub uninterp spec fn lowercase_of(s: Seq<char>) -> Seq<char>;

/// The characters of `s`, in order.
pub fn chars_of(s: &str) -> (v: Vec<char>)
    ensures
        v@ == s@,
{
    let mut v: Vec<char> = Vec::new();
    for c in it: s.chars()
        invariant
            it.seq() == s@,
            v@ == it.seq().take(it.index() as int),
    {
        v.push(c);
        assert(v@ =~= it.seq().take(it.index() + 1));
    }
    assert(v@ =~= s@);
    v
}

/// `String::push`: the string with one more character on its end.
#[verifier::external_body]
fn push_char(s: &mut String, c: char)
    ensures
        final(s)@ == old(s)@.push(c),
{
    s.push(c);
}

/// A `String` holding exactly `chars`.
pub fn string_from(chars: &Vec<char>) -> (s: String)
    ensures
        s@ == chars@,
{
    let mut s = String::new();
    let mut i: usize = 0;
    while i < chars.len()
        invariant
            i <= chars@.len(),
            s@ == chars@.take(i as int),
        decreases chars@.len() - i,
    {
        push_char(&mut s, chars[i]);
        assert(s@ =~= chars@.take(i + 1));
        i = i + 1;
    }
    assert(s@ =~= chars@);
    s
}

/// `str::to_lowercase`: the string in lower case, by Unicode's mapping.
#[verifier::external_body]
pub(crate) fn to_lowercase(s: &str) -> (r: String)
    ensures
        r@ == lowercase_of(s@),
{
    s.to_lowercase()
}

proof fn lemma_trim_start_drop(s: Seq<char>, k: int)
    requires
        0 <= k < s.len(),
        forall|i: int| 0 <= i <= k ==> is_white_space(#[trigger] s[i]),
    ensures
        trim_start(s) == trim_start(s.subrange(k + 1, s.len() as int)),
    decreases k,
{
    assert(s.drop_first() =~= s.subrange(1, s.len() as int));
    if k > 0 {
        let t = s.drop_first();
        assert forall|i: int| 0 <= i <= k - 1 implies is_white_space(#[trigger] t[i]) by {
            assert(t[i] == s[i + 1]);
        }
        lemma_trim_start_drop(t, k - 1);
        assert(t.subrange(k, t.len() as int) =~= s.subrange(k + 1, s.len() as int));
    }
}

proof fn lemma_trim_end_drop(s: Seq<char>, k: int)
    requires
        0 <= k < s.len(),
        forall|i: int| k <= i < s.len() ==> is_white_space(#[trigger] s[i]),
    ensures
        trim_end(s) == trim_end(s.subrange(0, k)),
    decreases s.len() - k,
{
    assert(s.drop_last() =~= s.subrange(0, s.len() - 1));
    if k < s.len() - 1 {
        let t = s.drop_last();
        assert forall|i: int| k <= i < t.len() implies is_white_space(#[trigger] t[i]) by {
            assert(t[i] == s[i]);
        }
        lemma_trim_end_drop(t, k);
        assert(t.subrange(0, k) =~= s.subrange(0, k));
    }
}

/// Trimming leaves nothing exactly when everything was white space.
pub proof fn lemma_trimmed_empty_iff_blank(s: Seq<char>)
    ensures
        (trimmed(s).len() == 0) == is_blank(s),
    decreases s.len(),
{
    lemma_trim_start_blank(s);
    let t = trim_start(s);
    if t.len() > 0 {
        lemma_trim_start_head(s);
        lemma_trim_end_keeps_head(t);
    }
}

proof fn lemma_trim_start_blank(s: Seq<char>)
    ensures
        (trim_start(s).len() == 0) == is_blank(s),
    decreases s.len(),
{
    if s.len() > 0 && is_white_space(s[0]) {
        let t = s.drop_first();
        lemma_trim_start_blank(t);
        if is_blank(t) {
            assert forall|i: int| 0 <= i < s.len() implies is_white_space(#[trigger] s[i]) by {
                if i > 0 {
                    assert(s[i] == t[i - 1]);
                }
            }
        }
        if is_blank(s) {
            assert forall|i: int| 0 <= i < t.len() implies is_white_space(#[trigger] t[i]) by {
                assert(t[i] == s[i + 1]);
            }
        }
    } else if s.len() > 0 {
        assert(!is_white_space(s[0]));
    }
}

proof fn lemma_trim_start_head(s: Seq<char>)
    requires
        trim_start(s).len() > 0,
    ensures
        !is_white_space(trim_start(s)[0]),
    decreases s.len(),
{
    if s.len() > 0 && is_white_space(s[0]) {
        lemma_trim_start_head(s.drop_first());
    }
}

proof fn lemma_trim_end_keeps_head(t: Seq<char>)
    requires
        t.len() > 0,
        !is_white_space(t[0]),
    ensures
        trim_end(t).len() > 0,
    decreases t.len(),
{
    if t.len() > 1 && is_white_space(t.last()) {
        lemma_trim_end_keeps_head(t.drop_last());
    }
}

/// `chars` with white space removed from both ends, as `str::trim` does.
pub fn trim_chars(chars: &Vec<char>) -> (r: Vec<char>)
    ensures
        r@ == trimmed(chars@),
{
    let n = chars.len();
    let mut start: usize = 0;
    while start < n && char_is_white_space(chars[start])
        invariant
            n == chars@.len(),
            start <= n,
            forall|i: int| 0 <= i < start ==> is_white_space(#[trigger] chars@[i]),
        decreases n - start,
    {
        start = start + 1;
    }
    proof {
        if start > 0 {
            lemma_trim_start_drop(chars@, start - 1);
        } else {
            assert(chars@.subrange(0, n as int) =~= chars@);
        }
        if start < n {
            let rest = chars@.subrange(start as int, n as int);
            assert(rest[0] == chars@[start as int]);
        }
    }
    let ghost rest = chars@.subrange(start as int, n as int);
    assert(trim_start(chars@) == rest);
    let mut end: usize = n;
    while end > start && char_is_white_space(chars[end - 1])
        invariant
            start <= end <= n,
            n == chars@.len(),
            rest == chars@.subrange(start as int, n as int),
            forall|i: int| end <= i < n ==> is_white_space(#[trigger] chars@[i]),
        decreases end,
    {
        end = end - 1;
    }
    proof {
        let k = end - start;
        if end < n {
            assert forall|i: int| k <= i < rest.len() implies is_white_space(#[trigger] rest[i]) by {
                assert(rest[i] == chars@[start + i]);
            }
            lemma_trim_end_drop(rest, k as int);
        } else {
            assert(rest.subrange(0, k as int) =~= rest);
        }
        let kept = rest.subrange(0, k as int);
        if k > 0 {
            assert(kept.last() == chars@[end - 1]);
        }
        assert(trim_end(kept) == kept);
    }
    let mut r: Vec<char> = Vec::new();
    let mut i = start;
    while i < end
        invariant
            start <= i <= end <= n,
            n == chars@.len(),
            r@ =~= chars@.subrange(start as int, i as int),
        decreases end - i,
    {
        r.push(chars[i]);
        i = i + 1;
    }
    assert(r@ =~= rest.subrange(0, (end - start) as int));
    r
}

/// Is every character of `chars` white space?
pub fn is_blank_chars(chars: &Vec<char>) -> (r: bool)
    ensures
        r == is_blank(chars@),
        r == (trimmed(chars@).len() == 0),
{
    proof {
        lemma_trimmed_empty_iff_blank(chars@);
    }
    let mut i: usize = 0;
    while i < chars.len()
        invariant
            i <= chars@.len(),
            forall|k: int| 0 <= k < i ==> is_white_space(#[trigger] chars@[k]),
            (trimmed(chars@).len() == 0) == is_blank(chars@),
        decreases chars.len() - i,
    {
        if !char_is_white_space(chars[i]) {
            assert(!is_white_space(chars@[i as int]));
            return false;
        }
        i = i + 1;
    }
    true
}

/// Does `needle` occur at position `at` of `hay`?
fn occurs_at(hay: &Vec<char>, needle: &Vec<char>, at: usize) -> (r: bool)
    requires
        at + needle@.len() <= hay@.len(),
    ensures
        r == (hay@.subrange(at as int, at + needle@.len()) == needle@),
{
    let hay_len = hay.len();
    let mut j: usize = 0;
    while j < needle.len()
        invariant
            at + needle@.len() <= hay@.len(),
            hay@.len() == hay_len,
            j <= needle@.len(),
            forall|k: int| 0 <= k < j ==> hay@[at + k] == needle@[k],
        decreases needle.len() - j,
    {
        if hay[at + j] != needle[j] {
            assert(hay@.subrange(at as int, at + needle@.len())[j as int] != needle@[j as int]);
            return false;
        }
        j = j + 1;
    }
    assert(hay@.subrange(at as int, at + needle@.len()) =~= needle@);
    true
}

/// Does `needle` occur somewhere in `hay`, as `str::contains` asks?
pub fn contains_chars(hay: &Vec<char>, needle: &Vec<char>) -> (r: bool)
    ensures
        r == contains_sub(hay@, needle@),
{
    if needle.len() > hay.len() {
        return false;
    }
    let last = hay.len() - needle.len();
    let mut i: usize = 0;
    loop
        invariant
            last + needle@.len() == hay@.len(),
            i <= last,
            forall|k: int|
                0 <= k < i ==> #[trigger] hay@.subrange(k, k + needle@.len()) != needle@,
        decreases last - i,
    {
        if occurs_at(hay, needle, i) {
            return true;
        }
        if i == last {
            return false;
        }
        i = i + 1;
    }
}

/// Does `chars` start with `prefix`?
pub fn starts_with_chars(chars: &Vec<char>, prefix: &Vec<char>) -> (r: bool)
    ensures
        r == starts_with(chars@, prefix@),
{
    if prefix.len() > chars.len() {
        return false;
    }
    occurs_at(chars, prefix, 0)
}

fn digit(d: u64) -> (c: char)
    requires
        d < 10,
    ensures
        c == digit_char(d as nat),
{
    if d == 0 {
        '0'
    } else if d == 1 {
        '1'
    } else if d == 2 {
        '2'
    } else if d == 3 {
        '3'
    } else if d == 4 {
        '4'
    } else if d == 5 {
        '5'
    } else if d == 6 {
        '6'
    } else if d == 7 {
        '7'
    } else if d == 8 {
        '8'
    } else {
        '9'
    }
}

/// `n` in decimal, as `format!("{n}")` writes it.
pub fn decimal_chars(n: u64) -> (r: Vec<char>)
    ensures
        r@ == decimal(n as nat),
    decreases n,
{
    if n < 10 {
        let mut v = Vec::new();
        v.push(digit(n));
        v
    } else {
        let mut v = decimal_chars(n / 10);
        v.push(digit(n % 10));
        v
    }
}

/// Does a search match a name, both already in lower case? A search of
/// nothing matches every name.
pub open spec fn search_matches_spec(needle: Seq<char>, name: Seq<char>) -> bool {
    needle.len() == 0 || contains_sub(name, needle)
}

/// [`search_matches_spec`], for a search and a name both already lowered.
pub fn search_matches(needle: &str, name: &str) -> (r: bool)
    ensures
        r == search_matches_spec(needle@, name@),
{
    let n = chars_of(needle);
    if n.len() == 0 {
        return true;
    }
    let h = chars_of(name);
    contains_chars(&h, &n)
}

/// `s` with white space taken off both ends, as `str::trim` does.
pub fn trim_str(s: &str) -> (r: String)
    ensures
        r@ == trimmed(s@),
{
    let chars = chars_of(s);
    let kept = trim_chars(&chars);
    string_from(&kept)
}

/// Does `name` match the search typed as `search`? The search is trimmed and
/// both are lowered first, so the match ignores case and stray spaces.
pub fn name_matches_search(search: &str, name: &str) -> (r: bool)
    ensures
        r == search_matches_spec(lowercase_of(trimmed(search@)), lowercase_of(name@)),
{
    let trimmed_search = trim_str(search);
    let needle = to_lowercase(trimmed_search.as_str());
    let lowered = to_lowercase(name);
    search_matches(needle.as_str(), lowered.as_str())
}

/// Append the characters of `s` to `chars`.
pub fn push_str(chars: &mut Vec<char>, s: &str)
    ensures
        final(chars)@ == old(chars)@ + s@,
{
    let mut tail = chars_of(s);
    chars.append(&mut tail);
}

} // verus!
