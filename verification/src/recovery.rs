//! The recovery prompt's model: what was found after a crash, how each file is
//! named and dated for the person choosing, and what they chose.
//!
//! Autosave writes a recovery copy beside the document rather than over it, so
//! something has to offer it back — and it is offered, never opened behind the
//! user's back, because they may have meant to close without saving.

use std::path::PathBuf;

use vstd::prelude::*;

use crate::text::{
    chars_of, decimal, opt_view, decimal_chars, push_str, starts_with, starts_with_chars, string_from,
};

verus! {

/// `std::path::PathBuf`, carried through as it is: nothing here looks
/// inside a path except through [`file_name_of`].
#[verifier::external_type_specification]
#[verifier::external_body]
pub struct ExPathBuf(PathBuf);

/// `PathBuf::clone`, which the derived `Clone` of [`RecoveryEntry`] calls.
/// Nothing is claimed of the copy.
pub assume_specification[ <PathBuf as Clone>::clone ](p: &PathBuf) -> PathBuf;

/// `Path::file_name`, lossily converted to text: the last component of the
/// path, or `None` when it ends in `..` or has no components.
///
/// Which characters separate components depends on the platform the program
/// runs on, so nothing is promised of the result here.
#[verifier::external_body]
fn file_name_of(path: &PathBuf) -> (r: Option<String>) {
    path.file_name().map(|n| n.to_string_lossy().to_string())
}

/// `s` with every occurrence of `pat` taken out, matched left to right
/// without overlapping, as `str::replace(pat, "")` does.
pub open spec fn remove_all(s: Seq<char>, pat: Seq<char>) -> Seq<char>
    decreases s.len(),
{
    if s.len() == 0 || pat.len() == 0 {
        s
    } else if starts_with(s, pat) {
        remove_all(s.subrange(pat.len() as int, s.len() as int), pat)
    } else {
        seq![s[0]] + remove_all(s.drop_first(), pat)
    }
}

/// The name a recovery is listed under: the document's file name when there
/// is one, else the recovery file's own name without its suffix — and a
/// plain "Untitled work" for unsaved sessions, whose file names carry a
/// process id that means nothing to the reader.
pub open spec fn title_spec(document_name: Option<Seq<char>>, recovery_name: Option<Seq<char>>) -> Seq<char> {
    match document_name {
        Some(name) => name,
        None => {
            let stem = match recovery_name {
                Some(name) => remove_all(name, ".recovery.buzz"@),
                None => Seq::<char>::empty(),
            };
            if starts_with(stem, "untitled"@) || stem.len() == 0 {
                "Untitled work"@
            } else {
                stem
            }
        },
    }
}

/// `n units ago`, with the unit singular for one.
pub open spec fn ago(n: nat, unit: Seq<char>) -> Seq<char> {
    if n == 1 {
        "1 "@ + unit + " ago"@
    } else {
        decimal(n) + " "@ + unit + "s ago"@
    }
}

/// How long ago, in the terms somebody would judge it by.
pub open spec fn when_spec(age_seconds: nat) -> Seq<char> {
    if age_seconds < 60 {
        "just now"@
    } else if age_seconds < 3600 {
        ago(age_seconds / 60, "minute"@)
    } else if age_seconds < 86400 {
        ago(age_seconds / 3600, "hour"@)
    } else {
        ago(age_seconds / 86400, "day"@)
    }
}

proof fn lemma_remove_all_step(s: Seq<char>, pat: Seq<char>, i: int)
    requires
        pat.len() > 0,
        0 <= i < s.len(),
    ensures
        starts_with(s.subrange(i, s.len() as int), pat) ==> remove_all(s.subrange(i, s.len() as int), pat)
            == remove_all(s.subrange(i + pat.len(), s.len() as int), pat),
        !starts_with(s.subrange(i, s.len() as int), pat) ==> remove_all(s.subrange(i, s.len() as int), pat)
            == seq![s[i]] + remove_all(s.subrange(i + 1, s.len() as int), pat),
{
    let t = s.subrange(i, s.len() as int);
    if starts_with(t, pat) {
        assert(t.subrange(pat.len() as int, t.len() as int) =~= s.subrange(i + pat.len(), s.len() as int));
    } else {
        assert(t.drop_first() =~= s.subrange(i + 1, s.len() as int));
    }
}

/// `chars` with every occurrence of `pat` taken out, left to right.
pub fn remove_all_chars(chars: &Vec<char>, pat: &Vec<char>) -> (r: Vec<char>)
    requires
        pat@.len() > 0,
    ensures
        r@ == remove_all(chars@, pat@),
{
    let n = chars.len();
    let m = pat.len();
    let mut out: Vec<char> = Vec::new();
    let mut i: usize = 0;
    assert(chars@.subrange(0, n as int) =~= chars@);
    while i < n
        invariant
            n == chars@.len(),
            m == pat@.len(),
            m > 0,
            i <= n,
            out@ + remove_all(chars@.subrange(i as int, n as int), pat@) == remove_all(chars@, pat@),
        decreases n - i,
    {
        let ghost before = out@;
        let matched = m <= n - i && matches_at(chars, pat, i);
        proof {
            lemma_remove_all_step(chars@, pat@, i as int);
            let t = chars@.subrange(i as int, n as int);
            if i + m <= n {
                assert(t.subrange(0, m as int) =~= chars@.subrange(i as int, i + m));
            }
        }
        if matched {
            i = i + m;
        } else {
            out.push(chars[i]);
            proof {
                assert(out@ =~= before + seq![chars@[i as int]]);
            }
            i = i + 1;
        }
    }
    assert(chars@.subrange(n as int, n as int) =~= Seq::<char>::empty());
    assert(out@ + Seq::<char>::empty() =~= out@);
    out
}

fn matches_at(chars: &Vec<char>, pat: &Vec<char>, at: usize) -> (r: bool)
    requires
        at + pat@.len() <= chars@.len(),
    ensures
        r == (chars@.subrange(at as int, at + pat@.len()) == pat@),
{
    let len = chars.len();
    let mut j: usize = 0;
    while j < pat.len()
        invariant
            at + pat@.len() <= chars@.len(),
            chars@.len() == len,
            j <= pat@.len(),
            forall|k: int| 0 <= k < j ==> chars@[at + k] == pat@[k],
        decreases pat.len() - j,
    {
        if chars[at + j] != pat[j] {
            assert(chars@.subrange(at as int, at + pat@.len())[j as int] != pat@[j as int]);
            return false;
        }
        j = j + 1;
    }
    assert(chars@.subrange(at as int, at + pat@.len()) =~= pat@);
    true
}

/// The name to list a recovery under, given the document's file name (if it
/// has a document that still has one) and the recovery file's own name.
pub fn title_from_names(document_name: Option<String>, recovery_name: Option<String>) -> (r: String)
    ensures
        r@ == title_spec(opt_view(document_name), opt_view(recovery_name)),
{
    match document_name {
        Some(name) => name,
        None => {
            let stem = match recovery_name {
                Some(name) => {
                    let chars = chars_of(name.as_str());
                    let suffix = chars_of(".recovery.buzz");
                    proof {
                        reveal_strlit(".recovery.buzz");
                    }
                    remove_all_chars(&chars, &suffix)
                },
                None => Vec::new(),
            };
            let untitled = chars_of("untitled");
            if starts_with_chars(&stem, &untitled) || stem.len() == 0 {
                String::from_str("Untitled work")
            } else {
                string_from(&stem)
            }
        },
    }
}

/// `n units ago`, with the unit singular for one.
fn ago_chars(n: u64, unit: &str) -> (r: Vec<char>)
    ensures
        r@ == ago(n as nat, unit@),
{
    if n == 1 {
        let mut v = chars_of("1 ");
        push_str(&mut v, unit);
        push_str(&mut v, " ago");
        v
    } else {
        let mut v = decimal_chars(n);
        push_str(&mut v, " ");
        push_str(&mut v, unit);
        push_str(&mut v, "s ago");
        v
    }
}

/// One recovery file, described for the list.
///
/// The file names of both paths are read once, where the entry is made, and
/// kept beside the paths: the title is a function of those names.
#[derive(Debug, Clone, PartialEq, Eq)]
pub struct RecoveryEntry {
    pub path: PathBuf,
    /// The document it belongs to, if that file is still there.
    pub document: Option<PathBuf>,
    /// How long ago it was written, in seconds.
    pub age_seconds: u64,
    /// The file name of `document`, when there is one and it has a name.
    pub document_name: Option<String>,
    /// The file name of `path`, when it has one.
    pub recovery_name: Option<String>,
}

/// A copy of an optional name.
fn copy_name(name: &Option<String>) -> (r: Option<String>)
    ensures
        opt_view(r) == opt_view(*name),
{
    match name {
        Some(n) => Some(n.clone()),
        None => None,
    }
}

impl RecoveryEntry {
    /// Describe the recovery file at `path`, written `age_seconds` ago, whose
    /// document is `document` if that file is still there.
    ///
    /// The names are the paths' last components as the standard library
    /// splits them on this platform; an entry with no document has no
    /// document name.
    pub fn new(path: PathBuf, document: Option<PathBuf>, age_seconds: u64) -> (r: Self)
        ensures
            r.path == path,
            r.document == document,
            r.age_seconds == age_seconds,
            document is None ==> r.document_name is None,
    {
        let document_name = match &document {
            Some(d) => file_name_of(d),
            None => None,
        };
        let recovery_name = file_name_of(&path);
        RecoveryEntry { path, document, age_seconds, document_name, recovery_name }
    }

    /// The name to show: the document's, or the recovery's own stem — see
    /// [`title_from_names`].
    pub fn title(&self) -> (r: String)
        ensures
            r@ == title_spec(opt_view(self.document_name), opt_view(self.recovery_name)),
    {
        title_from_names(copy_name(&self.document_name), copy_name(&self.recovery_name))
    }

    /// "4 minutes ago", in the terms somebody would judge it by.
    pub fn when(&self) -> (r: String)
        ensures
            r@ == when_spec(self.age_seconds as nat),
    {
        let s = self.age_seconds;
        let chars = if s < 60 {
            chars_of("just now")
        } else if s < 3600 {
            ago_chars(s / 60, "minute")
        } else if s < 86400 {
            ago_chars(s / 3600, "hour")
        } else {
            ago_chars(s / 86400, "day")
        };
        string_from(&chars)
    }

    /// Was this work never saved to a document at all?
    pub fn is_unsaved_work(&self) -> (r: bool)
        ensures
            r == (self.document is None),
    {
        self.document.is_none()
    }
}

/// Panel state: what was found.
#[derive(Debug, Clone)]
pub struct RecoveryState {
    pub found: Vec<RecoveryEntry>,
}

impl Default for RecoveryState {
    fn default() -> (r: Self)
        ensures
            r.found@.len() == 0,
    {
        RecoveryState { found: Vec::new() }
    }
}

impl RecoveryState {
    /// The prompt is shown exactly when something was found.
    pub fn is_open(&self) -> (r: bool)
        ensures
            r == (self.found@.len() > 0),
    {
        self.found.len() > 0
    }
}

/// What the user chose.
#[derive(Debug, Clone, PartialEq)]
pub enum RecoveryChoice {
    /// Nothing yet.
    NoChoice,
    /// Open this recovery file.
    Recover(RecoveryEntry),
    /// Delete it.
    Discard(RecoveryEntry),
    /// Leave everything alone; ask again next launch.
    Later,
}

impl Default for RecoveryChoice {
    fn default() -> (r: Self)
        ensures
            r is NoChoice,
    {
        RecoveryChoice::NoChoice
    }
}

} // verus!
