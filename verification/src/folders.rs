//! Which folders of a tree are shown open, kept by path.
//!
//! The Library and Assets panels both list folders that open and shut. What
//! is open is view state — it must survive a frame but never reach the file —
//! and is held as a list of folder paths, read as a set.

use vstd::prelude::*;

use crate::text::{chars_of, string_from};

verus! {

/// Does some string of `v` hold exactly the characters `p`?
pub open spec fn lists(v: Seq<String>, p: Seq<char>) -> bool {
    exists|k: int| 0 <= k < v.len() && #[trigger] v[k]@ == p
}

/// The folder paths `v` holds, as a set.
pub open spec fn open_set(v: Seq<String>) -> Set<Seq<char>> {
    Set::new(|p: Seq<char>| lists(v, p))
}

/// `open` with the folder at `path` flipped: shut if it was open, open if
/// it was shut.
pub open spec fn toggled(open: Set<Seq<char>>, path: Seq<char>) -> Set<Seq<char>> {
    if open.contains(path) {
        open.remove(path)
    } else {
        open.insert(path)
    }
}

pub proof fn lemma_lists_push(v: Seq<String>, x: String, p: Seq<char>)
    ensures
        lists(v.push(x), p) <==> (lists(v, p) || x@ == p),
{
    let w = v.push(x);
    if lists(w, p) {
        let k = choose|k: int| 0 <= k < w.len() && #[trigger] w[k]@ == p;
        if k < v.len() {
            assert(v[k]@ == p);
        }
    }
    if lists(v, p) {
        let k = choose|k: int| 0 <= k < v.len() && #[trigger] v[k]@ == p;
        assert(w[k]@ == p);
    }
    if x@ == p {
        assert(w[v.len() as int]@ == p);
    }
}

/// Is the folder at `path` among the open ones?
pub fn is_open(open: &Vec<String>, path: &str) -> (r: bool)
    ensures
        r == open_set(open@).contains(path@),
{
    let wanted = string_from(&chars_of(path));
    let mut i: usize = 0;
    while i < open.len()
        invariant
            i <= open@.len(),
            wanted@ == path@,
            !lists(open@.take(i as int), path@),
        decreases open@.len() - i,
    {
        proof {
            lemma_lists_push(open@.take(i as int), open@[i as int], path@);
            assert(open@.take(i + 1) =~= open@.take(i as int).push(open@[i as int]));
        }
        if open[i] == wanted {
            assert(lists(open@, path@)) by {
                assert(open@[i as int]@ == path@);
            }
            return true;
        }
        i = i + 1;
    }
    assert(open@.take(i as int) =~= open@);
    false
}

/// Open the folder at `path` if it is shut, shut it if it is open; every
/// other folder stays as it was.
pub fn toggle_open(open: &mut Vec<String>, path: &str)
    ensures
        open_set(final(open)@) == toggled(open_set(old(open)@), path@),
{
    let wanted = string_from(&chars_of(path));
    let ghost before = open_set(open@);
    let mut kept: Vec<String> = Vec::new();
    let mut found = false;
    let mut i: usize = 0;
    while i < open.len()
        invariant
            i <= open@.len(),
            open@ == old(open)@,
            wanted@ == path@,
            found == lists(open@.take(i as int), path@),
            !lists(kept@, path@),
            forall|p: Seq<char>|
                p != path@ ==> (#[trigger] lists(kept@, p) <==> lists(open@.take(i as int), p)),
        decreases open@.len() - i,
    {
        let ghost old_kept = kept@;
        let ghost prefix = open@.take(i as int);
        let item = open[i].clone();
        proof {
            assert(open@.take(i + 1) =~= prefix.push(item));
            lemma_lists_push(prefix, item, path@);
        }
        if item == wanted {
            found = true;
            assert forall|p: Seq<char>| p != path@ implies (#[trigger] lists(kept@, p) <==> lists(
                open@.take(i + 1),
                p,
            )) by {
                lemma_lists_push(prefix, item, p);
            }
        } else {
            kept.push(item);
            proof {
                lemma_lists_push(old_kept, item, path@);
            }
            assert forall|p: Seq<char>| p != path@ implies (#[trigger] lists(kept@, p) <==> lists(
                open@.take(i + 1),
                p,
            )) by {
                lemma_lists_push(prefix, item, p);
                lemma_lists_push(old_kept, item, p);
            }
        }
        i = i + 1;
    }
    assert(open@.take(i as int) =~= open@);
    let ghost old_kept = kept@;
    if !found {
        kept.push(wanted);
    }
    *open = kept;
    proof {
        let after = open_set(open@);
        if found {
            assert forall|p: Seq<char>| after.contains(p) <==> before.remove(path@).contains(p) by {
                if p != path@ {
                    assert(lists(old_kept, p) <==> lists(old(open)@, p));
                }
            }
            assert(after =~= before.remove(path@));
        } else {
            assert forall|p: Seq<char>| after.contains(p) <==> before.insert(path@).contains(p) by {
                lemma_lists_push(old_kept, wanted, p);
                if p != path@ {
                    assert(lists(old_kept, p) <==> lists(old(open)@, p));
                }
            }
            assert(after =~= before.insert(path@));
        }
    }
}

/// Every folder of `folders` open, and no other.
pub fn open_all(folders: &[String]) -> (r: Vec<String>)
    ensures
        open_set(r@) == open_set(folders@),
{
    let mut r: Vec<String> = Vec::new();
    let mut i: usize = 0;
    while i < folders.len()
        invariant
            i <= folders@.len(),
            r@ == folders@.take(i as int),
        decreases folders@.len() - i,
    {
        r.push(folders[i].clone());
        assert(r@ =~= folders@.take(i + 1));
        i = i + 1;
    }
    assert(r@ =~= folders@);
    r
}

/// **Opening a folder and opening it again leaves every folder as it was**:
/// the disclosure arrow is its own undo.
pub proof fn toggling_a_folder_twice_restores(open: Set<Seq<char>>, path: Seq<char>)
    ensures
        toggled(toggled(open, path), path) == open,
{
    assert(toggled(toggled(open, path), path) =~= open);
}

} // verus!
