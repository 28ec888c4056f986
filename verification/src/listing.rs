//! Rendering for `ls` and for the prompt: stripping the working directory's
//! display string from an entry's path, removing backslashes, and turning
//! backslashes into forward slashes.
use crate::text::{
    chars_to_string, contains_seq, find_from, first_match_from, no_match_from, str_to_chars,
    subvec,
};
use vstd::prelude::*;

verus! {

/// `s` without its backslash characters.
pub open spec fn strip_backslashes(s: Seq<char>) -> Seq<char> {
    s.filter(|c: char| c != '\\')
}

/// `s` with every backslash replaced by a forward slash.
pub open spec fn slashify(s: Seq<char>) -> Seq<char> {
    s.map_values(|c: char| if c == '\\' { '/' } else { c })
}

/// The characters of `v` without its backslashes.
#[verifier::loop_isolation(false)]
pub fn remove_backslashes(v: &Vec<char>) -> (r: Vec<char>)
    ensures
        r@ == strip_backslashes(v@),
{
    let mut r: Vec<char> = Vec::new();
    let mut i: usize = 0;
    proof {
        reveal(Seq::filter);
        assert(r@ =~= strip_backslashes(v@.take(0)));
    }
    while i < v.len()
        invariant
            i <= v@.len(),
            r@ == strip_backslashes(v@.take(i as int)),
        decreases v@.len() - i,
    {
        let c = v[i];
        if c != '\\' {
            r.push(c);
        }
        i = i + 1;
        proof {
            reveal(Seq::filter);
            assert(v@.take(i as int).drop_last() =~= v@.take(i as int - 1));
            assert(v@.take(i as int).last() == v@[i as int - 1]);
        }
    }
    proof {
        assert(v@.take(v@.len() as int) =~= v@);
    }
    r
}

/// The characters of `v` with every backslash replaced by a forward slash.
#[verifier::loop_isolation(false)]
pub fn replace_backslashes(v: &Vec<char>) -> (r: Vec<char>)
    ensures
        r@ == slashify(v@),
{
    let mut r: Vec<char> = Vec::new();
    let mut i: usize = 0;
    while i < v.len()
        invariant
            i <= v@.len(),
            r@.len() == i,
            forall|k: int| 0 <= k < i ==> r@[k] == slashify(v@)[k],
        decreases v@.len() - i,
    {
        let c = v[i];
        if c == '\\' {
            r.push('/');
        } else {
            r.push(c);
        }
        i = i + 1;
    }
    proof {
        assert(r@ =~= slashify(v@));
    }
    r
}

/// What `ls` prints for one directory entry: the part of the entry's path
/// between the first occurrence of the working directory's display string and
/// the next occurrence (or the end), with backslashes removed; `None` when the
/// display string does not occur in the path at all (the caller then fails,
/// as reading the missing piece does).
pub fn ls_entry_display(entry: &str, cwd_display: &str) -> (r: Option<String>)
    requires
        cwd_display@.len() >= 1,
    ensures
        (r is None) <==> !contains_seq(entry@, cwd_display@),
        r matches Some(out) ==> exists|i: int, e: int|
            {
                &&& first_match_from(entry@, cwd_display@, 0, i)
                &&& (first_match_from(entry@, cwd_display@, i + cwd_display@.len(), e)
                    || (no_match_from(entry@, cwd_display@, i + cwd_display@.len()) && e
                    == entry@.len()))
                &&& out@ == strip_backslashes(#[trigger] entry@.subrange(i + cwd_display@.len(), e))
            },
{
    let ec = str_to_chars(entry);
    let cc = str_to_chars(cwd_display);
    let _n = ec.len();
    match find_from(&ec, &cc, 0) {
        None => None,
        Some(i) => {
            let start = i + cc.len();
            let end = match find_from(&ec, &cc, start) {
                Some(j) => j,
                None => ec.len(),
            };
            let piece = subvec(&ec, start, end);
            let stripped = remove_backslashes(&piece);
            Some(chars_to_string(&stripped))
        },
    }
}

} // verus!
