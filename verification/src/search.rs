//! The `searchfile` core: case-insensitive substring search, and the split of
//! the lower-cased content into segments, each segment keeping its trailing
//! occurrence of the search term.
use crate::text::{chars_to_string, contains_seq, find_from, match_at, str_to_chars, subvec};
use vstd::prelude::*;
use vstd::string::StringExecFns;

verus! {

/// What a search found: nothing, or the lower-cased content split into
/// segments.
#[derive(Debug, PartialEq, Eq)]
pub enum SearchOutcome {
    NotFound,
    Found { segments: Vec<String> },
}

/// Whether `s` ends with `t`.
pub open spec fn ends_with(s: Seq<char>, t: Seq<char>) -> bool {
    t.len() <= s.len() && match_at(s, t, s.len() - t.len())
}

/// Whether the only place `t` can occur in `s` is at the very end.
pub open spec fn only_at_end(s: Seq<char>, t: Seq<char>) -> bool {
    forall|i: int| match_at(s, t, i) ==> i == s.len() - t.len()
}

/// The segments joined back together, in order.
pub open spec fn concat_all(segs: Seq<Seq<char>>) -> Seq<char>
    decreases segs.len(),
{
    if segs.len() == 0 {
        Seq::empty()
    } else {
        segs[0] + concat_all(segs.drop_first())
    }
}

proof fn lemma_concat_all_push(segs: Seq<Seq<char>>, x: Seq<char>)
    ensures
        concat_all(segs.push(x)) == concat_all(segs) + x,
    decreases segs.len(),
{
    reveal_with_fuel(concat_all, 2);
    if segs.len() == 0 {
        assert(segs.push(x).drop_first() =~~= Seq::<Seq<char>>::empty());
        assert(concat_all(segs.push(x)) == x + concat_all(Seq::<Seq<char>>::empty()));
        assert(x + Seq::<char>::empty() =~= x);
        assert(Seq::<char>::empty() + x =~= x);
    } else {
        lemma_concat_all_push(segs.drop_first(), x);
        assert(segs.push(x).drop_first() =~~= segs.drop_first().push(x));
        assert(concat_all(segs.push(x)) == segs[0] + concat_all(segs.drop_first().push(x)));
        assert(segs[0] + (concat_all(segs.drop_first()) + x) =~= (segs[0] + concat_all(
            segs.drop_first(),
        )) + x);
    }
}

/// Exactly the split that `str::split_inclusive` makes with the term as the
/// pattern: the segments are non-empty and join back to `buf`, every segment
/// but the last ends with the term, and no segment holds the term anywhere but
/// as its own ending.
pub open spec fn segments_ok(segs: Seq<Seq<char>>, buf: Seq<char>, t: Seq<char>) -> bool {
    &&& segs.len() >= 1
    &&& concat_all(segs) == buf
    &&& forall|k: int| 0 <= k < segs.len() ==> (#[trigger] segs[k]).len() >= 1
    &&& forall|k: int| 0 <= k < segs.len() - 1 ==> ends_with(#[trigger] segs[k], t)
    &&& forall|k: int| 0 <= k < segs.len() ==> only_at_end(#[trigger] segs[k], t)
}

/// Search the already lower-cased `buf` for the already lower-cased `term`:
/// `NotFound` exactly when the term is not a substring, else the split of
/// `buf` into segments, each but the last ending with the term.
#[verifier::loop_isolation(false)]
pub fn search_lowered(buf: &Vec<char>, term: &Vec<char>) -> (r: SearchOutcome)
    requires
        term@.len() >= 1,
    ensures
        (r is NotFound) <==> !contains_seq(buf@, term@),
        r matches SearchOutcome::Found { segments } ==> segments_ok(
            segments.deep_view(),
            buf@,
            term@,
        ),
{
    match find_from(buf, term, 0) {
        None => {
            return SearchOutcome::NotFound;
        },
        Some(_) => {},
    }
    let blen = buf.len();
    let mut segments: Vec<String> = Vec::new();
    let mut pos: usize = 0;
    proof {
        assert(concat_all(segments.deep_view()) =~= buf@.take(0));
    }
    loop
        invariant
            pos <= buf@.len(),
            contains_seq(buf@, term@),
            concat_all(segments.deep_view()) == buf@.take(pos as int),
            pos > 0 ==> segments.deep_view().len() >= 1,
            forall|k: int| 0 <= k < segments.deep_view().len() ==> (#[trigger] segments.deep_view()[k]).len() >= 1,
            forall|k: int|
                0 <= k < segments.deep_view().len() ==> ends_with(
                    #[trigger] segments.deep_view()[k],
                    term@,
                ),
            forall|k: int|
                0 <= k < segments.deep_view().len() ==> only_at_end(
                    #[trigger] segments.deep_view()[k],
                    term@,
                ),
        decreases buf@.len() - pos,
    {
        match find_from(buf, term, pos) {
            Some(i) => {
                let end = i + term.len();
                let seg = subvec(buf, pos, end);
                let ghost pre = segments.deep_view();
                let seg_string = chars_to_string(&seg);
                segments.push(seg_string);
                proof {
                    assert(segments.deep_view() =~~= pre.push(seg@));
                    lemma_concat_all_push(pre, seg@);
                    assert(buf@.take(pos as int) + buf@.subrange(pos as int, end as int) =~= buf@.take(
                        end as int,
                    ));
                    assert(seg@.subrange(seg@.len() - term@.len(), seg@.len() as int) =~= buf@.subrange(
                        i as int,
                        end as int,
                    ));
                    assert(ends_with(seg@, term@));
                    assert forall|m: int| match_at(seg@, term@, m) implies m == seg@.len()
                        - term@.len() by {
                        if m < seg@.len() - term@.len() {
                            assert(buf@.subrange(pos + m, pos + m + term@.len()) =~= seg@.subrange(
                                m,
                                m + term@.len(),
                            ));
                            assert(match_at(buf@, term@, pos + m));
                        }
                    }
                }
                pos = end;
            },
            None => {
                if pos < blen {
                    let seg = subvec(buf, pos, blen);
                    let ghost pre = segments.deep_view();
                    let seg_string = chars_to_string(&seg);
                    segments.push(seg_string);
                    proof {
                        assert(segments.deep_view() =~~= pre.push(seg@));
                        lemma_concat_all_push(pre, seg@);
                        assert(buf@.take(pos as int) + buf@.subrange(
                            pos as int,
                            buf@.len() as int,
                        ) =~= buf@.take(buf@.len() as int));
                        assert forall|m: int| !match_at(seg@, term@, m) by {
                            if match_at(seg@, term@, m) {
                                assert(buf@.subrange(pos + m, pos + m + term@.len())
                                    =~= seg@.subrange(m, m + term@.len()));
                                assert(match_at(buf@, term@, pos + m));
                                assert(false);
                            }
                        }
                    }
                }
                proof {
                    assert(buf@.take(buf@.len() as int) =~= buf@);
                    if pos == 0 {
                        let ghost w = choose|j: int| match_at(buf@, term@, j);
                        assert(match_at(buf@, term@, w));
                        assert(false);
                    }
                }
                return SearchOutcome::Found { segments };
            },
        }
    }
}

/// How `str::to_lowercase` folds case: a function of the characters alone.
pub uninterp spec fn lower_of(s: Seq<char>) -> Seq<char>;

/// Relies on `str::to_lowercase`: the result depends on the characters alone,
/// and it is empty exactly when the input is.
#[verifier::external_body]
fn to_lower(s: &str) -> (r: String)
    ensures
        r@ == lower_of(s@),
        (s@.len() == 0) <==> (r@.len() == 0),
{
    s.to_lowercase()
}

/// Lower-case `content` and `term`, then search: `NotFound` exactly when the
/// lower-cased term is not a substring of the lower-cased content, else the
/// lower-cased content split into segments, each but the last ending with the
/// lower-cased term.
pub fn search_file(content: &str, term: &str) -> (r: SearchOutcome)
    requires
        term@.len() >= 1,
    ensures
        (r is NotFound) <==> !contains_seq(lower_of(content@), lower_of(term@)),
        r matches SearchOutcome::Found { segments } ==> segments_ok(
            segments.deep_view(),
            lower_of(content@),
            lower_of(term@),
        ),
{
    let lc = to_lower(content);
    let lt = to_lower(term);
    let bufc = str_to_chars(lc.as_str());
    let termc = str_to_chars(lt.as_str());
    search_lowered(&bufc, &termc)
}

/// The line printed when the term is not found: `<term> not in <path>`.
pub fn not_found_message(term: &str, path: &str) -> (r: String)
    ensures
        r@ == term@ + " not in "@ + path@,
{
    let mut r = String::from_str(term);
    r.append(" not in ");
    r.append(path);
    r
}

} // verus!
