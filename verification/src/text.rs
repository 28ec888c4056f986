//! Character-level building blocks: the white-space predicate used for
//! tokenizing, conversions between `&str` and `Vec<char>`, and elementwise
//! comparison and slicing of character vectors.
use vstd::prelude::*;
use vstd::std_specs::iter::IteratorSpec;

verus! {

/// The characters that separate tokens: the Unicode white-space set, the same
/// set that `str::split_whitespace` splits on.
pub open spec fn is_space(c: char) -> bool {
    ||| c == ' '
    ||| c == '\t'
    ||| c == '\n'
    ||| c == '\u{0b}'
    ||| c == '\u{0c}'
    ||| c == '\r'
    ||| c == '\u{85}'
    ||| c == '\u{a0}'
    ||| c == '\u{1680}'
    ||| c == '\u{2000}'
    ||| c == '\u{2001}'
    ||| c == '\u{2002}'
    ||| c == '\u{2003}'
    ||| c == '\u{2004}'
    ||| c == '\u{2005}'
    ||| c == '\u{2006}'
    ||| c == '\u{2007}'
    ||| c == '\u{2008}'
    ||| c == '\u{2009}'
    ||| c == '\u{200a}'
    ||| c == '\u{2028}'
    ||| c == '\u{2029}'
    ||| c == '\u{202f}'
    ||| c == '\u{205f}'
    ||| c == '\u{3000}'
}

/// Whether `c` separates tokens.
pub fn is_space_char(c: char) -> (r: bool)
    ensures
        r == is_space(c),
{
    c == ' ' || c == '\t' || c == '\n' || c == '\u{0b}' || c == '\u{0c}' || c == '\r'
        || c == '\u{85}' || c == '\u{a0}' || c == '\u{1680}' || c == '\u{2000}' || c == '\u{2001}'
        || c == '\u{2002}' || c == '\u{2003}' || c == '\u{2004}' || c == '\u{2005}'
        || c == '\u{2006}' || c == '\u{2007}' || c == '\u{2008}' || c == '\u{2009}'
        || c == '\u{200a}' || c == '\u{2028}' || c == '\u{2029}' || c == '\u{202f}'
        || c == '\u{205f}' || c == '\u{3000}'
}

/// The characters of `s`, in order.
pub fn str_to_chars(s: &str) -> (r: Vec<char>)
    ensures
        r@ == s@,
{
    let mut it = s.chars();
    let mut r: Vec<char> = Vec::new();
    proof {
        assert(r@ + it.remaining() =~= s@);
    }
    loop
        invariant
            r@ + it.remaining() == s@,
            it.decrease() is Some,
        decreases it.decrease()->0,
    {
        match it.next() {
            Some(c) => {
                r.push(c);
                proof {
                    assert(r@ + it.remaining() =~= s@);
                }
            },
            None => {
                proof {
                    assert(r@ =~= s@);
                }
                return r;
            },
        }
    }
}

/// Relies on `String::push`: appends exactly the one character `c`.
#[verifier::external_body]
fn push_char(s: &mut String, c: char)
    ensures
        final(s)@ == old(s)@.push(c),
{
    s.push(c);
}

/// A `String` whose characters are exactly `v`.
pub fn chars_to_string(v: &Vec<char>) -> (r: String)
    ensures
        r@ == v@,
{
    let mut r = String::new();
    let mut i: usize = 0;
    proof {
        assert(r@ =~= v@.take(0));
    }
    while i < v.len()
        invariant
            i <= v@.len(),
            r@ == v@.take(i as int),
        decreases v@.len() - i,
    {
        push_char(&mut r, v[i]);
        i = i + 1;
        proof {
            assert(r@ =~= v@.take(i as int));
        }
    }
    proof {
        assert(v@.take(v@.len() as int) =~= v@);
    }
    r
}

/// Whether two character vectors hold the same characters.
pub fn vec_eq(a: &Vec<char>, b: &Vec<char>) -> (r: bool)
    ensures
        r == (a@ == b@),
{
    if a.len() != b.len() {
        return false;
    }
    let mut i: usize = 0;
    while i < a.len()
        invariant
            i <= a@.len(),
            a@.len() == b@.len(),
            forall|k: int| 0 <= k < i ==> a@[k] == b@[k],
        decreases a@.len() - i,
    {
        if a[i] != b[i] {
            return false;
        }
        i = i + 1;
    }
    proof {
        assert(a@ =~= b@);
    }
    true
}

/// How many characters the token starting at position `i` of `s` has: the
/// number of consecutive non-white-space characters from `i` on.
pub open spec fn token_len_from(s: Seq<char>, i: int) -> nat
    decreases s.len() - i,
{
    if i < 0 || i >= s.len() || is_space(s[i]) {
        0
    } else {
        (1 + token_len_from(s, i + 1)) as nat
    }
}

proof fn lemma_token_len_from_bound(s: Seq<char>, i: int)
    requires
        0 <= i <= s.len(),
    ensures
        i + token_len_from(s, i) <= s.len(),
    decreases s.len() - i,
{
    if i < s.len() && !is_space(s[i]) {
        lemma_token_len_from_bound(s, i + 1);
    }
}

/// If the characters of `s` from `i` (inclusive) to `j` (exclusive) are all
/// non-white-space, and `j` is the end of `s` or a white-space character, then
/// the token starting at `i` reaches exactly to `j`.
proof fn lemma_token_len_from_range(s: Seq<char>, i: int, j: int)
    requires
        0 <= i <= j <= s.len(),
        forall|k: int| i <= k < j ==> !is_space(s[k]),
        j == s.len() || is_space(s[j]),
    ensures
        token_len_from(s, i) == j - i,
    decreases j - i,
{
    if i < j {
        lemma_token_len_from_range(s, i + 1, j);
    }
}

/// The white-space-separated tokens of `s` from position `i` on, in order.
pub open spec fn spec_tokens_from(s: Seq<char>, i: int) -> Seq<Seq<char>>
    decreases s.len() - i,
    via spec_tokens_from_decreases
{
    if i < 0 || i >= s.len() {
        Seq::empty()
    } else if is_space(s[i]) {
        spec_tokens_from(s, i + 1)
    } else {
        seq![s.subrange(i, i + token_len_from(s, i))] + spec_tokens_from(
            s,
            i + token_len_from(s, i),
        )
    }
}

#[via_fn]
proof fn spec_tokens_from_decreases(s: Seq<char>, i: int) {
    if 0 <= i < s.len() && !is_space(s[i]) {
        lemma_token_len_from_bound(s, i);
    }
}

/// The white-space-separated tokens of `s`, in order: what
/// `str::split_whitespace` yields.
pub open spec fn spec_tokens(s: Seq<char>) -> Seq<Seq<char>> {
    spec_tokens_from(s, 0)
}

/// The white-space-separated tokens of `s`, as character vectors.
#[verifier::loop_isolation(false)]
pub fn tokenize_chars(s: &Vec<char>) -> (toks: Vec<Vec<char>>)
    ensures
        toks.deep_view() == spec_tokens(s@),
{
    let mut toks: Vec<Vec<char>> = Vec::new();
    let mut i: usize = 0;
    proof {
        assert(toks.deep_view() + spec_tokens_from(s@, 0) =~~= spec_tokens(s@));
    }
    while i < s.len()
        invariant
            i <= s@.len(),
            spec_tokens(s@) == toks.deep_view() + spec_tokens_from(s@, i as int),
        decreases s@.len() - i,
    {
        if is_space_char(s[i]) {
            i = i + 1;
        } else {
            let start = i;
            let mut j: usize = i;
            while j < s.len() && !is_space_char(s[j])
                invariant
                    start <= j <= s@.len(),
                    forall|k: int| start <= k < j ==> !is_space(s@[k]),
                decreases s@.len() - j,
            {
                j = j + 1;
            }
            proof {
                lemma_token_len_from_range(s@, start as int, j as int);
            }
            let tok = subvec(s, start, j);
            let ghost pre = toks.deep_view();
            toks.push(tok);
            proof {
                assert(tok.deep_view() =~= s@.subrange(start as int, j as int));
                assert(toks.deep_view() =~~= pre.push(tok.deep_view()));
                assert(pre.push(tok.deep_view()) + spec_tokens_from(s@, j as int) =~~= pre + (
                seq![tok.deep_view()] + spec_tokens_from(s@, j as int)));
            }
            i = j;
        }
    }
    proof {
        assert(toks.deep_view() + spec_tokens_from(s@, i as int) =~~= toks.deep_view());
    }
    toks
}

/// The white-space-separated tokens of `line`, in order.
#[verifier::loop_isolation(false)]
pub fn tokenize(line: &str) -> (toks: Vec<String>)
    ensures
        toks.deep_view() == spec_tokens(line@),
{
    let cs = str_to_chars(line);
    let tc = tokenize_chars(&cs);
    let mut toks: Vec<String> = Vec::new();
    let mut i: usize = 0;
    proof {
        assert(toks.deep_view() =~~= tc.deep_view().take(0));
    }
    while i < tc.len()
        invariant
            i <= tc@.len(),
            toks.deep_view() == tc.deep_view().take(i as int),
        decreases tc@.len() - i,
    {
        let t = chars_to_string(&tc[i]);
        toks.push(t);
        i = i + 1;
        proof {
            assert(toks.deep_view() =~~= tc.deep_view().take(i as int));
        }
    }
    proof {
        assert(tc.deep_view().take(tc@.len() as int) =~~= tc.deep_view());
    }
    toks
}

/// The characters of `v` from `from` (inclusive) to `to` (exclusive).
pub fn subvec(v: &Vec<char>, from: usize, to: usize) -> (r: Vec<char>)
    requires
        from <= to <= v@.len(),
    ensures
        r@ == v@.subrange(from as int, to as int),
{
    let mut r: Vec<char> = Vec::new();
    let mut i: usize = from;
    proof {
        assert(r@ =~= v@.subrange(from as int, from as int));
    }
    while i < to
        invariant
            from <= i <= to <= v@.len(),
            r@ == v@.subrange(from as int, i as int),
        decreases to - i,
    {
        r.push(v[i]);
        i = i + 1;
        proof {
            assert(r@ =~= v@.subrange(from as int, i as int));
        }
    }
    r
}

/// Whether the characters of `t` stand in `s` at position `i`.
pub open spec fn match_at(s: Seq<char>, t: Seq<char>, i: int) -> bool {
    0 <= i && i + t.len() <= s.len() && s.subrange(i, i + t.len()) == t
}

/// Whether `t` occurs anywhere in `s`.
pub open spec fn contains_seq(s: Seq<char>, t: Seq<char>) -> bool {
    exists|i: int| match_at(s, t, i)
}

/// Whether `i` is the first position at or after `from` where `t` occurs in `s`.
pub open spec fn first_match_from(s: Seq<char>, t: Seq<char>, from: int, i: int) -> bool {
    from <= i && match_at(s, t, i) && (forall|j: int| from <= j < i ==> !match_at(s, t, j))
}

/// Whether `t` occurs nowhere in `s` at or after position `from`.
pub open spec fn no_match_from(s: Seq<char>, t: Seq<char>, from: int) -> bool {
    forall|j: int| from <= j ==> !match_at(s, t, j)
}

/// Whether `t` stands in `s` at position `i`.
#[verifier::loop_isolation(false)]
fn match_here(s: &Vec<char>, t: &Vec<char>, i: usize) -> (r: bool)
    requires
        i + t@.len() <= s@.len(),
    ensures
        r == match_at(s@, t@, i as int),
{
    let _n = s.len();
    let mut k: usize = 0;
    while k < t.len()
        invariant
            k <= t@.len(),
            forall|m: int| 0 <= m < k ==> s@[i + m] == t@[m],
        decreases t@.len() - k,
    {
        if s[i + k] != t[k] {
            proof {
                assert(s@.subrange(i as int, i + t@.len())[k as int] == s@[i + k]);
            }
            return false;
        }
        k = k + 1;
    }
    proof {
        assert(s@.subrange(i as int, i + t@.len()) =~= t@);
    }
    true
}

/// The first position at or after `from` where `t` occurs in `s`, if there is
/// one.
#[verifier::loop_isolation(false)]
pub fn find_from(s: &Vec<char>, t: &Vec<char>, from: usize) -> (r: Option<usize>)
    ensures
        match r {
            Some(i) => first_match_from(s@, t@, from as int, i as int),
            None => no_match_from(s@, t@, from as int),
        },
{
    if t.len() > s.len() {
        return None;
    }
    if t.len() == 0 {
        if from <= s.len() {
            proof {
                assert(s@.subrange(from as int, from as int) =~= t@);
            }
            return Some(from);
        }
        return None;
    }
    let last = s.len() - t.len();
    let mut i: usize = from;
    while i <= last
        invariant
            from <= i,
            forall|j: int| from <= j < i ==> !match_at(s@, t@, j),
        decreases last + 1 - i,
    {
        if match_here(s, t, i) {
            return Some(i);
        }
        i = i + 1;
    }
    None
}

} // verus!
