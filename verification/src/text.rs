use vstd::prelude::*;
use vstd::string::StrSliceExecFns;

verus! {

/// `pat` occurs in `s` starting at position `i`.
pub open spec fn matches_at(s: Seq<char>, pat: Seq<char>, i: int) -> bool {
    0 <= i && i + pat.len() <= s.len() && s.subrange(i, i + pat.len() as int) == pat
}

/// `pat` occurs somewhere in `s`.
pub open spec fn has_substr(s: Seq<char>, pat: Seq<char>) -> bool {
    exists|i: int| matches_at(s, pat, i)
}

/// The characters of `s`, one vector slot per character.
pub fn chars_of(s: &str) -> (r: Vec<char>)
    ensures
        r@ == s@,
{
    let n = s.unicode_len();
    let mut r: Vec<char> = Vec::new();
    let mut i: usize = 0;
    while i < n
        invariant
            n == s@.len(),
            i <= n,
            r@ == s@.take(i as int),
        decreases n - i,
    {
        r.push(s.get_char(i));
        i += 1;
        assert(r@ =~= s@.take(i as int));
    }
    assert(r@ =~= s@);
    r
}

/// Whether `pat` occurs at position `i` of `hay`.
fn matches_at_exec(hay: &Vec<char>, pat: &Vec<char>, i: usize) -> (r: bool)
    requires
        i + pat@.len() <= hay@.len(),
    ensures
        r == matches_at(hay@, pat@, i as int),
{
    let n = hay.len();
    let m = pat.len();
    let mut j: usize = 0;
    while j < m
        invariant
            i + m <= n,
            n == hay@.len(),
            m == pat@.len(),
            j <= m,
            forall|k: int| 0 <= k < j ==> hay@[i + k] == pat@[k],
        decreases m - j,
    {
        if hay[i + j] != pat[j] {
            assert(!matches_at(hay@, pat@, i as int)) by {
                if hay@.subrange(i as int, i + pat@.len() as int) == pat@ {
                    assert(hay@.subrange(i as int, i + pat@.len() as int)[j as int] == hay@[i + j]);
                }
            }
            return false;
        }
        j += 1;
    }
    assert(hay@.subrange(i as int, i + pat@.len() as int) =~= pat@);
    true
}

/// Whether `pat` occurs anywhere in `hay`.
pub fn contains_substr(hay: &Vec<char>, pat: &Vec<char>) -> (r: bool)
    ensures
        r == has_substr(hay@, pat@),
{
    if pat.len() > hay.len() {
        assert(!has_substr(hay@, pat@));
        return false;
    }
    if pat.len() == 0 {
        assert(hay@.subrange(0, 0) =~= pat@);
        assert(matches_at(hay@, pat@, 0));
        return true;
    }
    let end = hay.len() - pat.len();
    let mut i: usize = 0;
    while i <= end
        invariant
            1 <= pat@.len(),
            end == hay@.len() - pat@.len(),
            end < usize::MAX,
            i <= end + 1,
            forall|k: int| 0 <= k < i ==> !matches_at(hay@, pat@, k),
        decreases end + 1 - i,
    {
        if matches_at_exec(hay, pat, i) {
            return true;
        }
        i += 1;
    }
    assert(!has_substr(hay@, pat@)) by {
        assert forall|k: int| !matches_at(hay@, pat@, k) by {
            if k > end {
                assert(k + pat@.len() > hay@.len());
            }
        }
    }
    false
}

/// A substring of `s` is still a substring after more text is appended.
pub proof fn lemma_has_substr_append(s: Seq<char>, t: Seq<char>, pat: Seq<char>)
    requires
        has_substr(s, pat),
    ensures
        has_substr(s + t, pat),
{
    let i = choose|i: int| matches_at(s, pat, i);
    assert((s + t).subrange(i, i + pat.len() as int) =~= s.subrange(i, i + pat.len() as int));
    assert(matches_at(s + t, pat, i));
}

/// Text that carries `pat` at position `i` of its middle part carries it
/// as a substring of the whole.
pub proof fn lemma_matches_at_embed(pre: Seq<char>, mid: Seq<char>, post: Seq<char>, pat: Seq<char>, i: int)
    requires
        matches_at(mid, pat, i),
    ensures
        has_substr(pre + mid + post, pat),
{
    let s = pre + mid + post;
    let j = pre.len() + i;
    assert(s.subrange(j as int, j + pat.len() as int) =~= mid.subrange(i, i + pat.len() as int));
    assert(matches_at(s, pat, j as int));
}

} // verus!
