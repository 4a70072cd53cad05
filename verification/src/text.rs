//! String machinery for the classifier and the identifier extractor:
//! substring search and string equality over character sequences, fully
//! verified, and case folding behind one trusted wrapper.

use vstd::prelude::*;

verus! {

/// The needle `n` occurs in the haystack `h` starting at character index `i`.
pub open spec fn contains_at(h: Seq<char>, n: Seq<char>, i: int) -> bool {
    &&& 0 <= i
    &&& i + n.len() <= h.len()
    &&& h.subrange(i, i + n.len()) == n
}

/// The needle `n` occurs somewhere in the haystack `h`.
pub open spec fn contains_seq(h: Seq<char>, n: Seq<char>) -> bool {
    exists|i: int| contains_at(h, n, i)
}

/// Index of the first occurrence of `n` in `h` at or after position `i`.
pub open spec fn find_from(h: Seq<char>, n: Seq<char>, i: int) -> Option<int>
    decreases h.len() + 1 - i,
{
    if i < 0 || i + n.len() > h.len() {
        None
    } else if h.subrange(i, i + n.len()) == n {
        Some(i)
    } else {
        find_from(h, n, i + 1)
    }
}

/// Index of the first occurrence of `n` in `h`, if any.
pub open spec fn find_first(h: Seq<char>, n: Seq<char>) -> Option<int> {
    find_from(h, n, 0)
}

/// What `str::to_lowercase` returns; determined by the characters alone.
pub uninterp spec fn lower_of(s: Seq<char>) -> Seq<char>;

/// Relies on str::to_lowercase: the case-folded form of a string, a pure
/// function of its characters.
#[verifier::external_body]
pub(crate) fn lowercase(s: &str) -> (r: String)
    ensures
        r@ == lower_of(s@),
{
    s.to_lowercase()
}

pub proof fn lemma_find_from_some(h: Seq<char>, n: Seq<char>, i: int, j: int)
    requires
        0 <= i,
        find_from(h, n, i) == Some(j),
    ensures
        contains_at(h, n, j),
        i <= j,
        forall|k: int| i <= k < j ==> !contains_at(h, n, k),
    decreases h.len() + 1 - i,
{
    if i + n.len() > h.len() {
        // find_from is None here; contradiction with the precondition
    } else if h.subrange(i, i + n.len()) == n {
        // j == i, nothing before it to rule out
    } else {
        lemma_find_from_some(h, n, i + 1, j);
    }
}

pub proof fn lemma_find_from_none(h: Seq<char>, n: Seq<char>, i: int)
    requires
        0 <= i,
        find_from(h, n, i) is None,
    ensures
        forall|k: int| i <= k ==> !contains_at(h, n, k),
    decreases h.len() + 1 - i,
{
    if i + n.len() > h.len() {
        assert forall|k: int| i <= k implies !contains_at(h, n, k) by {
            assert(k + n.len() >= i + n.len());
        }
    } else {
        lemma_find_from_none(h, n, i + 1);
        assert(h.subrange(i, i + n.len()) != n);
    }
}

/// The characters of `token` appear in `source` starting at index `i`.
fn match_at(source: &str, token: &str, i: usize) -> (r: bool)
    requires
        i + token@.len() <= source@.len(),
    ensures
        r == contains_at(source@, token@, i as int),
{
    let slen: usize = source.unicode_len();
    let tlen: usize = token.unicode_len();
    let mut j: usize = 0;
    while j < tlen
        invariant
            slen == source@.len(),
            tlen == token@.len(),
            i + tlen <= slen,
            0 <= j <= tlen,
            forall|k: int| 0 <= k < j ==> source@[i + k] == token@[k],
        decreases tlen - j,
    {
        let sc = source.get_char(i + j);
        let tc = token.get_char(j);
        if sc != tc {
            assert(source@.subrange(i as int, i + tlen) != token@) by {
                assert(source@.subrange(i as int, i + tlen)[j as int] == source@[i + j]);
            }
            return false;
        }
        j = j + 1;
    }
    assert(source@.subrange(i as int, i + tlen) =~= token@);
    true
}

/// First occurrence of `token` in `source`, as a character index.
pub(crate) fn find_token(source: &str, token: &str) -> (r: Option<usize>)
    requires
        token@.len() >= 1,
    ensures
        match r {
            Some(i) => find_first(source@, token@) == Some(i as int),
            None => find_first(source@, token@) is None,
        },
{
    let slen: usize = source.unicode_len();
    let tlen: usize = token.unicode_len();
    if tlen > slen {
        return None;
    }
    let last: usize = slen - tlen;
    let mut i: usize = 0;
    while i <= last
        invariant
            slen == source@.len(),
            tlen == token@.len(),
            1 <= tlen <= slen,
            last == slen - tlen,
            0 <= i <= last + 1,
            find_from(source@, token@, 0) == find_from(source@, token@, i as int),
        decreases last + 1 - i,
    {
        if match_at(source, token, i) {
            assert(find_from(source@, token@, i as int) == Some(i as int));
            return Some(i);
        }
        assert(find_from(source@, token@, i as int) == find_from(source@, token@, i + 1));
        i = i + 1;
    }
    assert(find_from(source@, token@, i as int) is None);
    None
}

/// True exactly when `token` occurs as a substring of `source`.
pub(crate) fn contains_sub(source: &str, token: &str) -> (r: bool)
    requires
        token@.len() >= 1,
    ensures
        r == contains_seq(source@, token@),
{
    match find_token(source, token) {
        Some(i) => {
            proof {
                lemma_find_from_some(source@, token@, 0, i as int);
            }
            true
        }
        None => {
            proof {
                lemma_find_from_none(source@, token@, 0);
            }
            assert(!contains_seq(source@, token@));
            false
        }
    }
}

/// Character-for-character string equality.
pub(crate) fn str_eq(a: &str, b: &str) -> (r: bool)
    ensures
        r == (a@ == b@),
{
    let alen: usize = a.unicode_len();
    let blen: usize = b.unicode_len();
    if alen != blen {
        return false;
    }
    let r = match_at(a, b, 0);
    if r {
        assert(a@.subrange(0, a@.len() as int) =~= a@);
        assert(a@ =~= b@);
    } else {
        assert(a@.subrange(0, a@.len() as int) =~= a@);
    }
    r
}

} // verus!
