//! Character-sequence primitives shared by the version resolver and the
//! output parser: the prefix of a sequence up to the first occurrence of a
//! character, and a sequence with every occurrence of a character removed.

use vstd::prelude::*;
use vstd::string::StrSliceExecFns;
use vstd::string::StringExecFns;

verus! {

/// Whether `c` occurs anywhere in `s`.
pub open spec fn contains_char(s: Seq<char>, c: char) -> bool {
    exists|i: int| 0 <= i < s.len() && s[i] == c
}

/// The index of the first occurrence of `c` in `s`, or `s.len()` when `c`
/// does not occur.
pub open spec fn first_index(s: Seq<char>, c: char) -> int
    decreases s.len(),
{
    if s.len() == 0 {
        0
    } else if s[0] == c {
        0
    } else {
        1 + first_index(s.drop_first(), c)
    }
}

/// The characters of `s` strictly before the first occurrence of `c`, or
/// all of `s` when `c` does not occur.
pub open spec fn prefix_before(s: Seq<char>, c: char) -> Seq<char>
    decreases s.len(),
{
    if s.len() == 0 {
        Seq::empty()
    } else if s[0] == c {
        Seq::empty()
    } else {
        seq![s[0]] + prefix_before(s.drop_first(), c)
    }
}

/// `s` with every occurrence of `c` removed, order otherwise kept.
pub open spec fn without_char(s: Seq<char>, c: char) -> Seq<char>
    decreases s.len(),
{
    if s.len() == 0 {
        Seq::empty()
    } else if s.last() == c {
        without_char(s.drop_last(), c)
    } else {
        without_char(s.drop_last(), c).push(s.last())
    }
}

/// `first_index` points at the first occurrence of `c` (or at the end), and
/// `prefix_before` is exactly the text in front of it.
pub proof fn lemma_first_index(s: Seq<char>, c: char)
    ensures
        0 <= first_index(s, c) <= s.len(),
        forall|j: int| 0 <= j < first_index(s, c) ==> s[j] != c,
        first_index(s, c) < s.len() ==> s[first_index(s, c)] == c,
        contains_char(s, c) <==> first_index(s, c) < s.len(),
        prefix_before(s, c) == s.take(first_index(s, c)),
    decreases s.len(),
{
    if s.len() == 0 {
        assert(prefix_before(s, c) =~= s.take(0));
    } else if s[0] == c {
        assert(prefix_before(s, c) =~= s.take(0));
    } else {
        let t = s.drop_first();
        lemma_first_index(t, c);
        let k = first_index(t, c);
        assert(forall|j: int| 0 <= j < 1 + k ==> s[j] != c) by {
            assert(forall|j: int| 1 <= j < 1 + k ==> s[j] == t[j - 1]);
        }
        if contains_char(s, c) {
            let w = choose|i: int| 0 <= i < s.len() && s[i] == c;
            assert(t[w - 1] == c);
            assert(contains_char(t, c));
        }
        if contains_char(t, c) {
            let w = choose|i: int| 0 <= i < t.len() && t[i] == c;
            assert(s[w + 1] == c);
            assert(contains_char(s, c));
        }
        assert(prefix_before(s, c) =~= s.take(1 + k)) by {
            assert(prefix_before(s, c) == seq![s[0]] + t.take(k));
        }
    }
}

/// Any index below which `c` is absent and at which `c` stands (or which is
/// the length, when `c` is absent throughout) is the first index of `c`.
pub proof fn lemma_first_index_unique(s: Seq<char>, c: char, k: int)
    requires
        0 <= k <= s.len(),
        forall|j: int| 0 <= j < k ==> s[j] != c,
        k < s.len() ==> s[k] == c,
    ensures
        k == first_index(s, c),
{
    lemma_first_index(s, c);
    let f = first_index(s, c);
    if f < k {
        assert(s[f] != c);
    }
    if k < f {
        assert(s[k] != c);
    }
}

/// The index of the first occurrence of `c` in `s`, or the character count
/// of `s` when `c` does not occur.
pub fn find_char(s: &str, c: char) -> (r: usize)
    ensures
        r as int == first_index(s@, c),
        r <= s@.len(),
{
    let n = s.unicode_len();
    let mut i: usize = 0;
    while i < n
        invariant
            n == s@.len(),
            i <= n,
            forall|j: int| 0 <= j < i ==> s@[j] != c,
        decreases n - i,
    {
        if s.get_char(i) == c {
            proof {
                lemma_first_index_unique(s@, c, i as int);
            }
            return i;
        }
        i += 1;
    }
    proof {
        lemma_first_index_unique(s@, c, n as int);
    }
    i
}

/// The text of `s` in front of the first occurrence of `c`, or all of `s`
/// when `c` does not occur.
pub fn take_until(s: &str, c: char) -> (r: String)
    ensures
        r@ == prefix_before(s@, c),
{
    let k = find_char(s, c);
    proof {
        lemma_first_index(s@, c);
    }
    let sub = s.substring_char(0, k);
    String::from_str(sub)
}

/// `s` with every occurrence of `c` removed.
pub fn strip_char(s: &str, c: char) -> (r: String)
    ensures
        r@ == without_char(s@, c),
{
    let n = s.unicode_len();
    let mut out = String::new();
    let mut i: usize = 0;
    while i < n
        invariant
            n == s@.len(),
            i <= n,
            out@ == without_char(s@.take(i as int), c),
        decreases n - i,
    {
        let ch = s.get_char(i);
        proof {
            assert(s@.take(i + 1).drop_last() =~= s@.take(i as int));
            assert(s@.take(i + 1).last() == s@[i as int]);
        }
        if ch != c {
            let piece = s.substring_char(i, i + 1);
            proof {
                assert(piece@ =~= seq![s@[i as int]]);
                assert(out@.push(s@[i as int]) =~= out@ + piece@);
            }
            out.append(piece);
        }
        i += 1;
    }
    proof {
        assert(s@.take(n as int) =~= s@);
    }
    out
}

} // verus!
