//! Character-level text operations the grading engine is built on:
//! trimming surrounding whitespace and substring containment.

use vstd::prelude::*;

verus! {

/// Whether `c` is a whitespace character (the Unicode `White_Space` set).
pub open spec fn is_space(c: char) -> bool {
    let u = c as u32;
    (0x09 <= u && u <= 0x0D) || u == 0x20 || u == 0x85 || u == 0xA0 || u == 0x1680 || (0x2000
        <= u && u <= 0x200A) || u == 0x2028 || u == 0x2029 || u == 0x202F || u == 0x205F || u
        == 0x3000
}

/// Runtime check for [`is_space`].
pub fn is_space_char(c: char) -> (b: bool)
    ensures
        b == is_space(c),
{
    let u: u32 = c as u32;
    (0x09 <= u && u <= 0x0D) || u == 0x20 || u == 0x85 || u == 0xA0 || u == 0x1680 || (0x2000
        <= u && u <= 0x200A) || u == 0x2028 || u == 0x2029 || u == 0x202F || u == 0x205F || u
        == 0x3000
}

/// `s` with every leading whitespace character removed.
pub open spec fn trim_front(s: Seq<char>) -> Seq<char>
    decreases s.len(),
{
    if s.len() > 0 && is_space(s[0]) {
        trim_front(s.drop_first())
    } else {
        s
    }
}

/// `s` with every trailing whitespace character removed.
pub open spec fn trim_back(s: Seq<char>) -> Seq<char>
    decreases s.len(),
{
    if s.len() > 0 && is_space(s[s.len() - 1]) {
        trim_back(s.drop_last())
    } else {
        s
    }
}

/// `s` with both leading and trailing whitespace removed.
pub open spec fn trimmed(s: Seq<char>) -> Seq<char> {
    trim_back(trim_front(s))
}

/// If the first `i` characters of `s` are whitespace and the character at `i`
/// (when there is one) is not, trimming the front keeps exactly `s[i..]`.
proof fn lemma_trim_front_at(s: Seq<char>, i: int)
    requires
        0 <= i <= s.len(),
        forall|k: int| 0 <= k < i ==> is_space(s[k]),
        i < s.len() ==> !is_space(s[i]),
    ensures
        trim_front(s) == s.subrange(i, s.len() as int),
    decreases i,
{
    if i == 0 {
        assert(s.subrange(0, s.len() as int) =~= s);
    } else {
        let t = s.drop_first();
        assert(t =~= s.subrange(1, s.len() as int));
        lemma_trim_front_at(t, i - 1);
        assert(t.subrange(i - 1, t.len() as int) =~= s.subrange(i, s.len() as int));
    }
}

/// If every character of `s` from `j` on is whitespace and the character just
/// before `j` (when there is one) is not, trimming the back keeps exactly `s[..j]`.
proof fn lemma_trim_back_at(s: Seq<char>, j: int)
    requires
        0 <= j <= s.len(),
        forall|k: int| j <= k < s.len() ==> is_space(s[k]),
        j > 0 ==> !is_space(s[j - 1]),
    ensures
        trim_back(s) == s.subrange(0, j),
    decreases s.len() - j,
{
    if j == s.len() {
        assert(s.subrange(0, j) =~= s);
    } else {
        let t = s.drop_last();
        assert(t =~= s.subrange(0, s.len() - 1));
        lemma_trim_back_at(t, j);
        assert(t.subrange(0, j) =~= s.subrange(0, j));
    }
}

/// Returns `s` with leading and trailing whitespace removed.
pub fn trim_str<'a>(s: &'a str) -> (r: &'a str)
    ensures
        r@ == trimmed(s@),
{
    let n: usize = s.unicode_len();
    let mut i: usize = 0;
    while i < n && is_space_char(s.get_char(i))
        invariant
            0 <= i <= n,
            n == s@.len(),
            forall|k: int| 0 <= k < i ==> is_space(s@[k]),
        decreases n - i,
    {
        i = i + 1;
    }
    proof {
        lemma_trim_front_at(s@, i as int);
    }
    if i == n {
        let empty = "";
        proof {
            reveal_strlit("");
            assert(s@.subrange(i as int, n as int) =~= empty@);
        }
        return empty;
    }
    let mut j: usize = n;
    while j > i && is_space_char(s.get_char(j - 1))
        invariant
            i <= j <= n,
            n == s@.len(),
            i < n,
            !is_space(s@[i as int]),
            forall|k: int| j <= k < n ==> is_space(s@[k]),
        decreases j,
    {
        j = j - 1;
    }
    proof {
        let front = s@.subrange(i as int, n as int);
        lemma_trim_back_at(front, j - i);
        assert(front.subrange(0, j - i) =~= s@.subrange(i as int, j as int));
    }
    s.substring_char(i, j)
}

/// Whether `needle` occurs in `hay` starting at position `k`.
pub open spec fn match_at(hay: Seq<char>, needle: Seq<char>, k: int) -> bool {
    0 <= k && k + needle.len() <= hay.len() && hay.subrange(k, k + needle.len()) == needle
}

/// Whether `needle` occurs in `hay` as a contiguous subsequence.
pub open spec fn contains_seq(hay: Seq<char>, needle: Seq<char>) -> bool {
    exists|k: int| match_at(hay, needle, k)
}

/// Returns whether `needle` occurs in `hay` starting at position `k`.
fn match_at_exec(hay: &str, needle: &str, k: usize, n: usize, m: usize) -> (b: bool)
    requires
        n == hay@.len(),
        m == needle@.len(),
        k + m <= n,
    ensures
        b == match_at(hay@, needle@, k as int),
{
    let mut j: usize = 0;
    while j < m
        invariant
            0 <= j <= m,
            n == hay@.len(),
            m == needle@.len(),
            k + m <= n,
            forall|jj: int| 0 <= jj < j ==> hay@[k + jj] == needle@[jj],
        decreases m - j,
    {
        if hay.get_char(k + j) != needle.get_char(j) {
            proof {
                assert(hay@.subrange(k as int, k + m)[j as int] == hay@[k + j]);
            }
            return false;
        }
        j = j + 1;
    }
    proof {
        assert(hay@.subrange(k as int, k + m) =~= needle@);
    }
    true
}

/// Returns whether `needle` occurs in `hay` as a contiguous substring.
pub fn contains_str(hay: &str, needle: &str) -> (b: bool)
    ensures
        b == contains_seq(hay@, needle@),
{
    let n: usize = hay.unicode_len();
    let m: usize = needle.unicode_len();
    if m > n {
        proof {
            assert(forall|k: int| match_at(hay@, needle@, k) ==> k + m <= n);
        }
        return false;
    }
    if m == 0 {
        proof {
            assert(hay@.subrange(0, 0) =~= needle@);
            assert(match_at(hay@, needle@, 0));
        }
        return true;
    }
    let mut k: usize = 0;
    while k <= n - m
        invariant
            0 <= k <= n - m + 1,
            1 <= m <= n,
            n == hay@.len(),
            m == needle@.len(),
            forall|kk: int| 0 <= kk < k ==> !match_at(hay@, needle@, kk),
        decreases n - k,
    {
        if match_at_exec(hay, needle, k, n, m) {
            return true;
        }
        k = k + 1;
    }
    proof {
        assert(forall|kk: int| match_at(hay@, needle@, kk) ==> 0 <= kk <= n - m);
    }
    false
}

} // verus!
