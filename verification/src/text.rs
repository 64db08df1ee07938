//! Verified text helpers: trimming, prefix stripping and equality over
//! character sequences.

use vstd::prelude::*;
use vstd::string::StrSliceExecFns;

verus! {

/// The whitespace characters recognized when trimming probe output.
pub open spec fn is_space(c: char) -> bool {
    c == ' ' || c == '\t' || c == '\n' || c == '\r'
}

/// `s` with every leading occurrence of the character `c` removed.
pub open spec fn strip_leading_char(s: Seq<char>, c: char) -> Seq<char>
    decreases s.len(),
{
    if s.len() > 0 && s[0] == c {
        strip_leading_char(s.drop_first(), c)
    } else {
        s
    }
}

/// `s` without leading whitespace.
pub open spec fn spec_trim_start(s: Seq<char>) -> Seq<char>
    decreases s.len(),
{
    if s.len() > 0 && is_space(s[0]) {
        spec_trim_start(s.drop_first())
    } else {
        s
    }
}

/// `s` without trailing whitespace.
pub open spec fn spec_trim_end(s: Seq<char>) -> Seq<char>
    decreases s.len(),
{
    if s.len() > 0 && is_space(s.last()) {
        spec_trim_end(s.drop_last())
    } else {
        s
    }
}

/// `s` without leading or trailing whitespace.
pub open spec fn spec_trim(s: Seq<char>) -> Seq<char> {
    spec_trim_end(spec_trim_start(s))
}

/// `s` with every leading occurrence of the word `w` removed.
pub open spec fn strip_leading_word(s: Seq<char>, w: Seq<char>) -> Seq<char>
    decreases s.len(),
{
    if w.len() > 0 && s.len() >= w.len() && s.subrange(0, w.len() as int) == w {
        strip_leading_word(s.skip(w.len() as int), w)
    } else {
        s
    }
}

/// Whether `s` begins with `w`.
pub open spec fn spec_has_prefix(s: Seq<char>, w: Seq<char>) -> bool {
    s.len() >= w.len() && s.subrange(0, w.len() as int) == w
}

fn char_is_space(c: char) -> (r: bool)
    ensures
        r == is_space(c),
{
    c == ' ' || c == '\t' || c == '\n' || c == '\r'
}

/// Whether two strings hold the same characters.
pub fn str_eq(a: &str, b: &str) -> (r: bool)
    ensures
        r == (a@ == b@),
{
    let n = a.unicode_len();
    let m = b.unicode_len();
    if n != m {
        return false;
    }
    let mut i: usize = 0;
    while i < n
        invariant
            0 <= i <= n,
            n == a@.len(),
            n == b@.len(),
            forall|j: int| 0 <= j < i ==> a@[j] == b@[j],
        decreases n - i,
    {
        if a.get_char(i) != b.get_char(i) {
            return false;
        }
        i += 1;
    }
    proof {
        assert(a@ =~= b@);
    }
    true
}

/// Whether `s` begins with `w`, comparing character by character.
pub fn has_prefix(s: &str, w: &str) -> (r: bool)
    ensures
        r == spec_has_prefix(s@, w@),
{
    let n = s.unicode_len();
    let m = w.unicode_len();
    if n < m {
        return false;
    }
    let mut i: usize = 0;
    while i < m
        invariant
            0 <= i <= m <= n,
            n == s@.len(),
            m == w@.len(),
            forall|j: int| 0 <= j < i ==> s@[j] == w@[j],
        decreases m - i,
    {
        if s.get_char(i) != w.get_char(i) {
            proof {
                assert(s@.subrange(0, m as int)[i as int] == s@[i as int]);
            }
            return false;
        }
        i += 1;
    }
    proof {
        assert(s@.subrange(0, m as int) =~= w@);
    }
    true
}

/// `s` with every leading occurrence of the character `c` removed.
pub fn strip_leading_char_exec(s: &str, c: char) -> (r: String)
    ensures
        r@ == strip_leading_char(s@, c),
{
    let n = s.unicode_len();
    let mut i: usize = 0;
    proof {
        assert(s@.skip(0) =~= s@);
    }
    while i < n && s.get_char(i) == c
        invariant
            0 <= i <= n,
            n == s@.len(),
            strip_leading_char(s@, c) == strip_leading_char(s@.skip(i as int), c),
        decreases n - i,
    {
        proof {
            assert(s@.skip(i as int).drop_first() =~= s@.skip(i + 1));
        }
        i += 1;
    }
    let r = s.substring_char(i, n).to_owned();
    proof {
        assert(s@.skip(i as int) =~= s@.subrange(i as int, n as int));
    }
    r
}

/// `s` without leading or trailing whitespace.
pub fn trim(s: &str) -> (r: String)
    ensures
        r@ == spec_trim(s@),
{
    let n = s.unicode_len();
    let mut start: usize = 0;
    proof {
        assert(s@.skip(0) =~= s@);
    }
    while start < n && char_is_space(s.get_char(start))
        invariant
            0 <= start <= n,
            n == s@.len(),
            spec_trim_start(s@) == spec_trim_start(s@.skip(start as int)),
        decreases n - start,
    {
        proof {
            assert(s@.skip(start as int).drop_first() =~= s@.skip(start + 1));
        }
        start += 1;
    }
    proof {
        assert(spec_trim_start(s@) == s@.skip(start as int));
    }
    let mut end: usize = n;
    while end > start && char_is_space(s.get_char(end - 1))
        invariant
            start <= end <= n,
            n == s@.len(),
            spec_trim_start(s@) == s@.skip(start as int),
            spec_trim_end(s@.skip(start as int)) == spec_trim_end(
                s@.subrange(start as int, end as int),
            ),
        decreases end,
    {
        proof {
            assert(s@.subrange(start as int, end as int).drop_last() =~= s@.subrange(
                start as int,
                end - 1,
            ));
        }
        end -= 1;
    }
    proof {
        assert(s@.skip(start as int) =~= s@.subrange(start as int, n as int));
        assert(spec_trim_end(s@.subrange(start as int, end as int)) == s@.subrange(
            start as int,
            end as int,
        ));
    }
    s.substring_char(start, end).to_owned()
}

/// `s` with every leading occurrence of the word `w` removed.
pub fn strip_leading_word_exec(s: &str, w: &str) -> (r: String)
    requires
        w@.len() > 0,
    ensures
        r@ == strip_leading_word(s@, w@),
{
    let n = s.unicode_len();
    let m = w.unicode_len();
    let mut pos: usize = 0;
    proof {
        assert(s@.skip(0) =~= s@);
    }
    while m <= n - pos && has_prefix(s.substring_char(pos, n), w)
        invariant
            0 <= pos <= n,
            n == s@.len(),
            m == w@.len(),
            m > 0,
            strip_leading_word(s@, w@) == strip_leading_word(s@.skip(pos as int), w@),
        decreases n - pos,
    {
        proof {
            assert(s@.skip(pos as int).subrange(0, m as int) =~= s@.subrange(
                pos as int,
                n as int,
            ).subrange(0, m as int));
            assert(s@.skip(pos as int).skip(m as int) =~= s@.skip(pos + m));
        }
        pos += m;
    }
    proof {
        let rest = s@.skip(pos as int);
        if pos + m <= n {
            assert(rest.subrange(0, m as int) =~= s@.subrange(pos as int, n as int).subrange(
                0,
                m as int,
            ));
        }
        assert(strip_leading_word(rest, w@) == rest);
    }
    s.substring_char(pos, n).to_owned()
}

} // verus!
