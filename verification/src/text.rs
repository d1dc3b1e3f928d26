//! Verified text utilities for the ACL listing parser.
//!
//! The Windows backend reasons about the standard output of the ACL
//! inspection tool: a block of lines, each holding a principal and a
//! permission token.  Everything needed to read that text is proved here:
//! substring search, blank-line detection, prefix tests after leading
//! whitespace, and splitting a capture into lines (line endings are `\n`
//! or `\r\n`, and a final line ending yields no extra line).

use vstd::prelude::*;
use vstd::string::*;

verus! {

/// `needle` occurs in `hay` starting at position `i`.
pub open spec fn spec_contains_at(hay: Seq<char>, needle: Seq<char>, i: int) -> bool {
    0 <= i && i + needle.len() <= hay.len() && hay.subrange(i, i + needle.len() as int)
        == needle
}

/// `needle` occurs somewhere in `hay`.
pub open spec fn spec_contains(hay: Seq<char>, needle: Seq<char>) -> bool {
    exists|i: int| spec_contains_at(hay, needle, i)
}

/// Whitespace, for blank-line detection and leading-space trimming.
pub open spec fn spec_is_space(c: char) -> bool {
    c == ' ' || c == '\t' || c == '\n' || c == '\r' || c == '\u{000B}' || c == '\u{000C}'
}

/// A line with no visible character at all.
pub open spec fn spec_is_blank(s: Seq<char>) -> bool {
    forall|i: int| 0 <= i < s.len() ==> spec_is_space(#[trigger] s[i])
}

/// `s` with its leading whitespace removed.
pub open spec fn spec_trim_start(s: Seq<char>) -> Seq<char>
    decreases s.len(),
{
    if s.len() > 0 && spec_is_space(s[0]) {
        spec_trim_start(s.drop_first())
    } else {
        s
    }
}

/// `prefix` stands at the front of `s`.
pub open spec fn spec_starts_with(s: Seq<char>, prefix: Seq<char>) -> bool {
    prefix.len() <= s.len() && s.subrange(0, prefix.len() as int) == prefix
}

/// Position of the first line feed in `s`, or `s.len()` if there is none.
pub open spec fn spec_first_nl(s: Seq<char>) -> nat
    decreases s.len(),
{
    if s.len() == 0 {
        0
    } else if s[0] == '\n' {
        0
    } else {
        (1 + spec_first_nl(s.drop_first())) as nat
    }
}

/// A line with its trailing carriage return removed, if it carries one.
pub open spec fn spec_strip_cr(l: Seq<char>) -> Seq<char> {
    if l.len() > 0 && l[l.len() - 1] == '\r' {
        l.drop_last()
    } else {
        l
    }
}

/// The lines of `s`: segments between line feeds, each stripped of a
/// trailing carriage return; a final line ending opens no further line.
pub open spec fn spec_lines(s: Seq<char>) -> Seq<Seq<char>>
    decreases s.len(),
{
    if s.len() == 0 {
        Seq::<Seq<char>>::empty()
    } else {
        let i = spec_first_nl(s) as int;
        if i < s.len() {
            seq![spec_strip_cr(s.take(i))] + spec_lines(s.skip(i + 1))
        } else {
            seq![s]
        }
    }
}

/// A scan that saw no line feed before `i`, and one at `i` unless `i` is
/// the end, has found the first line feed.
proof fn lemma_first_nl_at(s: Seq<char>, i: int)
    requires
        0 <= i <= s.len(),
        forall|j: int| 0 <= j < i ==> s[j] != '\n',
        i < s.len() ==> s[i] == '\n',
    ensures
        spec_first_nl(s) == i,
    decreases i,
{
    if i == 0 {
    } else {
        assert(s[0] != '\n');
        assert forall|j: int| 0 <= j < i - 1 implies s.drop_first()[j] != '\n' by {
            assert(s.drop_first()[j] == s[j + 1]);
        }
        if i - 1 < s.drop_first().len() {
            assert(s.drop_first()[i - 1] == s[i]);
        }
        lemma_first_nl_at(s.drop_first(), i - 1);
    }
}

/// Whether `needle` stands in `hay` at exactly position `i`.
fn match_at(hay: &str, needle: &str, i: usize, hay_len: usize, needle_len: usize) -> (r: bool)
    requires
        hay_len == hay@.len(),
        needle_len == needle@.len(),
        i + needle_len <= hay_len,
    ensures
        r == spec_contains_at(hay@, needle@, i as int),
{
    let mut j: usize = 0;
    while j < needle_len
        invariant
            0 <= j <= needle_len,
            hay_len == hay@.len(),
            needle_len == needle@.len(),
            i + needle_len <= hay_len,
            forall|k: int| 0 <= k < j ==> hay@[i + k] == needle@[k],
        decreases needle_len - j,
    {
        if hay.get_char(i + j) != needle.get_char(j) {
            proof {
                let sub = hay@.subrange(i as int, i + needle@.len());
                assert(sub[j as int] == hay@[i + j]);
                assert(sub != needle@);
            }
            return false;
        }
        j += 1;
    }
    proof {
        assert(hay@.subrange(i as int, i + needle@.len()) =~= needle@);
    }
    true
}

/// Substring search: does `needle` occur anywhere in `hay`?
pub fn str_contains(hay: &str, needle: &str) -> (r: bool)
    ensures
        r == spec_contains(hay@, needle@),
{
    let hay_len = hay.unicode_len();
    let needle_len = needle.unicode_len();
    if needle_len > hay_len {
        proof {
            assert forall|i: int| !spec_contains_at(hay@, needle@, i) by {
                if 0 <= i && i + needle@.len() <= hay@.len() {
                    assert(needle@.len() <= hay@.len());
                }
            }
        }
        return false;
    }
    if needle_len == 0 {
        proof {
            assert(hay@.subrange(0, 0) =~= needle@);
            assert(spec_contains_at(hay@, needle@, 0));
        }
        return true;
    }
    let mut i: usize = 0;
    while i <= hay_len - needle_len
        invariant
            1 <= needle_len <= hay_len,
            hay_len == hay@.len(),
            needle_len == needle@.len(),
            0 <= i <= hay_len - needle_len + 1,
            forall|k: int| 0 <= k < i ==> !spec_contains_at(hay@, needle@, k),
        decreases hay_len - needle_len + 1 - i,
    {
        if match_at(hay, needle, i, hay_len, needle_len) {
            return true;
        }
        i += 1;
    }
    proof {
        assert forall|k: int| !spec_contains_at(hay@, needle@, k) by {
            if 0 <= k < i {
            } else if k >= i {
                assert(k + needle@.len() > hay@.len());
            }
        }
    }
    false
}

/// Whether `c` is whitespace.
fn is_space(c: char) -> (r: bool)
    ensures
        r == spec_is_space(c),
{
    c == ' ' || c == '\t' || c == '\n' || c == '\r' || c == '\u{000B}' || c == '\u{000C}'
}

/// Whether `s` holds whitespace alone (or nothing).
pub fn str_is_blank(s: &str) -> (r: bool)
    ensures
        r == spec_is_blank(s@),
{
    let n = s.unicode_len();
    let mut i: usize = 0;
    while i < n
        invariant
            0 <= i <= n,
            n == s@.len(),
            forall|j: int| 0 <= j < i ==> spec_is_space(#[trigger] s@[j]),
        decreases n - i,
    {
        if !is_space(s.get_char(i)) {
            return false;
        }
        i += 1;
    }
    true
}

/// Index of the first character of `s` that is not whitespace, or the
/// length of `s`; everything before it is what trimming removes.
fn first_non_space(s: &str, n: usize) -> (k: usize)
    requires
        n == s@.len(),
    ensures
        0 <= k <= n,
        spec_trim_start(s@) == s@.skip(k as int),
{
    let mut k: usize = 0;
    proof {
        assert(s@.skip(0) =~= s@);
    }
    while k < n && is_space(s.get_char(k))
        invariant
            0 <= k <= n,
            n == s@.len(),
            spec_trim_start(s@) == spec_trim_start(s@.skip(k as int)),
        decreases n - k,
    {
        proof {
            assert(s@.skip(k as int)[0] == s@[k as int]);
            assert(s@.skip(k as int).drop_first() =~= s@.skip(k as int + 1));
        }
        k += 1;
    }
    proof {
        if k < n {
            assert(s@.skip(k as int)[0] == s@[k as int]);
            assert(spec_trim_start(s@.skip(k as int)) == s@.skip(k as int));
        } else {
            assert(s@.skip(k as int) =~= Seq::<char>::empty());
        }
    }
    k
}

/// Whether `s`, after its leading whitespace, begins with `prefix`.
pub fn trimmed_starts_with(s: &str, prefix: &str) -> (r: bool)
    ensures
        r == spec_starts_with(spec_trim_start(s@), prefix@),
{
    let n = s.unicode_len();
    let k = first_non_space(s, n);
    let prefix_len = prefix.unicode_len();
    if prefix_len > n - k {
        proof {
            assert(spec_trim_start(s@).len() == n - k);
        }
        false
    } else {
        let r = match_at(s, prefix, k, n, prefix_len);
        proof {
            assert(s@.skip(k as int).subrange(0, prefix@.len() as int) =~= s@.subrange(
                k as int,
                k + prefix@.len(),
            ));
        }
        r
    }
}

/// A copy of `seg` without its trailing carriage return, if it has one.
fn strip_cr_of(seg: &str) -> (out: String)
    ensures
        out@ == spec_strip_cr(seg@),
{
    let l = seg.unicode_len();
    if l > 0 && seg.get_char(l - 1) == '\r' {
        let t = seg.substring_char(0, l - 1);
        proof {
            assert(seg@.subrange(0, l - 1) =~= seg@.drop_last());
        }
        String::from_str(t)
    } else {
        String::from_str(seg)
    }
}

/// The lines of `s`, as [`spec_lines`] describes them.
pub fn split_lines(s: &str) -> (lines: Vec<String>)
    ensures
        lines.deep_view() == spec_lines(s@),
{
    let n = s.unicode_len();
    let mut lines: Vec<String> = Vec::new();
    let mut p: usize = 0;
    proof {
        assert(s@.skip(0) =~= s@);
        assert(lines.deep_view() =~= Seq::<Seq<char>>::empty());
    }
    while p < n
        invariant
            0 <= p <= n,
            n == s@.len(),
            spec_lines(s@) == lines.deep_view() + spec_lines(s@.skip(p as int)),
        decreases n - p,
    {
        let mut i: usize = p;
        while i < n && s.get_char(i) != '\n'
            invariant
                p <= i <= n,
                n == s@.len(),
                forall|j: int| p <= j < i ==> s@[j] != '\n',
            decreases n - i,
        {
            i += 1;
        }
        proof {
            assert forall|j: int| 0 <= j < i - p implies s@.skip(p as int)[j] != '\n' by {
                assert(s@.skip(p as int)[j] == s@[p + j]);
            }
            if i < n {
                assert(s@.skip(p as int)[i - p] == s@[i as int]);
            }
            lemma_first_nl_at(s@.skip(p as int), i - p);
        }
        let ghost prior = lines.deep_view();
        let ghost rest = spec_lines(s@.skip(p as int));
        if i < n {
            let seg = s.substring_char(p, i);
            let line = strip_cr_of(seg);
            lines.push(line);
            proof {
                assert(s@.skip(p as int).take(i - p) =~= s@.subrange(p as int, i as int));
                assert(s@.skip(p as int).skip(i - p + 1) =~= s@.skip(i + 1));
                assert(rest == seq![spec_strip_cr(s@.subrange(p as int, i as int))]
                    + spec_lines(s@.skip(i + 1)));
                assert(lines.deep_view() =~= prior + seq![
                    spec_strip_cr(s@.subrange(p as int, i as int)),
                ]);
                assert(prior + rest =~= lines.deep_view() + spec_lines(s@.skip(i + 1)));
            }
            p = i + 1;
        } else {
            let seg = s.substring_char(p, n);
            lines.push(String::from_str(seg));
            proof {
                assert(s@.skip(p as int).len() > 0);
                assert(rest == seq![s@.skip(p as int)]);
                assert(lines.deep_view() =~= prior + seq![s@.skip(p as int)]);
                assert(s@.skip(n as int) =~= Seq::<char>::empty());
                assert(prior + rest =~= lines.deep_view() + spec_lines(s@.skip(n as int)));
            }
            p = n;
        }
    }
    proof {
        assert(s@.skip(p as int) =~= Seq::<char>::empty());
        assert(lines.deep_view() + spec_lines(s@.skip(p as int)) =~= lines.deep_view());
    }
    lines
}

} // verus!
