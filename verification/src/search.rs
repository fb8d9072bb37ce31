//! Searching the bounties on offer for a text.
//!
//! A bounty matches a text if its title or its description holds the text,
//! letters of either case counting alike. In the text, `%` stands for any run
//! of characters and `_` for any one character.

use vstd::prelude::*;

verus! {

/// The characters of `text`.
pub fn to_chars(text: &str) -> (chars: Vec<char>)
    ensures
        chars@ == text@,
{
    let n: usize = text.unicode_len();
    let mut chars: Vec<char> = Vec::new();
    let mut i: usize = 0;
    while i < n
        invariant
            i <= n,
            n == text@.len(),
            chars@ == text@.subrange(0, i as int),
        decreases n - i,
    {
        chars.push(text.get_char(i));
        proof {
            assert(chars@ =~= text@.subrange(0, i + 1));
        }
        i = i + 1;
    }
    proof {
        assert(text@.subrange(0, n as int) =~= text@);
    }
    chars
}

/// The number of `c`, with the small letters a to z counted as their capitals.
pub open spec fn folded(c: char) -> int {
    if 'a' <= c <= 'z' {
        c as int - 32
    } else {
        c as int
    }
}

/// The number of `c`, with the small letters a to z counted as their capitals.
pub fn fold(c: char) -> (n: u32)
    ensures
        n == folded(c),
{
    if 'a' <= c && c <= 'z' {
        c as u32 - 32
    } else {
        c as u32
    }
}

/// Whether the whole of `text` fits the pattern `pattern`, in which `%`
/// stands for any run of characters, `_` for any one character, and any other
/// character for itself in either case.
pub open spec fn like(pattern: Seq<char>, text: Seq<char>) -> bool
    decreases pattern.len() + text.len(),
{
    if pattern.len() == 0 {
        text.len() == 0
    } else if pattern[0] == '%' {
        like(pattern.drop_first(), text) || (text.len() > 0 && like(pattern, text.drop_first()))
    } else {
        text.len() > 0 && (pattern[0] == '_' || folded(pattern[0]) == folded(text[0])) && like(
            pattern.drop_first(),
            text.drop_first(),
        )
    }
}

/// The pattern that asks whether a text holds `wanted` somewhere.
pub open spec fn holding(wanted: Seq<char>) -> Seq<char> {
    seq!['%'] + wanted + seq!['%']
}

/// Whether `text` holds `wanted` somewhere.
pub open spec fn holds(text: Seq<char>, wanted: Seq<char>) -> bool {
    like(holding(wanted), text)
}

/// The pattern that asks whether a text holds `wanted` somewhere.
pub fn pattern_holding(wanted: &str) -> (pattern: Vec<char>)
    ensures
        pattern@ == holding(wanted@),
{
    let inner = to_chars(wanted);
    let mut pattern: Vec<char> = Vec::new();
    pattern.push('%');
    let mut i: usize = 0;
    while i < inner.len()
        invariant
            i <= inner.len(),
            pattern@ == seq!['%'] + inner@.subrange(0, i as int),
        decreases inner.len() - i,
    {
        pattern.push(inner[i]);
        proof {
            assert(pattern@ =~= seq!['%'] + inner@.subrange(0, i + 1));
        }
        i = i + 1;
    }
    pattern.push('%');
    proof {
        assert(inner@.subrange(0, i as int) =~= inner@);
        assert(pattern@ =~= holding(wanted@));
    }
    pattern
}

/// Whether the whole of `text` fits the pattern `pattern`.
pub fn like_match(pattern: &Vec<char>, text: &Vec<char>) -> (b: bool)
    ensures
        b == like(pattern@, text@),
{
    let n: usize = text.len();
    let m: usize = pattern.len();
    let ghost p = pattern@;
    let ghost s = text@;
    // `tail[j]` says whether the text from `j` on fits the pattern from `i`
    // on; `tail_end` says so for the empty rest of the text.
    let mut tail: Vec<bool> = vec![false; n];
    let mut tail_end: bool = true;
    let mut i: usize = m;
    proof {
        assert(p.subrange(m as int, m as int) =~= Seq::<char>::empty());
        assert forall|j: int| 0 <= j < n implies tail@[j] == like(
            p.subrange(m as int, m as int),
            #[trigger] s.subrange(j, n as int),
        ) by {}
        assert(s.subrange(n as int, n as int) =~= Seq::<char>::empty());
    }
    while i > 0
        invariant
            i <= m,
            m == p.len(),
            n == s.len(),
            p == pattern@,
            s == text@,
            tail@.len() == n,
            forall|j: int|
                0 <= j < n ==> tail@[j] == like(
                    p.subrange(i as int, m as int),
                    #[trigger] s.subrange(j, n as int),
                ),
            tail_end == like(p.subrange(i as int, m as int), s.subrange(n as int, n as int)),
        decreases i,
    {
        i = i - 1;
        let c: char = pattern[i];
        let ghost rest = p.subrange(i as int, m as int);
        let ghost after = p.subrange(i + 1, m as int);
        proof {
            assert(rest[0] == c);
            assert(rest.drop_first() =~= after);
            assert(s.subrange(n as int, n as int).len() == 0);
        }
        let mut row: Vec<bool> = vec![false; n];
        let row_end: bool = if c == '%' {
            tail_end
        } else {
            false
        };
        let mut j: usize = n;
        while j > 0
            invariant
                j <= n,
                i < m,
                m == p.len(),
                n == s.len(),
                p == pattern@,
                s == text@,
                c == p[i as int],
                rest == p.subrange(i as int, m as int),
                after == p.subrange(i + 1, m as int),
                rest[0] == c,
                rest.drop_first() == after,
                tail@.len() == n,
                row@.len() == n,
                forall|k: int|
                    0 <= k < n ==> tail@[k] == like(after, #[trigger] s.subrange(k, n as int)),
                tail_end == like(after, s.subrange(n as int, n as int)),
                forall|k: int|
                    j <= k < n ==> row@[k] == like(rest, #[trigger] s.subrange(k, n as int)),
                row_end == like(rest, s.subrange(n as int, n as int)),
            decreases j,
        {
            j = j - 1;
            let ghost here = s.subrange(j as int, n as int);
            proof {
                assert(here.len() > 0);
                assert(here[0] == s[j as int]);
                assert(here.drop_first() =~= s.subrange(j + 1, n as int));
            }
            let next: bool = if j + 1 < n {
                row[j + 1]
            } else {
                row_end
            };
            let diagonal: bool = if j + 1 < n {
                tail[j + 1]
            } else {
                tail_end
            };
            let fits: bool = if c == '%' {
                tail[j] || next
            } else {
                (c == '_' || fold(c) == fold(text[j])) && diagonal
            };
            row.set(j, fits);
        }
        tail = row;
        tail_end = row_end;
    }
    proof {
        assert(p.subrange(0, m as int) =~= p);
        assert(s.subrange(0, n as int) =~= s);
    }
    if n == 0 {
        tail_end
    } else {
        tail[0]
    }
}

/// Whether `text` fits the pattern `pattern`.
pub fn fits(pattern: &Vec<char>, text: &str) -> (b: bool)
    ensures
        b == like(pattern@, text@),
{
    let chars = to_chars(text);
    like_match(pattern, &chars)
}

} // verus!
