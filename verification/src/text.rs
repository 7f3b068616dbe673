//! Character and string helpers for sorting, filtering and display.
//!
//! Everything here works on `Seq<char>` in specifications and on `&str` /
//! `String` in executable code.  The one operation that cannot be stated in
//! a few lines — full Unicode lowercasing — is named by the uninterpreted
//! function [`lower_of`] and supplied by the standard library behind a
//! trusted wrapper.

use vstd::prelude::*;

verus! {

/// ASCII-folds one character: an upper-case ASCII letter becomes its
/// lower-case counterpart, every other character is unchanged.
pub open spec fn lower_char(c: char) -> char {
    if 'A' <= c && c <= 'Z' {
        (((c as u8) + 32) as char)
    } else {
        c
    }
}

/// ASCII-folds a whole sequence of characters.
pub open spec fn fold_lower(s: Seq<char>) -> Seq<char> {
    s.map_values(|c: char| lower_char(c))
}

/// Executable ASCII fold of one character.
pub fn lower_char_exec(c: char) -> (r: char)
    ensures
        r == lower_char(c),
{
    if 'A' <= c && c <= 'Z' {
        ((c as u8) + 32) as char
    } else {
        c
    }
}

/// Strict lexicographic order on character sequences, by code point; a
/// proper prefix sorts before its extensions.  This is the order of `str`
/// comparison in the standard library.
pub open spec fn lex_lt(a: Seq<char>, b: Seq<char>) -> bool
    decreases a.len(),
{
    if b.len() == 0 {
        false
    } else if a.len() == 0 {
        true
    } else if a[0] != b[0] {
        (a[0] as u32) < (b[0] as u32)
    } else {
        lex_lt(a.drop_first(), b.drop_first())
    }
}

/// The lexicographic order is transitive.
pub proof fn lemma_lex_lt_trans(a: Seq<char>, b: Seq<char>, c: Seq<char>)
    requires
        lex_lt(a, b),
        lex_lt(b, c),
    ensures
        lex_lt(a, c),
    decreases a.len(),
{
    if a.len() == 0 {
    } else if a[0] == b[0] && b[0] == c[0] {
        lemma_lex_lt_trans(a.drop_first(), b.drop_first(), c.drop_first());
    }
}

/// The lexicographic order is irreflexive.
pub proof fn lemma_lex_lt_irrefl(a: Seq<char>)
    ensures
        !lex_lt(a, a),
    decreases a.len(),
{
    if a.len() > 0 {
        lemma_lex_lt_irrefl(a.drop_first());
    }
}

/// When two sequences agree on their first `i` characters, their order is
/// decided by the rest.
pub proof fn lemma_lex_lt_skip(a: Seq<char>, b: Seq<char>, i: int)
    requires
        0 <= i <= a.len(),
        0 <= i <= b.len(),
        forall|q: int| 0 <= q < i ==> a[q] == b[q],
    ensures
        lex_lt(a, b) == lex_lt(a.skip(i), b.skip(i)),
    decreases i,
{
    if i > 0 {
        assert(a.drop_first().skip(i - 1) =~= a.skip(i));
        assert(b.drop_first().skip(i - 1) =~= b.skip(i));
        lemma_lex_lt_skip(a.drop_first(), b.drop_first(), i - 1);
    } else {
        assert(a.skip(0) =~= a);
        assert(b.skip(0) =~= b);
    }
}

/// Compares two strings lexicographically; with `fold`, upper-case ASCII
/// letters compare as their lower-case counterparts.
pub fn lex_lt_str(a: &str, b: &str, fold: bool) -> (r: bool)
    ensures
        !fold ==> r == lex_lt(a@, b@),
        fold ==> r == lex_lt(fold_lower(a@), fold_lower(b@)),
{
    let ghost fa = if fold {
        fold_lower(a@)
    } else {
        a@
    };
    let ghost fb = if fold {
        fold_lower(b@)
    } else {
        b@
    };
    let na = a.unicode_len();
    let nb = b.unicode_len();
    let mut i: usize = 0;
    loop
        invariant
            fa == (if fold {
                fold_lower(a@)
            } else {
                a@
            }),
            fb == (if fold {
                fold_lower(b@)
            } else {
                b@
            }),
            na == a@.len(),
            nb == b@.len(),
            fa.len() == na,
            fb.len() == nb,
            0 <= i <= na,
            0 <= i <= nb,
            forall|q: int| 0 <= q < i ==> fa[q] == fb[q],
        decreases na - i,
    {
        if i >= nb {
            // b is exhausted: a is not smaller
            proof {
                lemma_lex_lt_skip(fa, fb, i as int);
            }
            return false;
        }
        if i >= na {
            // a is a proper prefix of b
            proof {
                lemma_lex_lt_skip(fa, fb, i as int);
            }
            return true;
        }
        let ca = if fold {
            lower_char_exec(a.get_char(i))
        } else {
            a.get_char(i)
        };
        let cb = if fold {
            lower_char_exec(b.get_char(i))
        } else {
            b.get_char(i)
        };
        if ca != cb {
            proof {
                lemma_lex_lt_skip(fa, fb, i as int);
                assert(fa.skip(i as int)[0] == ca);
                assert(fb.skip(i as int)[0] == cb);
            }
            return (ca as u32) < (cb as u32);
        }
        i = i + 1;
    }
}

/// Whether `needle` occurs in `hay` starting at offset `i`.
pub open spec fn matches_at(hay: Seq<char>, needle: Seq<char>, i: int) -> bool {
    &&& 0 <= i
    &&& i + needle.len() <= hay.len()
    &&& forall|j: int| 0 <= j < needle.len() ==> hay[i + j] == needle[j]
}

/// Whether `needle` occurs anywhere in `hay`.  The empty needle occurs in
/// every sequence.
pub open spec fn contains_seq(hay: Seq<char>, needle: Seq<char>) -> bool {
    exists|i: int| matches_at(hay, needle, i)
}

/// Substring test: whether `needle` occurs in `hay`.
pub fn str_contains(hay: &str, needle: &str) -> (r: bool)
    ensures
        r == contains_seq(hay@, needle@),
{
    let nh = hay.unicode_len();
    let nn = needle.unicode_len();
    if nn > nh {
        proof {
            assert(forall|i: int| !matches_at(hay@, needle@, i));
        }
        return false;
    }
    let mut i: usize = 0;
    while i <= nh - nn
        invariant
            nh == hay@.len(),
            nn == needle@.len(),
            nn <= nh,
            0 <= i <= nh - nn + 1,
            forall|q: int| 0 <= q < i ==> !matches_at(hay@, needle@, q),
        decreases nh - nn + 1 - i,
    {
        if match_at(hay, needle, i) {
            return true;
        }
        i = i + 1;
    }
    proof {
        assert(forall|q: int| matches_at(hay@, needle@, q) ==> 0 <= q <= nh - nn);
    }
    false
}

/// Checks one candidate offset of the substring test.
fn match_at(hay: &str, needle: &str, i: usize) -> (r: bool)
    requires
        i + needle@.len() <= hay@.len(),
    ensures
        r == matches_at(hay@, needle@, i as int),
{
    let nh = hay.unicode_len();
    let nn = needle.unicode_len();
    let mut j: usize = 0;
    while j < nn
        invariant
            nh == hay@.len(),
            nn == needle@.len(),
            i + nn <= nh,
            0 <= j <= nn,
            forall|q: int| 0 <= q < j ==> hay@[i + q] == needle@[q],
        decreases nn - j,
    {
        if hay.get_char(i + j) != needle.get_char(j) {
            return false;
        }
        j = j + 1;
    }
    proof {
        assert(matches_at(hay@, needle@, i as int));
    }
    true
}

/// Character-wise string equality.
pub fn str_eq(a: &str, b: &str) -> (r: bool)
    ensures
        r == (a@ == b@),
{
    let na = a.unicode_len();
    let nb = b.unicode_len();
    if na != nb {
        return false;
    }
    let mut i: usize = 0;
    while i < na
        invariant
            na == a@.len(),
            nb == b@.len(),
            na == nb,
            0 <= i <= na,
            forall|q: int| 0 <= q < i ==> a@[q] == b@[q],
        decreases na - i,
    {
        if a.get_char(i) != b.get_char(i) {
            return false;
        }
        i = i + 1;
    }
    proof {
        assert(a@ =~= b@);
    }
    true
}

/// What `truncate` keeps: the first `max` characters, except that a limit
/// of 0 means no limit at all.
pub open spec fn truncated(s: Seq<char>, max: nat) -> Seq<char> {
    if max == 0 || max >= s.len() {
        s
    } else {
        s.subrange(0, max as int)
    }
}

/// Cuts a string down to its first `max_chars` characters; a limit of 0
/// leaves the string whole.
pub fn truncate(s: &str, max_chars: usize) -> (r: &str)
    ensures
        r@ == truncated(s@, max_chars as nat),
{
    if max_chars == 0 {
        return s;
    }
    let n = s.unicode_len();
    if max_chars >= n {
        s
    } else {
        s.substring_char(0, max_chars)
    }
}

/// Length of the longest prefix of `s` that holds no `'T'`, measured from
/// offset `i`.
pub open spec fn t_free_prefix_from(s: Seq<char>, i: int) -> int
    decreases s.len() - i,
{
    if i < 0 || i >= s.len() {
        s.len() as int
    } else if s[i] == 'T' {
        i
    } else {
        t_free_prefix_from(s, i + 1)
    }
}

/// The date part of an ISO-8601 timestamp: everything before the first
/// `'T'`, or the whole string if there is none.
pub fn date_prefix(s: &str) -> (r: &str)
    ensures
        r@ == s@.subrange(0, t_free_prefix_from(s@, 0)),
{
    let n = s.unicode_len();
    let mut i: usize = 0;
    while i < n
        invariant
            n == s@.len(),
            0 <= i <= n,
            t_free_prefix_from(s@, 0) == t_free_prefix_from(s@, i as int),
            forall|q: int| 0 <= q < i ==> s@[q] != 'T',
        decreases n - i,
    {
        if s.get_char(i) == 'T' {
            return s.substring_char(0, i);
        }
        i = i + 1;
    }
    proof {
        assert(s@.subrange(0, s@.len() as int) =~= s@);
    }
    s
}

/// The Unicode lower-case image of a character sequence, as the standard
/// library computes it.  It depends on the characters alone.
pub uninterp spec fn lower_of(s: Seq<char>) -> Seq<char>;

/// Relies on `str::to_lowercase`: the result is the Unicode lower-case form
/// of the input, a function of the characters alone, and the lower-case
/// form of the empty string is empty.
#[verifier::external_body]
pub(crate) fn lowercase(s: &str) -> (r: String)
    ensures
        r@ == lower_of(s@),
        s@.len() == 0 ==> r@.len() == 0,
{
    s.to_lowercase()
}

/// Relies on `String::push`: appends exactly one character.
#[verifier::external_body]
pub(crate) fn push_char(s: &mut String, c: char)
    ensures
        final(s)@ == old(s)@.push(c),
{
    s.push(c);
}

/// Relies on `String::pop`: removes the last character of a non-empty
/// string and leaves an empty string unchanged.
#[verifier::external_body]
pub(crate) fn pop_char(s: &mut String)
    ensures
        old(s)@.len() == 0 ==> final(s)@ == old(s)@,
        old(s)@.len() > 0 ==> final(s)@ == old(s)@.drop_last(),
{
    s.pop();
}

} // verus!
