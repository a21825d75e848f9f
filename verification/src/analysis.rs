//! Text analysis over raw file content.
//!
//! The metrics are taken over bytes: `char_count` is the byte length of the
//! content, `line_count` is the number of newline bytes plus one, and
//! `word_count` counts maximal runs of word bytes (ASCII letters and the
//! apostrophe). Every other byte — including every byte of a multi-byte
//! UTF-8 sequence — acts as a separator, so the counts are defined for
//! arbitrary byte content and never fail.

use vstd::prelude::*;

verus! {

/// A byte that can be part of a word: an ASCII letter or the apostrophe.
pub open spec fn is_word_byte(b: u8) -> bool {
    (65 <= b <= 90) || (97 <= b <= 122) || b == 39
}

/// How many times the byte `b` occurs in `s`.
pub open spec fn byte_count(s: Seq<u8>, b: u8) -> nat
    decreases s.len(),
{
    if s.len() == 0 {
        0
    } else {
        byte_count(s.drop_last(), b) + (if s.last() == b {
            1nat
        } else {
            0nat
        })
    }
}

/// The line count of a content: its newline bytes plus one.
pub open spec fn line_count_spec(s: Seq<u8>) -> nat {
    byte_count(s, 10) + 1
}

/// Position `i` starts a word: it holds a word byte that no word byte precedes.
pub open spec fn is_word_start(s: Seq<u8>, i: int) -> bool {
    is_word_byte(s[i]) && (i == 0 || !is_word_byte(s[i - 1]))
}

/// How many of the first `n` positions of `s` start a word.
pub open spec fn word_starts_upto(s: Seq<u8>, n: int) -> nat
    decreases n,
{
    if n <= 0 {
        0
    } else {
        word_starts_upto(s, n - 1) + (if is_word_start(s, n - 1) {
            1nat
        } else {
            0nat
        })
    }
}

/// The word count of a content: the number of maximal runs of word bytes,
/// counted by their first position.
pub open spec fn word_count_spec(s: Seq<u8>) -> nat {
    word_starts_upto(s, s.len() as int)
}

/// The metrics of one content: line, word and byte counts.
/// `char_count` is deliberately a byte count, not a count of decoded
/// characters.
#[derive(Debug, Clone, Copy, PartialEq, Eq, Structural)]
pub struct AnalysisResult {
    pub line_count: u32,
    pub word_count: u32,
    pub char_count: u32,
}

/// Decides whether `b` can be part of a word.
pub fn word_byte(b: u8) -> (r: bool)
    ensures
        r == is_word_byte(b),
{
    (65 <= b && b <= 90) || (97 <= b && b <= 122) || b == 39
}

/// Counts lines, words and bytes of `content`.
pub fn analyze(content: &[u8]) -> (r: AnalysisResult)
    requires
        content@.len() < u32::MAX,
    ensures
        r.line_count == line_count_spec(content@),
        r.word_count == word_count_spec(content@),
        r.char_count == content@.len(),
{
    let n = content.len();
    let mut newlines: u32 = 0;
    let mut words: u32 = 0;
    let mut i: usize = 0;
    while i < n
        invariant
            n == content@.len(),
            content@.len() < u32::MAX,
            0 <= i <= n,
            newlines == byte_count(content@.take(i as int), 10),
            words == word_starts_upto(content@, i as int),
            newlines <= i,
            words <= i,
        decreases n - i,
    {
        let b = content[i];
        proof {
            assert(content@.take(i + 1).drop_last() =~= content@.take(i as int));
            assert(content@.take(i + 1).last() == content@[i as int]);
        }
        if b == 10 {
            newlines = newlines + 1;
        }
        let starts_word = word_byte(b) && (i == 0 || !word_byte(content[i - 1]));
        if starts_word {
            words = words + 1;
        }
        i = i + 1;
    }
    proof {
        assert(content@.take(n as int) =~= content@);
    }
    AnalysisResult { line_count: newlines + 1, word_count: words, char_count: n as u32 }
}

/// Word starts are decided by the first `n` positions alone: two contents
/// that agree there have the same count.
proof fn lemma_word_starts_upto_prefix(s: Seq<u8>, t: Seq<u8>, n: int)
    requires
        n <= s.len(),
        n <= t.len(),
        forall|j: int| 0 <= j < n ==> s[j] == t[j],
    ensures
        word_starts_upto(s, n) == word_starts_upto(t, n),
    decreases n,
{
    if n > 0 {
        lemma_word_starts_upto_prefix(s, t, n - 1);
    }
}

/// After a separator is inserted at `i`, every word start of `s` at or past
/// `i` stands one position later.
proof fn lemma_word_starts_insert_shift(s: Seq<u8>, i: int, sep: u8, m: int)
    requires
        0 <= i <= m <= s.len(),
        !is_word_byte(sep),
        i == 0 || !is_word_byte(s[i - 1]),
        i == s.len() || !is_word_byte(s[i]),
    ensures
        word_starts_upto(s.insert(i, sep), m + 1) == word_starts_upto(s, m),
    decreases m - i,
{
    let s2 = s.insert(i, sep);
    if m == i {
        assert(s2[i] == sep);
        assert(!is_word_start(s2, i));
        lemma_word_starts_upto_prefix(s2, s, i);
    } else {
        lemma_word_starts_insert_shift(s, i, sep, m - 1);
        assert(s2[m] == s[m - 1]);
        assert(s2[m - 1] == if m - 1 == i {
            sep
        } else {
            s[m - 2]
        });
        assert(is_word_start(s2, m) == is_word_start(s, m - 1));
    }
}

/// Inserting one more separator anywhere that is not adjacent to a word run
/// leaves the word count unchanged.
pub proof fn lemma_word_count_separator_insertion(s: Seq<u8>, i: int, sep: u8)
    requires
        0 <= i <= s.len(),
        !is_word_byte(sep),
        i == 0 || !is_word_byte(s[i - 1]),
        i == s.len() || !is_word_byte(s[i]),
    ensures
        word_count_spec(s.insert(i, sep)) == word_count_spec(s),
{
    lemma_word_starts_insert_shift(s, i, sep, s.len() as int);
}

} // verus!
