//! Word extraction over decoded text, for the local word-occurrence count:
//! split on whitespace, keep only letters and apostrophes inside each token,
//! drop tokens that end up empty, and count how often a given word occurs.
//! Unlike the byte-level analysis of the wire protocol, these functions work
//! on characters, with the full Unicode notions of letter and whitespace.

use vstd::prelude::*;
use vstd::string::StrSliceExecFns;

verus! {

/// What `char::is_alphabetic` holds of a character.
pub uninterp spec fn is_alphabetic_char(c: char) -> bool;

/// What `char::is_whitespace` holds of a character.
pub uninterp spec fn is_whitespace_char(c: char) -> bool;

/// Relies on char::is_alphabetic: a pure predicate of the character alone.
#[verifier::external_body]
fn char_alphabetic(c: char) -> (r: bool)
    ensures
        r == is_alphabetic_char(c),
{
    c.is_alphabetic()
}

/// Relies on char::is_whitespace: a pure predicate of the character alone.
#[verifier::external_body]
fn char_whitespace(c: char) -> (r: bool)
    ensures
        r == is_whitespace_char(c),
{
    c.is_whitespace()
}

/// Relies on String::push: it appends one character.
#[verifier::external_body]
pub(crate) fn string_push(s: &mut String, c: char)
    ensures
        final(s)@ == old(s)@.push(c),
{
    s.push(c);
}

/// A character that survives cleaning: a letter or the apostrophe.
pub open spec fn is_word_char(c: char) -> bool {
    is_alphabetic_char(c) || c == '\''
}

/// The words of a text, scanned from position `i` with the cleaned part of
/// the current whitespace-separated token in `cur`: whitespace ends the
/// token, which is kept when cleaning left it non-empty; any other
/// non-word character is dropped without ending the token.
pub open spec fn scan_words(s: Seq<char>, i: int, cur: Seq<char>) -> Seq<Seq<char>>
    decreases s.len() - i,
{
    if i < 0 || i >= s.len() {
        if cur.len() > 0 {
            seq![cur]
        } else {
            seq![]
        }
    } else if is_whitespace_char(s[i]) {
        (if cur.len() > 0 {
            seq![cur]
        } else {
            seq![]
        }) + scan_words(s, i + 1, seq![])
    } else if is_word_char(s[i]) {
        scan_words(s, i + 1, cur.push(s[i]))
    } else {
        scan_words(s, i + 1, cur)
    }
}

/// The words of a text: its whitespace-separated tokens, each reduced to its
/// letters and apostrophes, with the empty remainders dropped.
pub open spec fn extract_words_spec(s: Seq<char>) -> Seq<Seq<char>> {
    scan_words(s, 0, seq![])
}

/// How often `target` occurs among `words`.
pub open spec fn occurrence_count(words: Seq<Seq<char>>, target: Seq<char>) -> nat
    decreases words.len(),
{
    if words.len() == 0 {
        0
    } else {
        occurrence_count(words.drop_last(), target) + (if words.last() == target {
            1nat
        } else {
            0nat
        })
    }
}

/// Keeps only the letters and apostrophes of a word.
pub fn clean_word(word: &str) -> (r: String)
    ensures
        r@ == word@.filter(|c: char| is_word_char(c)),
{
    let n = word.unicode_len();
    let mut r = String::new();
    let mut i: usize = 0;
    proof {
        reveal(Seq::filter);
        assert(word@.take(0) =~= Seq::<char>::empty());
    }
    while i < n
        invariant
            n == word@.len(),
            0 <= i <= n,
            r@ == word@.take(i as int).filter(|c: char| is_word_char(c)),
        decreases n - i,
    {
        let c = word.get_char(i);
        proof {
            reveal(Seq::filter);
            assert(word@.take(i + 1).drop_last() =~= word@.take(i as int));
            assert(word@.take(i + 1).last() == word@[i as int]);
        }
        if char_alphabetic(c) || c == '\'' {
            string_push(&mut r, c);
        }
        i = i + 1;
    }
    proof {
        assert(word@.take(n as int) =~= word@);
    }
    r
}

/// Splits a text into its words: whitespace-separated tokens, cleaned, with
/// the empty ones dropped.
pub fn extract_words(text: &str) -> (r: Vec<String>)
    ensures
        r.deep_view() == extract_words_spec(text@),
{
    let n = text.unicode_len();
    let mut r: Vec<String> = Vec::new();
    let mut cur = String::new();
    let mut i: usize = 0;
    proof {
        assert(r.deep_view() =~= Seq::<Seq<char>>::empty());
    }
    while i < n
        invariant
            n == text@.len(),
            0 <= i <= n,
            extract_words_spec(text@) == r.deep_view() + scan_words(text@, i as int, cur@),
        decreases n - i,
    {
        let c = text.get_char(i);
        if char_whitespace(c) {
            if !cur.as_str().is_empty() {
                let ghost r_words = r.deep_view();
                let ghost cur_chars = cur@;
                r.push(cur);
                cur = String::new();
                proof {
                    assert(r.deep_view() =~= r_words.push(cur_chars));
                    assert(r_words + (seq![cur_chars] + scan_words(text@, i + 1, cur@))
                        =~= r.deep_view() + scan_words(text@, i + 1, cur@));
                }
            } else {
                proof {
                    assert(cur@ =~= Seq::<char>::empty());
                    assert(r.deep_view() + (Seq::<Seq<char>>::empty() + scan_words(
                        text@,
                        i + 1,
                        seq![],
                    )) =~= r.deep_view() + scan_words(text@, i + 1, cur@));
                }
            }
        } else if char_alphabetic(c) || c == '\'' {
            string_push(&mut cur, c);
        }
        i = i + 1;
    }
    if !cur.as_str().is_empty() {
        let ghost r_words = r.deep_view();
        let ghost cur_chars = cur@;
        r.push(cur);
        proof {
            assert(r.deep_view() =~= r_words.push(cur_chars));
            assert(r_words + seq![cur_chars] =~= r.deep_view());
        }
    } else {
        proof {
            assert(cur@ =~= Seq::<char>::empty());
            assert(r.deep_view() + Seq::<Seq<char>>::empty() =~= r.deep_view());
        }
    }
    r
}

/// How often `target` occurs among `words`.
pub fn count_occurrences(words: &[String], target: &str) -> (r: u32)
    requires
        words@.len() <= u32::MAX,
    ensures
        r == occurrence_count(words.deep_view(), target@),
{
    let target_owned: String = target.to_owned();
    let n = words.len();
    let mut count: u32 = 0;
    let mut i: usize = 0;
    while i < n
        invariant
            n == words@.len(),
            n <= u32::MAX,
            0 <= i <= n,
            target_owned@ == target@,
            count == occurrence_count(words.deep_view().take(i as int), target@),
            count <= i,
        decreases n - i,
    {
        proof {
            assert(words.deep_view().take(i + 1).drop_last() =~= words.deep_view().take(i as int));
            assert(words.deep_view().take(i + 1).last() == words.deep_view()[i as int]);
            assert(words.deep_view()[i as int] == words@[i as int]@);
        }
        let w = vstd::slice::slice_index_get(words, i);
        if w.eq(&target_owned) {
            count = count + 1;
        }
        i = i + 1;
    }
    proof {
        assert(words.deep_view().take(n as int) =~= words.deep_view());
    }
    count
}

} // verus!
