//! What is done to a text before it is scanned: each token of several
//! characters is folded into one marker character, so that the scanner
//! reads one character at a time.

use crate::note::Note;
use vstd::prelude::*;

verus! {

/// The marker of the token `BPM+`.
pub const BPM_PLUS: char = '\u{df}';

/// The marker of the token `R+`.
pub const R_PLUS: char = '\u{6771}';

/// The marker of the token `R-`.
pub const R_MINUS: char = '\u{4e16}';

/// The token `BPM+` stands in `text` at `at`.
pub open spec fn bpm_plus_at(text: Seq<char>, at: int) -> bool {
    &&& 0 <= at
    &&& at + 4 <= text.len()
    &&& text[at] == 'B'
    &&& text[at + 1] == 'P'
    &&& text[at + 2] == 'M'
    &&& text[at + 3] == '+'
}

/// The token `R+` stands in `text` at `at`.
pub open spec fn r_plus_at(text: Seq<char>, at: int) -> bool {
    &&& 0 <= at
    &&& at + 2 <= text.len()
    &&& text[at] == 'R'
    &&& text[at + 1] == '+'
}

/// The token `R-` stands in `text` at `at`.
pub open spec fn r_minus_at(text: Seq<char>, at: int) -> bool {
    &&& 0 <= at
    &&& at + 2 <= text.len()
    &&& text[at] == 'R'
    &&& text[at + 1] == '-'
}

/// One of the three tokens stands in `text` at `at`.
pub open spec fn token_at(text: Seq<char>, at: int) -> bool {
    bpm_plus_at(text, at) || r_plus_at(text, at) || r_minus_at(text, at)
}

/// No token stands anywhere in `text`.
pub open spec fn token_free(text: Seq<char>) -> bool {
    forall|at: int| 0 <= at < text.len() ==> !#[trigger] token_at(text, at)
}

/// The character that the folded text has for position `at` of `text`: the
/// marker of the token that stands there, or the character itself.
pub open spec fn folded_char(text: Seq<char>, at: int) -> char {
    if bpm_plus_at(text, at) {
        BPM_PLUS
    } else if r_plus_at(text, at) {
        R_PLUS
    } else if r_minus_at(text, at) {
        R_MINUS
    } else {
        text[at]
    }
}

/// How many characters of `text` the character that is folded at `at` takes up.
pub open spec fn folded_len(text: Seq<char>, at: int) -> int {
    if bpm_plus_at(text, at) {
        4
    } else if r_plus_at(text, at) || r_minus_at(text, at) {
        2
    } else {
        1
    }
}

/// `text` from position `from` on, with every token folded into its
/// marker, from left to right.
pub open spec fn fold_from(text: Seq<char>, from: int) -> Seq<char>
    decreases text.len() - from,
{
    if from < 0 || from >= text.len() {
        Seq::empty()
    } else {
        seq![folded_char(text, from)] + fold_from(text, from + folded_len(text, from))
    }
}

/// `text` with every token folded into its marker.
pub open spec fn fold_tokens(text: Seq<char>) -> Seq<char> {
    fold_from(text, 0)
}

/// A character that echoes the note before it.
pub open spec fn is_vowel(ch: char) -> bool {
    ch == 'o' || ch == 'O' || ch == 'I' || ch == 'i' || ch == 'u' || ch == 'U'
}

/// A letter that names a note: A to G, in either case.
pub open spec fn is_note_letter(ch: char) -> bool {
    ch != ' ' && Note::spec_from_char(ch) is Some
}

/// The character of `text` at `at` is a vowel right behind a note letter.
pub open spec fn echoes(text: Seq<char>, at: int) -> bool {
    0 < at < text.len() && is_vowel(text[at]) && is_note_letter(text[at - 1])
}

/// `text` with each echoing vowel written as the note letter that it echoes.
pub open spec fn echo_letters(text: Seq<char>) -> Seq<char> {
    Seq::new(text.len(), |at: int| if echoes(text, at) { text[at - 1] } else { text[at] })
}

pub fn vowel(ch: char) -> (yes: bool)
    ensures
        yes == is_vowel(ch),
{
    ch == 'o' || ch == 'O' || ch == 'I' || ch == 'i' || ch == 'u' || ch == 'U'
}

pub fn note_letter(ch: char) -> (yes: bool)
    ensures
        yes == is_note_letter(ch),
{
    ch != ' ' && Note::from_char(ch).is_some()
}

/// The characters of `text`, one by one.
pub fn chars_of(text: &str) -> (chars: Vec<char>)
    ensures
        chars@ == text@,
{
    let mut chars: Vec<char> = Vec::new();
    for ch in it: text.chars()
        invariant
            it.seq() == text@,
            chars@ == it.seq().take(it.index()),
    {
        chars.push(ch);
    }
    chars
}

/// Folds every token of `text` into its marker.
pub fn fold(text: &Vec<char>) -> (folded: Vec<char>)
    ensures
        folded@ == fold_tokens(text@),
{
    let mut folded: Vec<char> = Vec::new();
    let mut at: usize = 0;
    while at < text.len()
        invariant
            0 <= at <= text.len(),
            fold_tokens(text@) == folded@ + fold_from(text@, at as int),
        decreases text.len() - at,
    {
        let left: usize = text.len() - at;
        if left >= 4 && text[at] == 'B' && text[at + 1] == 'P' && text[at + 2] == 'M' && text[at
            + 3] == '+' {
            folded.push(BPM_PLUS);
            at += 4;
        } else if left >= 2 && text[at] == 'R' && text[at + 1] == '+' {
            folded.push(R_PLUS);
            at += 2;
        } else if left >= 2 && text[at] == 'R' && text[at + 1] == '-' {
            folded.push(R_MINUS);
            at += 2;
        } else {
            folded.push(text[at]);
            at += 1;
        }
    }
    folded
}

/// Writes each echoing vowel of `text` as the note letter that it echoes.
pub fn echo(text: &Vec<char>) -> (letters: Vec<char>)
    ensures
        letters@ == echo_letters(text@),
{
    let mut letters: Vec<char> = Vec::new();
    let mut at: usize = 0;
    while at < text.len()
        invariant
            0 <= at <= text.len(),
            letters@ == echo_letters(text@).take(at as int),
        decreases text.len() - at,
    {
        if at > 0 && vowel(text[at]) && note_letter(text[at - 1]) {
            letters.push(text[at - 1]);
        } else {
            letters.push(text[at]);
        }
        at += 1;
    }
    letters
}

/// The first folded character from `from` on, and the rest.
pub proof fn lemma_fold_from_unfold(text: Seq<char>, from: int)
    requires
        0 <= from < text.len(),
    ensures
        fold_from(text, from).len() >= 1,
        fold_from(text, from)[0] == folded_char(text, from),
        fold_from(text, from).skip(1) == fold_from(text, from + folded_len(text, from)),
{
    let rest = fold_from(text, from + folded_len(text, from));
    assert((seq![folded_char(text, from)] + rest).skip(1) == rest);
}

/// Folding leaves a text without tokens as it is, from any position on.
pub proof fn lemma_fold_from_token_free(text: Seq<char>, from: int)
    requires
        token_free(text),
        0 <= from <= text.len(),
    ensures
        fold_from(text, from) == text.skip(from),
    decreases text.len() - from,
{
    if from < text.len() {
        assert(!token_at(text, from));
        lemma_fold_from_token_free(text, from + 1);
        assert(seq![text[from]] + text.skip(from + 1) == text.skip(from));
    }
}

/// Folding changes nothing in a text in which none of the tokens `BPM+`,
/// `R+` and `R-` stands.
pub proof fn lemma_fold_token_free(text: Seq<char>)
    requires
        token_free(text),
    ensures
        fold_tokens(text) == text,
{
    lemma_fold_from_token_free(text, 0);
    assert(text.skip(0) == text);
}

/// No token stands in a folded text, from whatever position the folding began.
pub proof fn lemma_fold_from_is_token_free(text: Seq<char>, from: int)
    requires
        0 <= from <= text.len(),
    ensures
        token_free(fold_from(text, from)),
    decreases text.len() - from,
{
    let folded = fold_from(text, from);
    if from < text.len() {
        let next = from + folded_len(text, from);
        let rest = fold_from(text, next);
        lemma_fold_from_is_token_free(text, next);
        lemma_fold_from_unfold(text, from);
        assert forall|at: int| 0 <= at < folded.len() implies !#[trigger] token_at(folded, at) by {
            if at > 0 {
                assert(!token_at(rest, at - 1));
                assert(forall|k: int| 1 <= k < folded.len() ==> folded[k] == rest[k - 1]);
            } else if token_at(folded, 0) {
                // The folded text begins with a letter of `text` itself, and what
                // follows it was not folded either.
                assert(folded[0] == text[from]);
                assert(next == from + 1);
                lemma_fold_from_unfold(text, from + 1);
                assert(folded[1] == rest[0]);
                if folded[0] == 'B' {
                    assert(rest[0] == text[from + 1]);
                    let rest2 = fold_from(text, from + 2);
                    assert(rest.skip(1) == rest2);
                    assert(folded[2] == rest2[0]);
                    assert(from + 2 < text.len()) by {
                        if from + 2 >= text.len() {
                            assert(rest2.len() == 0);
                        }
                    }
                    lemma_fold_from_unfold(text, from + 2);
                    assert(rest2[0] == text[from + 2]);
                    let rest3 = fold_from(text, from + 3);
                    assert(rest2.skip(1) == rest3);
                    assert(folded[3] == rest3[0]);
                    assert(from + 3 < text.len()) by {
                        if from + 3 >= text.len() {
                            assert(rest3.len() == 0);
                        }
                    }
                    lemma_fold_from_unfold(text, from + 3);
                    assert(rest3[0] == text[from + 3]);
                    assert(bpm_plus_at(text, from));
                } else {
                    assert(rest[0] == text[from + 1]);
                }
            }
        }
    }
}

/// No token stands in a folded text.
pub proof fn lemma_fold_is_token_free(text: Seq<char>)
    ensures
        token_free(fold_tokens(text)),
{
    lemma_fold_from_is_token_free(text, 0);
}

/// Folding a folded text changes nothing.
pub proof fn lemma_fold_idempotent(text: Seq<char>)
    ensures
        fold_tokens(fold_tokens(text)) == fold_tokens(text),
{
    lemma_fold_is_token_free(text);
    lemma_fold_token_free(fold_tokens(text));
}

} // verus!
