//! The text comparison that grades synthesized speech: the text that was
//! meant to be spoken is compared word by word with what a recognizer heard.

use vstd::prelude::*;
use crate::text::{
    owned, push_char, push_str, trim, trimmed, trim_start,
    chars_of, lowercase, to_lowercase, is_white_space, is_whitespace, join, join_words, join_with, lemma_join_space,
    split_words, string_from_chars, string_views, words,
};

verus! {

broadcast use vstd::string::group_string_axioms;

/// Whether a character is alphabetic or numeric in Unicode, as
/// `char::is_alphanumeric` decides.
pub uninterp spec fn alphanumeric(c: char) -> bool;

/// std `char::is_alphanumeric`. Claimed: the result is `alphanumeric` of the
/// character; the Unicode property tables are not written out here.
#[verifier::external_body]
fn is_alphanumeric(c: char) -> (r: bool)
    ensures
        r == alphanumeric(c),
{
    c.is_alphanumeric()
}

/// The characters of `s` that are alphanumeric or white space, in order.
pub open spec fn word_chars(s: Seq<char>) -> Seq<char>
    decreases s.len(),
{
    if s.len() == 0 {
        seq![]
    } else {
        let rest = word_chars(s.drop_last());
        if alphanumeric(s.last()) || is_white_space(s.last()) {
            rest.push(s.last())
        } else {
            rest
        }
    }
}

/// Normalizing keeps exactly the characters that are alphanumeric (letters
/// and digits alike) or white space, in their order, and drops every other
/// one.
pub proof fn law_word_chars_is_filter(s: Seq<char>)
    ensures
        word_chars(s) == s.filter(|c: char| alphanumeric(c) || is_white_space(c)),
    decreases s.len(),
{
    reveal_with_fuel(Seq::filter, 1);
    if s.len() > 0 {
        law_word_chars_is_filter(s.drop_last());
    }
}

/// A single character survives normalization exactly when it is
/// alphanumeric or white space.
pub proof fn law_single_char_kept(c: char)
    ensures
        alphanumeric(c) || is_white_space(c) ==> word_chars(seq![c]) == seq![c],
        !(alphanumeric(c) || is_white_space(c)) ==> word_chars(seq![c]) == Seq::<char>::empty(),
{
    let one = seq![c];
    assert(one.drop_last() =~= Seq::<char>::empty());
    assert(word_chars(one.drop_last()) == Seq::<char>::empty());
    assert(one.last() == c);
    assert(Seq::<char>::empty().push(c) =~= one);
}

/// A text as it is compared: lowercased, stripped of every character that is
/// neither alphanumeric nor white space, with its words separated by single
/// spaces.
pub open spec fn normalized(s: Seq<char>) -> Seq<char> {
    join_words(words(word_chars(lowercase(s))))
}

/// The words of a text once it is normalized.
pub open spec fn normalized_words(s: Seq<char>) -> Seq<Seq<char>> {
    words(normalized(s))
}

/// Normalizes a text for comparison (see `normalized`).
pub fn normalize(s: &str) -> (r: String)
    ensures
        r@ == normalized(s@),
{
    let lower = to_lowercase(s);
    let v = chars_of(lower.as_str());
    let mut kept: Vec<char> = Vec::new();
    let mut i: usize = 0;
    while i < v.len()
        invariant
            i <= v@.len(),
            v@ == lowercase(s@),
            kept@ == word_chars(v@.take(i as int)),
        decreases v@.len() - i,
    {
        assert(v@.take(i + 1).drop_last() =~= v@.take(i as int));
        let c = v[i];
        if is_alphanumeric(c) || is_whitespace(c) {
            kept.push(c);
        }
        i += 1;
    }
    assert(v@.take(v@.len() as int) =~= v@);
    let ws = split_words(&kept);
    let r = join(&ws, " ");
    proof {
        reveal_strlit(" ");
        assert(" "@ =~= seq![' ']);
        lemma_join_space(string_views(ws@));
    }
    r
}

/// How many of the first `n` positions hold the same word in `e` and `t`.
pub open spec fn positional_matches(e: Seq<Seq<char>>, t: Seq<Seq<char>>, n: nat) -> nat
    decreases n,
{
    if n == 0 {
        0
    } else {
        let before = positional_matches(e, t, (n - 1) as nat);
        if e[n - 1] == t[n - 1] {
            before + 1
        } else {
            before
        }
    }
}

/// The words of `e` that do not occur anywhere in `t`, in order, with
/// repetitions kept.
pub open spec fn words_not_in(e: Seq<Seq<char>>, t: Seq<Seq<char>>) -> Seq<Seq<char>>
    decreases e.len(),
{
    if e.len() == 0 {
        seq![]
    } else {
        let rest = words_not_in(e.drop_last(), t);
        if t.contains(e.last()) {
            rest
        } else {
            rest.push(e.last())
        }
    }
}

/// The smaller of two numbers.
pub open spec fn min_nat(a: nat, b: nat) -> nat {
    if a <= b {
        a
    } else {
        b
    }
}

/// The outcome of comparing an expected text with a transcribed one.
#[derive(Debug)]
pub struct WordMatch {
    /// Positions where both texts have the same word.
    pub correct_words: usize,
    /// Number of words in the expected text.
    pub expected_words: usize,
    /// Expected words that the transcription lacks altogether.
    pub missing_words: Vec<String>,
}

proof fn lemma_matches_bounded(e: Seq<Seq<char>>, t: Seq<Seq<char>>, n: nat)
    ensures
        positional_matches(e, t, n) <= n,
    decreases n,
{
    if n > 0 {
        lemma_matches_bounded(e, t, (n - 1) as nat);
    }
}

fn contains_word(t: &Vec<String>, w: &String) -> (r: bool)
    ensures
        r == string_views(t@).contains(w@),
{
    let mut i: usize = 0;
    while i < t.len()
        invariant
            i <= t@.len(),
            forall|k: int| 0 <= k < i ==> t@[k]@ != w@,
        decreases t@.len() - i,
    {
        if t[i] == *w {
            assert(string_views(t@)[i as int] == w@);
            return true;
        }
        i += 1;
    }
    proof {
        if string_views(t@).contains(w@) {
            let k = choose|k: int| 0 <= k < string_views(t@).len() && string_views(t@)[k] == w@;
            assert(t@[k]@ == w@);
        }
    }
    false
}

/// Compares the text that was meant to be spoken with the transcription of
/// the synthesized audio, both normalized: counts the positions (up to the
/// shorter word list) that hold the same word, and lists the expected words
/// that the transcription lacks.
pub fn compare_words(expected: &str, transcribed: &str) -> (r: WordMatch)
    ensures
        r.expected_words == normalized_words(expected@).len(),
        r.correct_words == positional_matches(
            normalized_words(expected@),
            normalized_words(transcribed@),
            min_nat(normalized_words(expected@).len(), normalized_words(transcribed@).len()),
        ),
        r.correct_words <= r.expected_words,
        string_views(r.missing_words@) == words_not_in(
            normalized_words(expected@),
            normalized_words(transcribed@),
        ),
{
    let e_norm = normalize(expected);
    let t_norm = normalize(transcribed);
    let e = split_words(&chars_of(e_norm.as_str()));
    let t = split_words(&chars_of(t_norm.as_str()));
    let ghost ev = string_views(e@);
    let ghost tv = string_views(t@);
    let n = if e.len() < t.len() {
        e.len()
    } else {
        t.len()
    };
    let mut correct: usize = 0;
    let mut i: usize = 0;
    while i < n
        invariant
            ev == string_views(e@),
            tv == string_views(t@),
            n <= e@.len(),
            n <= t@.len(),
            i <= n,
            correct == positional_matches(ev, tv, i as nat),
            correct <= i,
        decreases n - i,
    {
        if e[i] == t[i] {
            correct += 1;
        }
        i += 1;
    }
    let mut missing: Vec<String> = Vec::new();
    let mut j: usize = 0;
    while j < e.len()
        invariant
            ev == string_views(e@),
            tv == string_views(t@),
            j <= e@.len(),
            string_views(missing@) == words_not_in(ev.take(j as int), tv),
        decreases e@.len() - j,
    {
        assert(ev.take(j + 1).drop_last() =~= ev.take(j as int));
        assert(ev.take(j + 1).last() == e@[j as int]@);
        if !contains_word(&t, &e[j]) {
            let ghost before = missing@;
            let w = string_from_chars(&chars_of(e[j].as_str()));
            missing.push(w);
            assert(string_views(missing@) =~= string_views(before).push(e@[j as int]@));
        }
        j += 1;
    }
    assert(ev.take(e@.len() as int) =~= ev);
    proof {
        lemma_matches_bounded(ev, tv, n as nat);
    }
    WordMatch { correct_words: correct, expected_words: e.len(), missing_words: missing }
}

proof fn lemma_self_matches(w: Seq<Seq<char>>, n: nat)
    requires
        n <= w.len(),
    ensures
        positional_matches(w, w, n) == n,
    decreases n,
{
    if n > 0 {
        lemma_self_matches(w, (n - 1) as nat);
    }
}

proof fn lemma_none_missing(e: Seq<Seq<char>>, t: Seq<Seq<char>>)
    requires
        forall|i: int| 0 <= i < e.len() ==> t.contains(#[trigger] e[i]),
    ensures
        words_not_in(e, t).len() == 0,
    decreases e.len(),
{
    if e.len() > 0 {
        assert(t.contains(e[e.len() - 1]));
        lemma_none_missing(e.drop_last(), t);
    }
}

/// Comparing a text with itself finds every word in place and none missing,
/// so a transcription that reads back exactly the expected text scores full
/// accuracy.
pub proof fn law_identical_texts_match_fully(s: Seq<char>)
    ensures
        positional_matches(
            normalized_words(s),
            normalized_words(s),
            min_nat(normalized_words(s).len(), normalized_words(s).len()),
        ) == normalized_words(s).len(),
        words_not_in(normalized_words(s), normalized_words(s)).len() == 0,
{
    let w = normalized_words(s);
    lemma_self_matches(w, w.len());
    assert forall|i: int| 0 <= i < w.len() implies w.contains(#[trigger] w[i]) by {}
    lemma_none_missing(w, w);
}

/// A transcription whose normalized words are those of the expected text
/// (it differs at most in case, punctuation and spacing) has every expected
/// word in place and none missing: with at least one expected word, the
/// accuracy is full.
pub proof fn law_same_words_match_fully(expected: Seq<char>, transcribed: Seq<char>)
    requires
        normalized_words(expected) == normalized_words(transcribed),
    ensures
        positional_matches(
            normalized_words(expected),
            normalized_words(transcribed),
            min_nat(normalized_words(expected).len(), normalized_words(transcribed).len()),
        ) == normalized_words(expected).len(),
        words_not_in(normalized_words(expected), normalized_words(transcribed)).len() == 0,
{
    law_identical_texts_match_fully(expected);
}

/// Segment texts written one after another, a space put before each text
/// that follows a non-empty result.
pub open spec fn spaced(texts: Seq<Seq<char>>) -> Seq<char>
    decreases texts.len(),
{
    if texts.len() == 0 {
        seq![]
    } else {
        let before = spaced(texts.drop_last());
        (if before.len() > 0 {
            before.push(' ')
        } else {
            before
        }) + texts.last()
    }
}

/// The transcript of synthesized speech: its segment texts joined as
/// `spaced` joins them, without surrounding white space.
pub fn spaced_transcript(texts: &Vec<String>) -> (r: String)
    ensures
        r@ == trimmed(spaced(string_views(texts@))),
{
    let mut all = String::new();
    let mut i: usize = 0;
    while i < texts.len()
        invariant
            i <= texts@.len(),
            all@ == spaced(string_views(texts@.take(i as int))),
        decreases texts@.len() - i,
    {
        let ghost next = string_views(texts@.take(i + 1));
        assert(next.drop_last() =~= string_views(texts@.take(i as int)));
        assert(next.last() == texts@[i as int]@);
        if !all.as_str().is_empty() {
            push_char(&mut all, ' ');
        }
        push_str(&mut all, texts[i].as_str());
        i += 1;
    }
    assert(texts@.take(i as int) =~= texts@);
    trim(all.as_str())
}

/// `k` spaces.
pub open spec fn spaces(k: nat) -> Seq<char> {
    Seq::new(k, |i: int| ' ')
}

proof fn lemma_trim_start_skips_spaces(k: nat, x: Seq<char>)
    ensures
        trim_start(spaces(k) + x) == trim_start(x),
    decreases k,
{
    if k > 0 {
        let s = spaces(k) + x;
        assert(s[0] == ' ');
        assert(s.drop_first() =~= spaces((k - 1) as nat) + x);
        lemma_trim_start_skips_spaces((k - 1) as nat, x);
    } else {
        assert(spaces(k) + x =~= x);
    }
}

proof fn lemma_join_is_spaces_then_spaced(w: Seq<Seq<char>>) -> (k: nat)
    ensures
        join_words(w) == spaces(k) + spaced(w),
    decreases w.len(),
{
    if w.len() == 0 {
        assert(spaces(0) + spaced(w) =~= seq![]);
        0
    } else if w.len() == 1 {
        assert(spaced(w.drop_last()) =~= seq![]);
        assert(spaced(w) =~= w[0]);
        assert(spaces(0) + spaced(w) =~= w[0]);
        0
    } else {
        let k = lemma_join_is_spaces_then_spaced(w.drop_last());
        let before = spaced(w.drop_last());
        if before.len() > 0 {
            assert(join_words(w) =~= spaces(k) + spaced(w));
            k
        } else {
            assert(spaced(w) =~= w.last());
            assert(join_words(w) =~= spaces(k + 1) + spaced(w));
            k + 1
        }
    }
}

/// The transcript of synthesized speech is the segment texts joined by
/// single spaces, then trimmed: `spaced` leaves out only the separators
/// before the first non-empty text, and trimming removes those anyway.
pub proof fn law_spaced_transcript_is_trimmed_join(texts: Seq<Seq<char>>)
    ensures
        trimmed(spaced(texts)) == trimmed(join_words(texts)),
{
    let k = lemma_join_is_spaces_then_spaced(texts);
    lemma_trim_start_skips_spaces(k, spaced(texts));
}

} // verus!
