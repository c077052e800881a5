use vstd::prelude::*;
use vstd::utf8::is_ascii_chars;
use crate::distribution::string_values::{
    StringValuesDistribution,
    StringsView,
    lemma_pick_is_a_value,
    pick_spec,
    strings_well_formed,
};
use crate::random::stream::StreamState;

verus! {

/// The abstract value of the English distributions: one distribution of
/// sentence syntaxes and one for each part of speech.
pub struct EnglishView {
    pub sentences: StringsView,
    pub nouns: StringsView,
    pub verbs: StringsView,
    pub adjectives: StringsView,
    pub adverbs: StringsView,
    pub auxiliaries: StringsView,
    pub prepositions: StringsView,
    pub articles: StringsView,
    pub terminators: StringsView,
}

/// Every value of a distribution is made of ASCII characters.
pub open spec fn all_ascii(d: StringsView) -> bool {
    forall|i: int| 0 <= i < d.values.len() ==> is_ascii_chars(#[trigger] d.values[i])
}

impl EnglishView {
    /// Every word and every sentence syntax is ASCII, so that counting
    /// characters and counting bytes agree.
    pub open spec fn is_ascii(self) -> bool {
        &&& all_ascii(self.sentences)
        &&& all_ascii(self.nouns)
        &&& all_ascii(self.verbs)
        &&& all_ascii(self.adjectives)
        &&& all_ascii(self.adverbs)
        &&& all_ascii(self.auxiliaries)
        &&& all_ascii(self.prepositions)
        &&& all_ascii(self.articles)
        &&& all_ascii(self.terminators)
    }
}

/// A draw from a distribution, with a fallback for an empty one.
pub open spec fn pick_or(d: StringsView, st: StreamState, fallback: Seq<char>) -> (
    Seq<char>,
    StreamState,
) {
    let (v, st2) = pick_spec(d, st);
    (
        match v {
            Some(s) => s,
            None => fallback,
        },
        st2,
    )
}

/// What one character of a sentence syntax becomes: a letter that names a
/// part of speech is replaced by a word drawn from that distribution; any
/// other character (spaces, punctuation) stands for itself.
pub open spec fn word_for(e: EnglishView, c: char, st: StreamState) -> (Seq<char>, StreamState) {
    if c == 'N' {
        pick_or(e.nouns, st, "thing"@)
    } else if c == 'V' {
        pick_or(e.verbs, st, "is"@)
    } else if c == 'J' {
        pick_or(e.adjectives, st, "good"@)
    } else if c == 'D' {
        pick_or(e.adverbs, st, "well"@)
    } else if c == 'X' {
        pick_or(e.auxiliaries, st, "can"@)
    } else if c == 'P' {
        pick_or(e.prepositions, st, "to"@)
    } else if c == 'A' {
        pick_or(e.articles, st, "the"@)
    } else if c == 'T' {
        pick_or(e.terminators, st, "."@)
    } else {
        (seq![c], st)
    }
}

/// The text a sentence syntax expands to, character by character from the
/// left, and the stream state after its draws.
pub open spec fn expand(e: EnglishView, syntax: Seq<char>, st: StreamState) -> (
    Seq<char>,
    StreamState,
)
    decreases syntax.len(),
{
    if syntax.len() == 0 {
        (seq![], st)
    } else {
        let (front, st1) = expand(e, syntax.drop_last(), st);
        let (w, st2) = word_for(e, syntax.last(), st1);
        (front + w, st2)
    }
}

/// `w` is what a draw from `d` gives at `st`, with the stream then at
/// `st2`: one of the values of `d` and one value of the stream used, or the
/// fallback and nothing used when `d` is empty.
pub open spec fn drawn_from(
    d: StringsView,
    fallback: Seq<char>,
    st: StreamState,
    w: Seq<char>,
    st2: StreamState,
) -> bool {
    if d.values.len() > 0 {
        d.values.contains(w) && st2 == st.advance(1)
    } else {
        w == fallback && st2 == st
    }
}

/// Each letter of a sentence syntax that names a part of speech is replaced
/// by a word drawn from that part of speech's distribution, and from no
/// other: a noun for 'N' ("thing" when there is none), a verb for 'V'
/// ("is"), an adjective for 'J' ("good"), an adverb for 'D' ("well"), an
/// auxiliary for 'X' ("can"), a preposition for 'P' ("to"), an article for
/// 'A' ("the") and a terminator for 'T' ("."); any other character stands
/// for itself and draws nothing. What the letters before it expand to is
/// kept in front.
pub proof fn lemma_letters_draw_their_part_of_speech(
    e: EnglishView,
    pre: Seq<char>,
    c: char,
    st: StreamState,
)
    requires
        strings_well_formed(e.nouns),
        strings_well_formed(e.verbs),
        strings_well_formed(e.adjectives),
        strings_well_formed(e.adverbs),
        strings_well_formed(e.auxiliaries),
        strings_well_formed(e.prepositions),
        strings_well_formed(e.articles),
        strings_well_formed(e.terminators),
    ensures
        ({
            let (front, st1) = expand(e, pre, st);
            let (whole, st2) = expand(e, pre.push(c), st);
            let w = whole.subrange(front.len() as int, whole.len() as int);
            &&& front.len() <= whole.len()
            &&& whole.subrange(0, front.len() as int) == front
            &&& c == 'N' ==> drawn_from(e.nouns, "thing"@, st1, w, st2)
            &&& c == 'V' ==> drawn_from(e.verbs, "is"@, st1, w, st2)
            &&& c == 'J' ==> drawn_from(e.adjectives, "good"@, st1, w, st2)
            &&& c == 'D' ==> drawn_from(e.adverbs, "well"@, st1, w, st2)
            &&& c == 'X' ==> drawn_from(e.auxiliaries, "can"@, st1, w, st2)
            &&& c == 'P' ==> drawn_from(e.prepositions, "to"@, st1, w, st2)
            &&& c == 'A' ==> drawn_from(e.articles, "the"@, st1, w, st2)
            &&& c == 'T' ==> drawn_from(e.terminators, "."@, st1, w, st2)
            &&& !(c == 'N' || c == 'V' || c == 'J' || c == 'D' || c == 'X' || c == 'P' || c == 'A'
                || c == 'T') ==> w == seq![c] && st2 == st1
        }),
{
    let (front, st1) = expand(e, pre, st);
    assert(pre.push(c).drop_last() =~= pre);
    let (wf, st2) = word_for(e, c, st1);
    let whole = front + wf;
    assert(expand(e, pre.push(c), st) == (whole, st2));
    assert(whole.subrange(front.len() as int, whole.len() as int) =~= wf);
    assert(whole.subrange(0, front.len() as int) =~= front);
    lemma_pick_is_a_value(e.nouns, st1);
    lemma_pick_is_a_value(e.verbs, st1);
    lemma_pick_is_a_value(e.adjectives, st1);
    lemma_pick_is_a_value(e.adverbs, st1);
    lemma_pick_is_a_value(e.auxiliaries, st1);
    lemma_pick_is_a_value(e.prepositions, st1);
    lemma_pick_is_a_value(e.articles, st1);
    lemma_pick_is_a_value(e.terminators, st1);
}

/// A random sentence: a syntax is drawn (or "N V." when there is none) and
/// expanded.
pub open spec fn sentence_spec(e: EnglishView, st: StreamState) -> (Seq<char>, StreamState) {
    let (syntax, st1) = pick_or(e.sentences, st, "N V."@);
    expand(e, syntax, st1)
}

/// A sentence is the expansion of a syntax drawn from the sentence
/// distribution ("N V." when it is empty).
pub proof fn lemma_sentence_expands_a_drawn_syntax(e: EnglishView, st: StreamState)
    requires
        strings_well_formed(e.sentences),
    ensures
        exists|syntax: Seq<char>, st1: StreamState|
            #[trigger] drawn_from(e.sentences, "N V."@, st, syntax, st1) && sentence_spec(e, st) == expand(
                e,
                syntax,
                st1,
            ),
{
    lemma_pick_is_a_value(e.sentences, st);
    let (syntax, st1) = pick_or(e.sentences, st, "N V."@);
    assert(drawn_from(e.sentences, "N V."@, st, syntax, st1));
    assert(sentence_spec(e, st) == expand(e, syntax, st1));
}

/// The upper-case form of an ASCII letter; any other character is kept.
pub open spec fn ascii_upper(c: char) -> char {
    if 'a' <= c <= 'z' {
        ((c as int) - 32) as char
    } else {
        c
    }
}

/// A text with its first character in upper case.
pub open spec fn capitalize(s: Seq<char>) -> Seq<char> {
    if s.len() == 0 {
        s
    } else {
        seq![ascii_upper(s[0])] + s.drop_first()
    }
}

/// Random text of `target` characters and the stream state after it.
/// Sentences are drawn one after another and joined by single spaces; a
/// sentence that follows one ending in '.' (and the first) is capitalized,
/// and the sentence that reaches the target is cut at it.
pub open spec fn text_spec(e: EnglishView, st: StreamState, target: int, beginning: bool) -> (
    Seq<char>,
    StreamState,
)
    decreases target,
{
    if target <= 0 {
        (seq![], st)
    } else {
        let (g0, st1) = sentence_spec(e, st);
        let g = if beginning {
            capitalize(g0)
        } else {
            g0
        };
        if target <= g.len() {
            (g.take(target), st1)
        } else {
            let next_beginning = g.len() > 0 && g.last() == '.';
            let (rest, st2) = text_spec(e, st1, target - g.len() - 1, next_beginning);
            (g + seq![' '] + rest, st2)
        }
    }
}

/// Dividing a positive number by at least two makes it smaller; by one
/// leaves it as it is.
pub proof fn lemma_quotient_shrinks(seed: int, n: int)
    requires
        seed > 0,
        n >= 1,
    ensures
        0 <= seed / n <= seed,
        n >= 2 ==> seed / n < seed,
        n == 1 ==> seed / n == seed,
{
    assert(0 <= seed / n <= seed) by (nonlinear_arith)
        requires
            seed > 0,
            n >= 1,
    ;
    assert(n >= 2 ==> seed / n < seed) by (nonlinear_arith)
        requires
            seed > 0,
            n >= 1,
    ;
}

/// Random text has exactly the length it was asked for (none for a
/// negative one).
pub proof fn lemma_text_has_target_length(e: EnglishView, st: StreamState, target: int, beginning: bool)
    ensures
        text_spec(e, st, target, beginning).0.len() == if target > 0 {
            target
        } else {
            0
        },
    decreases target,
{
    if target > 0 {
        let (g0, st1) = sentence_spec(e, st);
        let g = if beginning {
            capitalize(g0)
        } else {
            g0
        };
        if target > g.len() {
            let next_beginning = g.len() > 0 && g.last() == '.';
            lemma_text_has_target_length(e, st1, target - g.len() - 1, next_beginning);
        }
    }
}

/// A draw of syllables never ends: one syllable only, and it is empty.
pub open spec fn syllables_stall(syllables: Seq<Seq<char>>) -> bool {
    syllables.len() == 1 && syllables[0].len() == 0
}

/// The word a seed spells: the seed is read as digits in base the number
/// of syllables, lowest digit first, each digit naming a syllable; syllables
/// are appended to `acc` while the word stays within `limit` characters, and
/// the first that would exceed it ends the word. (On syllables that stall,
/// where spelling never ends, the word is left as it is.)
pub open spec fn word_spec(syllables: Seq<Seq<char>>, seed: int, limit: int, acc: Seq<char>) -> Seq<
    char,
>
    decreases seed, limit - acc.len(),
{
    if seed <= 0 || syllables.len() == 0 || syllables_stall(syllables) {
        acc
    } else {
        let s = syllables[seed % (syllables.len() as int)];
        if acc.len() + s.len() <= limit {
            proof {
                lemma_quotient_shrinks(seed, syllables.len() as int);
            }
            word_spec(syllables, seed / (syllables.len() as int), limit, acc + s)
        } else {
            acc
        }
    }
}

/// The distributions of English words and sentence syntaxes that random
/// text is made from.
pub struct EnglishDistributions {
    pub sentences: StringValuesDistribution,
    pub nouns: StringValuesDistribution,
    pub verbs: StringValuesDistribution,
    pub adjectives: StringValuesDistribution,
    pub adverbs: StringValuesDistribution,
    pub auxiliaries: StringValuesDistribution,
    pub prepositions: StringValuesDistribution,
    pub articles: StringValuesDistribution,
    pub terminators: StringValuesDistribution,
}

impl View for EnglishDistributions {
    type V = EnglishView;

    open spec fn view(&self) -> EnglishView {
        EnglishView {
            sentences: self.sentences@,
            nouns: self.nouns@,
            verbs: self.verbs@,
            adjectives: self.adjectives@,
            adverbs: self.adverbs@,
            auxiliaries: self.auxiliaries@,
            prepositions: self.prepositions@,
            articles: self.articles@,
            terminators: self.terminators@,
        }
    }
}

} // verus!
