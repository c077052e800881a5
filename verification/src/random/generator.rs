use vstd::prelude::*;
use crate::distribution::english::{
    EnglishDistributions,
    ascii_upper,
    all_ascii,
    capitalize,
    expand,
    lemma_quotient_shrinks,
    lemma_text_has_target_length,
    syllables_stall,
    word_spec,
    sentence_spec,
    text_spec,
};
use crate::distribution::string_values::StringValuesDistribution;
use crate::error::TpcdsError;
use vstd::string::StringExecFns;
use crate::random::stream::{RandomNumberStreamImpl, StreamState, lemma_advance_step};
use crate::text::collect_chars;
use crate::types::date::{Date, date_of_julian, lemma_julian_round_trip};
use crate::types::decimal::Decimal;

verus! {

/// The arguments of a uniform draw between `min` and `max` cause no
/// arithmetic fault: the width `max - min + 1` is a non-zero `i32` and every
/// result fits in an `i32`.
pub open spec fn uniform_int_ok(min: int, max: int) -> bool {
    let d = max - min + 1;
    &&& i32::MIN <= d <= i32::MAX
    &&& d != 0
    &&& (d < 0 ==> min - d - 1 <= i32::MAX)
}

/// The value of a uniform draw between `min` and `max` from the random value `r`.
pub open spec fn uniform_int_value(r: int, min: int, max: int) -> int {
    min + r % (max - min + 1)
}

/// The magnitude of an integer.
pub open spec fn abs(x: int) -> int {
    if x < 0 {
        -x
    } else {
        x
    }
}

/// The arguments of a uniform key draw cause no arithmetic fault; the width
/// and the minimum are reduced to `i32` before they are used.
pub open spec fn uniform_key_ok(min: int, max: int) -> bool {
    let d = max - min + 1;
    &&& i64::MIN <= max - min
    &&& d <= i64::MAX
    &&& (d as i32) != 0
    &&& (min as i32) + abs((d as i32) as int) - 1 <= i32::MAX
}

/// The value of a uniform key draw from the random value `r`.
pub open spec fn uniform_key_value(r: int, min: int, max: int) -> int {
    r % (((max - min + 1) as i32) as int) + ((min as i32) as int)
}

/// The characters of a random string of `length` characters of `charset`
/// drawn from the stream state `st`, starting with the draw `first`.
pub open spec fn random_chars(st: StreamState, first: nat, length: nat, charset: Seq<char>) -> Seq<
    char,
> {
    Seq::new(length, |i: int| charset[st.draw((first + i) as nat) % (charset.len() as int)])
}

/// Sum of the first `n` weights.
pub open spec fn prefix_sum(w: Seq<i32>, n: int) -> int
    decreases n,
{
    if n <= 0 || n > w.len() {
        0
    } else {
        prefix_sum(w, n - 1) + w[n - 1]
    }
}

/// Every partial sum of the weights fits in an `i32`.
pub open spec fn prefix_sums_fit(w: Seq<i32>) -> bool {
    forall|n: int| 0 <= n <= w.len() ==> i32::MIN <= #[trigger] prefix_sum(w, n) <= i32::MAX
}

/// The number of characters a random character-set string keeps: the drawn
/// length, cut at `max`.
pub open spec fn charset_kept(length: int, max: int) -> int {
    if max <= 0 {
        0
    } else if length < max {
        length
    } else {
        max
    }
}

/// Random character-set strings drawn from the same stream state agree on
/// their common length: whatever lengths are drawn, the shorter string is a
/// prefix of the longer one (and `generate_random_charset` leaves the stream
/// in a state that depends on `max` alone).
pub proof fn lemma_charset_strings_share_prefix(
    st: StreamState,
    first: nat,
    k1: nat,
    k2: nat,
    charset: Seq<char>,
)
    requires
        k1 <= k2,
    ensures
        random_chars(st, first, k1, charset) == random_chars(st, first, k2, charset).take(k1 as int),
{
    assert(random_chars(st, first, k1, charset) =~= random_chars(st, first, k2, charset).take(
        k1 as int,
    ));
}

/// Generators of random values of the basic types from a random number stream.
pub struct RandomValueGenerator;

impl RandomValueGenerator {
    /// Letters and digits used for random identifiers.
    pub const ALPHA_NUMERIC: &'static str =
        "abcdefghijklmnopqrstuvxyzABCDEFGHIJKLMNOPQRSTUVXYZ0123456789";

    /// The decimal digits.
    pub const DIGITS: &'static str = "0123456789";

    /// Draws one value and maps it into `[min, max]` by remainder.
    pub fn generate_uniform_random_int(
        min: i32,
        max: i32,
        random_number_stream: &mut RandomNumberStreamImpl,
    ) -> (r: i32)
        requires
            uniform_int_ok(min as int, max as int),
        ensures
            r == uniform_int_value(old(random_number_stream)@.draw(0), min as int, max as int),
            min <= max ==> min <= r <= max,
            final(random_number_stream)@ == old(random_number_stream)@.advance(1),
    {
        let mut result = random_number_stream.next_random() as i32;
        result = result % (max - min + 1);
        result += min;
        result
    }

    /// Draws one key; the width and the minimum are reduced to `i32` first.
    pub fn generate_uniform_random_key(
        min: i64,
        max: i64,
        random_number_stream: &mut RandomNumberStreamImpl,
    ) -> (r: i64)
        requires
            uniform_key_ok(min as int, max as int),
        ensures
            r == uniform_key_value(old(random_number_stream)@.draw(0), min as int, max as int),
            (i32::MIN <= min <= max <= i32::MAX && max - min + 1 <= i32::MAX) ==> min <= r <= max,
            final(random_number_stream)@ == old(random_number_stream)@.advance(1),
    {
        let mut result = random_number_stream.next_random() as i32;
        result = result % #[verifier::truncate] ((max - min + 1) as i32);
        result += #[verifier::truncate] (min as i32);
        result as i64
    }

    /// Draws a decimal between `min` and `max` with the smaller of their precisions.
    pub fn generate_uniform_random_decimal(
        min: Decimal,
        max: Decimal,
        random_number_stream: &mut RandomNumberStreamImpl,
    ) -> (r: Decimal)
        requires
            ({
                let d = max.number_spec() - min.number_spec() + 1;
                &&& i64::MIN <= d <= i64::MAX
                &&& d != 0
                &&& (d < 0 ==> min.number_spec() - d - 1 <= i64::MAX)
            }),
        ensures
            r.number_spec() == min.number_spec() + old(random_number_stream)@.draw(0) % (
            max.number_spec() - min.number_spec() + 1),
            r.precision_spec() == (if min.precision_spec() < max.precision_spec() {
                min.precision_spec()
            } else {
                max.precision_spec()
            }),
            final(random_number_stream)@ == old(random_number_stream)@.advance(1),
    {
        let precision = if min.get_precision() < max.get_precision() {
            min.get_precision()
        } else {
            max.get_precision()
        };
        let mut number = random_number_stream.next_random();
        number = number % (max.get_number() - min.get_number() + 1);
        number += min.get_number();
        Decimal::new(number, precision).unwrap()
    }

    /// Draws a date between `min` and `max`.
    pub fn generate_uniform_random_date(
        min: Date,
        max: Date,
        random_number_stream: &mut RandomNumberStreamImpl,
    ) -> (r: Result<Date, TpcdsError>)
        requires
            min.julian_fits(),
            max.julian_fits(),
            i32::MIN <= max.julian_spec() - min.julian_spec() <= i32::MAX,
            uniform_int_ok(0, max.julian_spec() - min.julian_spec()),
            i32::MIN <= min.julian_spec() + uniform_int_value(
                old(random_number_stream)@.draw(0),
                0,
                max.julian_spec() - min.julian_spec(),
            ) <= i32::MAX,
        ensures
            r == Ok::<Date, TpcdsError>(
                date_of_julian(
                    min.julian_spec() + uniform_int_value(
                        old(random_number_stream)@.draw(0),
                        0,
                        max.julian_spec() - min.julian_spec(),
                    ),
                ),
            ),
            final(random_number_stream)@ == old(random_number_stream)@.advance(1),
            (1721426 <= min.julian_spec() <= max.julian_spec() <= 100000000) ==> (r matches Ok(d)
                && min.julian_spec() <= d.julian_spec() <= max.julian_spec()),
    {
        proof {
            if 1721426 <= min.julian_spec() <= max.julian_spec() <= 100000000 {
                lemma_julian_round_trip(
                    min.julian_spec() + uniform_int_value(
                        old(random_number_stream)@.draw(0),
                        0,
                        max.julian_spec() - min.julian_spec(),
                    ),
                );
            }
        }
        let range = max.to_julian_days() - min.to_julian_days();
        let julian_days = min.to_julian_days() + Self::generate_uniform_random_int(
            0,
            range,
            random_number_stream,
        );
        Ok(Date::from_julian_days(julian_days))
    }

    /// A string of `length` characters, each drawn uniformly from `character_set`.
    pub fn generate_random_string(
        length: usize,
        character_set: &str,
        random_number_stream: &mut RandomNumberStreamImpl,
    ) -> (r: String)
        requires
            length == 0 || 1 <= character_set@.len() <= i32::MAX,
        ensures
            r@ == random_chars(old(random_number_stream)@, 0, length as nat, character_set@),
            final(random_number_stream)@ == old(random_number_stream)@.advance(length as nat),
    {
        let chars = collect_chars(character_set);
        let mut result = String::new();
        let ghost st = random_number_stream@;
        let mut k: usize = 0;
        while k < length
            invariant
                k <= length,
                length > 0 ==> 1 <= chars@.len() <= i32::MAX,
                chars@ == character_set@,
                random_number_stream@ == st.advance(k as nat),
                result@ == random_chars(st, 0, k as nat, chars@),
            decreases length - k,
        {
            proof {
                lemma_advance_step(st, k as nat);
            }
            let index = Self::generate_uniform_random_int(
                0,
                chars.len() as i32 - 1,
                random_number_stream,
            );
            result.push(chars[index as usize]);
            k += 1;
            assert(result@ =~= random_chars(st, 0, k as nat, chars@));
        }
        result
    }

    /// A string of `length` letters and digits.
    pub fn generate_random_alphanumeric(
        length: usize,
        random_number_stream: &mut RandomNumberStreamImpl,
    ) -> (r: String)
        ensures
            r@ == random_chars(
                old(random_number_stream)@,
                0,
                length as nat,
                Self::ALPHA_NUMERIC@,
            ),
            final(random_number_stream)@ == old(random_number_stream)@.advance(length as nat),
    {
        proof {
            reveal_strlit("abcdefghijklmnopqrstuvxyzABCDEFGHIJKLMNOPQRSTUVXYZ0123456789");
        }
        Self::generate_random_string(length, Self::ALPHA_NUMERIC, random_number_stream)
    }

    /// A string of `length` decimal digits.
    pub fn generate_random_digits(
        length: usize,
        random_number_stream: &mut RandomNumberStreamImpl,
    ) -> (r: String)
        ensures
            r@ == random_chars(old(random_number_stream)@, 0, length as nat, Self::DIGITS@),
            final(random_number_stream)@ == old(random_number_stream)@.advance(length as nat),
    {
        proof {
            reveal_strlit("0123456789");
        }
        Self::generate_random_string(length, Self::DIGITS, random_number_stream)
    }

    /// A string whose length is drawn between `min` and `max`; `max` further
    /// characters are always drawn and only the first `length` of them kept.
    pub fn generate_random_charset(
        character_set: &str,
        min: i32,
        max: i32,
        random_number_stream: &mut RandomNumberStreamImpl,
    ) -> (r: String)
        requires
            uniform_int_ok(min as int, max as int),
            max > 0 ==> 1 <= character_set@.len() <= i32::MAX,
            uniform_int_value(old(random_number_stream)@.draw(0), min as int, max as int) >= 0,
        ensures
            r@ == random_chars(
                old(random_number_stream)@,
                1,
                charset_kept(
                    uniform_int_value(old(random_number_stream)@.draw(0), min as int, max as int),
                    max as int,
                ) as nat,
                character_set@,
            ),
            final(random_number_stream)@ == old(random_number_stream)@.advance(
                (if max > 0 {
                    1 + max
                } else {
                    1
                }) as nat,
            ),
    {
        let ghost st = random_number_stream@;
        let length = Self::generate_uniform_random_int(min, max, random_number_stream);
        let chars = collect_chars(character_set);
        let mut result = String::new();
        let mut i: i32 = 0;
        while i < max
            invariant
                0 <= i,
                max > 0 ==> i <= max,
                max <= 0 ==> i == 0,
                length >= 0,
                length == uniform_int_value(st.draw(0), min as int, max as int),
                max > 0 ==> 1 <= chars@.len() <= i32::MAX,
                chars@ == character_set@,
                random_number_stream@ == st.advance((1 + i) as nat),
                result@ == random_chars(st, 1, charset_kept(length as int, i as int) as nat, chars@),
            decreases max - i,
        {
            proof {
                lemma_advance_step(st, (1 + i) as nat);
            }
            let index = Self::generate_uniform_random_int(
                0,
                chars.len() as i32 - 1,
                random_number_stream,
            );
            if i < length {
                result.push(chars[index as usize]);
            }
            i += 1;
            assert(result@ =~= random_chars(
                st,
                1,
                charset_kept(length as int, i as int) as nat,
                chars@,
            ));
        }
        result
    }

    /// Picks an index with probability proportional to its weight: a value is
    /// drawn between 1 and the total weight, and the first index whose partial
    /// sum reaches it is returned (the last index if none does).
    pub fn generate_weighted_random_index(
        weights: &[i32],
        random_number_stream: &mut RandomNumberStreamImpl,
    ) -> (r: usize)
        requires
            prefix_sums_fit(weights@),
            uniform_int_ok(1, prefix_sum(weights@, weights@.len() as int)),
        ensures
            ({
                let rv = uniform_int_value(
                    old(random_number_stream)@.draw(0),
                    1,
                    prefix_sum(weights@, weights@.len() as int),
                );
                &&& r < weights@.len()
                &&& forall|j: int| 0 <= j < r ==> rv > #[trigger] prefix_sum(weights@, j + 1)
                &&& (rv <= prefix_sum(weights@, r + 1) || r == weights@.len() - 1)
            }),
            final(random_number_stream)@ == old(random_number_stream)@.advance(1),
    {
        let n = weights.len();
        let mut total: i32 = 0;
        let mut k: usize = 0;
        while k < n
            invariant
                n == weights@.len(),
                k <= n,
                prefix_sums_fit(weights@),
                total == prefix_sum(weights@, k as int),
                random_number_stream@ == old(random_number_stream)@,
            decreases n - k,
        {
            assert(prefix_sum(weights@, k + 1) == prefix_sum(weights@, k as int) + weights@[k as int]);
            assert(i32::MIN <= prefix_sum(weights@, k + 1) <= i32::MAX);
            total = total + weights[k];
            k += 1;
        }
        let ghost st = random_number_stream@;
        let random_value = Self::generate_uniform_random_int(1, total, random_number_stream);
        let mut cumulative_weight: i32 = 0;
        let mut index: usize = 0;
        while index < n
            invariant
                n == weights@.len(),
                index <= n,
                prefix_sums_fit(weights@),
                cumulative_weight == prefix_sum(weights@, index as int),
                total == prefix_sum(weights@, n as int),
                random_value == uniform_int_value(st.draw(0), 1, total as int),
                random_number_stream@ == st.advance(1),
                st == old(random_number_stream)@,
                forall|j: int| 0 <= j < index ==> random_value > #[trigger] prefix_sum(weights@, j + 1),
            decreases n - index,
        {
            assert(prefix_sum(weights@, index + 1) == prefix_sum(weights@, index as int)
                + weights@[index as int]);
            assert(i32::MIN <= prefix_sum(weights@, index + 1) <= i32::MAX);
            cumulative_weight = cumulative_weight + weights[index];
            if random_value <= cumulative_weight {
                return index;
            }
            index += 1;
        }
        assert(n >= 1) by {
            if n == 0 {
                assert(prefix_sum(weights@, 0) == 0);
            }
        }
        n - 1
    }

    /// A random sentence: a syntax is drawn from the sentence distribution
    /// ("N V." when it is empty) and each of its letters that names a part
    /// of speech is replaced by a word drawn from that distribution.
    pub fn generate_random_sentence(
        english: &EnglishDistributions,
        random_number_stream: &mut RandomNumberStreamImpl,
    ) -> (r: String)
        ensures
            (r@, final(random_number_stream)@) == sentence_spec(english@, old(random_number_stream)@),
    {
        let syntax = english.sentences.pick_random_value(random_number_stream).unwrap_or("N V.");
        let ghost st1 = random_number_stream@;
        let chars = collect_chars(syntax);
        let mut verbiage = String::new();
        let mut i: usize = 0;
        while i < chars.len()
            invariant
                i <= chars@.len(),
                chars@ == syntax@,
                (verbiage@, random_number_stream@) == expand(english@, chars@.take(i as int), st1),
            decreases chars@.len() - i,
        {
            let ch = chars[i];
            if ch == 'N' {
                verbiage.append(english.nouns.pick_random_value(random_number_stream).unwrap_or("thing"));
            } else if ch == 'V' {
                verbiage.append(english.verbs.pick_random_value(random_number_stream).unwrap_or("is"));
            } else if ch == 'J' {
                verbiage.append(
                    english.adjectives.pick_random_value(random_number_stream).unwrap_or("good"),
                );
            } else if ch == 'D' {
                verbiage.append(english.adverbs.pick_random_value(random_number_stream).unwrap_or("well"));
            } else if ch == 'X' {
                verbiage.append(
                    english.auxiliaries.pick_random_value(random_number_stream).unwrap_or("can"),
                );
            } else if ch == 'P' {
                verbiage.append(
                    english.prepositions.pick_random_value(random_number_stream).unwrap_or("to"),
                );
            } else if ch == 'A' {
                verbiage.append(english.articles.pick_random_value(random_number_stream).unwrap_or("the"));
            } else if ch == 'T' {
                verbiage.append(
                    english.terminators.pick_random_value(random_number_stream).unwrap_or("."),
                );
            } else {
                verbiage.push(ch);
            }
            assert(chars@.take(i + 1).drop_last() =~= chars@.take(i as int));
            i += 1;
        }
        assert(chars@.take(chars@.len() as int) =~= chars@);
        verbiage
    }

    /// The upper-case form of an ASCII letter; any other character is kept.
    fn upper_ascii(c: char) -> (r: char)
        ensures
            r == ascii_upper(c),
    {
        if 'a' <= c && c <= 'z' {
            (((c as u32) - 32) as u8) as char
        } else {
            c
        }
    }

    /// Random text whose length is drawn between `min_length` and
    /// `max_length`: sentences joined by single spaces, each capitalized
    /// when it begins the text or follows a sentence ending in '.', the last
    /// one cut so that the text has exactly the drawn length. The words are
    /// ASCII, so a length in characters is one in bytes.
    pub fn generate_random_text(
        min_length: i32,
        max_length: i32,
        english: &EnglishDistributions,
        random_number_stream: &mut RandomNumberStreamImpl,
    ) -> (r: String)
        requires
            uniform_int_ok(min_length as int, max_length as int),
            english@.is_ascii(),
        ensures
            (r@, final(random_number_stream)@) == text_spec(
                english@,
                old(random_number_stream)@.advance(1),
                uniform_int_value(
                    old(random_number_stream)@.draw(0),
                    min_length as int,
                    max_length as int,
                ),
                true,
            ),
            ({
                let drawn = uniform_int_value(
                    old(random_number_stream)@.draw(0),
                    min_length as int,
                    max_length as int,
                );
                r@.len() == if drawn > 0 {
                    drawn
                } else {
                    0
                }
            }),
    {
        proof {
            lemma_text_has_target_length(
                english@,
                old(random_number_stream)@.advance(1),
                uniform_int_value(
                    old(random_number_stream)@.draw(0),
                    min_length as int,
                    max_length as int,
                ),
                true,
            );
        }
        let mut is_sentence_beginning = true;
        let mut text = String::new();
        let mut target_length = Self::generate_uniform_random_int(
            min_length,
            max_length,
            random_number_stream,
        );
        let ghost st1 = random_number_stream@;
        let ghost whole = text_spec(english@, st1, target_length as int, true);
        if target_length < 0 {
            target_length = 0;
        }
        while target_length > 0
            invariant
                target_length >= 0,
                text@ + text_spec(
                    english@,
                    random_number_stream@,
                    target_length as int,
                    is_sentence_beginning,
                ).0 == whole.0,
                text_spec(
                    english@,
                    random_number_stream@,
                    target_length as int,
                    is_sentence_beginning,
                ).1 == whole.1,
            decreases target_length,
        {
            let ghost text_before = text@;
            let ghost st = random_number_stream@;
            let ghost begin_before = is_sentence_beginning;
            let ghost t = target_length as int;
            let mut generated = Self::generate_random_sentence(english, random_number_stream);
            let n0 = generated.as_str().unicode_len();
            if is_sentence_beginning && n0 > 0 {
                let first = generated.as_str().get_char(0);
                let mut capitalized = String::new();
                capitalized.push(Self::upper_ascii(first));
                capitalized.append(generated.as_str().substring_char(1, n0));
                assert(capitalized@ =~= capitalize(generated@));
                generated = capitalized;
            }
            let generated_length = generated.as_str().unicode_len();
            is_sentence_beginning = generated_length > 0 && generated.as_str().get_char(
                generated_length - 1,
            ) == '.';
            if (target_length as usize) <= generated_length {
                text.append(generated.as_str().substring_char(0, target_length as usize));
                target_length = 0;
                assert(text@ =~= text_before + text_spec(english@, st, t, begin_before).0);
            } else {
                target_length = target_length - (generated_length as i32);
                text.append(generated.as_str());
                text.push(' ');
                target_length = target_length - 1;
                assert(text_before + text_spec(english@, st, t, begin_before).0 =~= text@
                    + text_spec(
                    english@,
                    random_number_stream@,
                    target_length as int,
                    is_sentence_beginning,
                ).0);
            }
        }
        text
    }

    /// The word that `seed` spells in syllables (see `word_spec`), at most
    /// `max_chars` characters long; the stream is not drawn from. The
    /// syllables are ASCII, so a length in characters is one in bytes.
    pub fn generate_word(
        seed: i32,
        max_chars: i32,
        syllables: &StringValuesDistribution,
        random_number_stream: &mut RandomNumberStreamImpl,
    ) -> (r: String)
        requires
            seed > 0 ==> syllables@.values.len() > 0 && !syllables_stall(syllables@.values),
            all_ascii(syllables@),
        ensures
            r@ == word_spec(
                syllables@.values,
                seed as int,
                (#[verifier::truncate] (max_chars as usize)) as int,
                seq![],
            ),
            r@.len() <= (#[verifier::truncate] (max_chars as usize)) as int,
            final(random_number_stream)@ == old(random_number_stream)@,
    {
        let size = syllables.get_size();
        let limit: usize = #[verifier::truncate] (max_chars as usize);
        let ghost values = syllables@.values;
        let ghost target = word_spec(values, seed as int, limit as int, seq![]);
        let mut word = String::new();
        let mut word_len: usize = 0;
        let mut rest: u64 = if seed > 0 {
            seed as u64
        } else {
            0
        };
        while rest > 0
            invariant_except_break
                word_spec(values, rest as int, limit as int, word@) == target,
            invariant
                size == values.len(),
                values == syllables@.values,
                word@.len() == word_len,
                word_len <= limit,
                rest > 0 ==> size > 0 && !syllables_stall(values),
            ensures
                word@ == target,
            decreases rest, limit - word_len,
        {
            let syllable = syllables.get_value_at_index((rest % (size as u64)) as usize).unwrap_or(
                "syl",
            );
            proof {
                lemma_quotient_shrinks(rest as int, size as int);
            }
            rest = rest / (size as u64);
            let syllable_len = syllable.unicode_len();
            if syllable_len <= limit - word_len {
                word.append(syllable);
                word_len = word_len + syllable_len;
            } else {
                break;
            }
        }
        word
    }
}

} // verus!
