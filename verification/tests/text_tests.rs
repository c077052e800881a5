use tpcdsgen::distribution::{EnglishDistributions, StringValuesDistribution};
use tpcdsgen::random::{RandomNumberStreamImpl, RandomValueGenerator};

fn single(word: &str) -> StringValuesDistribution {
    StringValuesDistribution::new(vec![word.to_string()], &[1]).unwrap()
}

fn empty() -> StringValuesDistribution {
    StringValuesDistribution::new(Vec::new(), &[]).unwrap()
}

fn one_word_english() -> EnglishDistributions {
    EnglishDistributions {
        sentences: single("A J N V D."),
        nouns: single("dog"),
        verbs: single("runs"),
        adjectives: single("quick"),
        adverbs: single("fast"),
        auxiliaries: single("can"),
        prepositions: single("over"),
        articles: single("the"),
        terminators: single("!"),
    }
}

fn empty_english() -> EnglishDistributions {
    EnglishDistributions {
        sentences: empty(),
        nouns: empty(),
        verbs: empty(),
        adjectives: empty(),
        adverbs: empty(),
        auxiliaries: empty(),
        prepositions: empty(),
        articles: empty(),
        terminators: empty(),
    }
}

#[test]
fn test_sentence_expands_each_part_of_speech() {
    let english = one_word_english();
    let mut stream = RandomNumberStreamImpl::new(0).unwrap();
    let sentence = RandomValueGenerator::generate_random_sentence(&english, &mut stream);
    assert_eq!(sentence, "the quick dog runs fast.");
    // one draw for the syntax and one for each of the five words
    assert_eq!(stream.get_seeds_used(), 6);
}

#[test]
fn test_sentence_falls_back_on_empty_distributions() {
    let english = empty_english();
    let mut stream = RandomNumberStreamImpl::new(0).unwrap();
    let sentence = RandomValueGenerator::generate_random_sentence(&english, &mut stream);
    assert_eq!(sentence, "thing is.");
    assert_eq!(stream.get_seeds_used(), 0);
}

#[test]
fn test_random_text_is_cut_at_the_drawn_length() {
    let english = one_word_english();
    let mut stream = RandomNumberStreamImpl::new(0).unwrap();
    let text = RandomValueGenerator::generate_random_text(5, 5, &english, &mut stream);
    assert_eq!(text, "The q");
}

#[test]
fn test_random_text_joins_and_capitalizes_sentences() {
    let english = one_word_english();
    let mut stream = RandomNumberStreamImpl::new(0).unwrap();
    let text = RandomValueGenerator::generate_random_text(30, 30, &english, &mut stream);
    assert_eq!(text, "The quick dog runs fast. The q");
    assert_eq!(text.len(), 30);
}

#[test]
fn test_random_text_keeps_lower_case_after_other_terminators() {
    let mut english = one_word_english();
    english.sentences = single("N T");
    let mut stream = RandomNumberStreamImpl::new(0).unwrap();
    let text = RandomValueGenerator::generate_random_text(11, 11, &english, &mut stream);
    assert_eq!(text, "Dog ! dog !");
}

#[test]
fn test_random_text_of_length_zero_is_empty() {
    let english = one_word_english();
    let mut stream = RandomNumberStreamImpl::new(0).unwrap();
    let text = RandomValueGenerator::generate_random_text(0, 0, &english, &mut stream);
    assert_eq!(text, "");
    assert_eq!(stream.get_seeds_used(), 1);
}

#[test]
fn test_word_spells_the_seed_in_syllables() {
    let syllables = StringValuesDistribution::new(
        vec!["ba".to_string(), "ca".to_string(), "da".to_string()],
        &[1, 1, 1],
    )
    .unwrap();
    let mut stream = RandomNumberStreamImpl::new(0).unwrap();
    // 5 = 2 + 1 * 3: syllable 2, then syllable 1
    assert_eq!(RandomValueGenerator::generate_word(5, 10, &syllables, &mut stream), "daca");
    assert_eq!(RandomValueGenerator::generate_word(5, 3, &syllables, &mut stream), "da");
    assert_eq!(RandomValueGenerator::generate_word(0, 10, &syllables, &mut stream), "");
    assert_eq!(RandomValueGenerator::generate_word(5, -1, &syllables, &mut stream), "daca");
    assert_eq!(stream.get_seeds_used(), 0);
}

#[test]
fn test_distribution_rejects_mismatched_weights() {
    assert!(StringValuesDistribution::new(vec!["a".to_string()], &[1, 2]).is_err());
    assert!(StringValuesDistribution::new(vec!["a".to_string()], &[0]).is_err());
    assert!(StringValuesDistribution::new(vec!["a".to_string()], &[-1]).is_err());
}

#[test]
fn test_distribution_picks_by_cumulative_weight() {
    let d = StringValuesDistribution::new(
        vec!["never".to_string(), "always".to_string()],
        &[0, 5],
    )
    .unwrap();
    let mut stream = RandomNumberStreamImpl::new(0).unwrap();
    for _ in 0..20 {
        assert_eq!(d.pick_random_value(&mut stream), Some("always"));
    }
    assert_eq!(d.get_size(), 2);
    assert_eq!(d.get_value_at_index(0), Some("never"));
    assert_eq!(d.get_value_at_index(2), None);
}
