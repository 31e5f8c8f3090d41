use speech_pipeline::speech_evaluator::{compare_words, normalize, spaced_transcript};

#[test]
fn normalize_lowercases_and_strips_punctuation() {
    assert_eq!(normalize("Olá, Mundo!  Tudo bem?"), "olá mundo tudo bem");
    assert_eq!(normalize("  ...  "), "");
    assert_eq!(normalize("ÁGUA\tfria"), "água fria");
}

#[test]
fn compare_counts_positional_matches_and_missing_words() {
    let m = compare_words("Olá mundo", "ola mundo");
    assert_eq!(m.expected_words, 2);
    assert_eq!(m.correct_words, 1);
    assert_eq!(m.missing_words, vec!["olá".to_string()]);
}

#[test]
fn identical_texts_match_fully() {
    let t = "Olá, como você está hoje?";
    let m = compare_words(t, t);
    assert_eq!(m.correct_words, m.expected_words);
    assert_eq!(m.expected_words, 5);
    assert!(m.missing_words.is_empty());
}

#[test]
fn shifted_words_are_not_missing_but_not_in_place() {
    let m = compare_words("um dois três", "zero um dois três");
    assert_eq!(m.correct_words, 0);
    assert!(m.missing_words.is_empty());
}

#[test]
fn empty_expected_text_has_no_words() {
    let m = compare_words("", "algo");
    assert_eq!(m.expected_words, 0);
    assert_eq!(m.correct_words, 0);
    assert!(m.missing_words.is_empty());
}

#[test]
fn repeated_missing_words_are_listed_each_time() {
    let m = compare_words("sim sim não", "talvez");
    assert_eq!(m.missing_words, vec!["sim".to_string(), "sim".to_string(), "não".to_string()]);
}

#[test]
fn spaced_transcript_joins_segments() {
    let t = vec![" olá".to_string(), "mundo ".to_string()];
    assert_eq!(spaced_transcript(&t), "olá mundo");
    let e = vec!["".to_string(), "a".to_string(), "".to_string(), "b".to_string()];
    assert_eq!(spaced_transcript(&e), "a  b");
    assert_eq!(spaced_transcript(&vec![]), "");
}

#[test]
fn spaced_transcript_is_trimmed_single_space_join() {
    let cases: Vec<Vec<&str>> = vec![
        vec!["", "", " olá", "mundo "],
        vec!["a", "", "b"],
        vec!["", ""],
        vec![" x "],
    ];
    for c in cases {
        let t: Vec<String> = c.iter().map(|s| s.to_string()).collect();
        assert_eq!(spaced_transcript(&t), c.join(" ").trim());
    }
}

#[test]
fn same_words_up_to_case_and_punctuation_match_fully() {
    let m = compare_words("Olá, mundo!", "olá   mundo");
    assert_eq!(m.expected_words, 2);
    assert_eq!(m.correct_words, 2);
    assert!(m.missing_words.is_empty());
}
