use speech_pipeline::translation::{
    eos_token_or_default, finish_text, translation_prompt, TranslationDecode, TranslationError,
    DECODER_START_TOKEN,
    MAX_DECODE_LENGTH,
};

#[test]
fn prompt_asks_for_portuguese() {
    assert_eq!(translation_prompt("Hei, miten voit tänään?"), "<2pt> Hei, miten voit tänään?");
}

#[test]
fn eos_defaults_to_one() {
    assert_eq!(eos_token_or_default(Some(2)), 2);
    assert_eq!(eos_token_or_default(None), 1);
}

#[test]
fn decode_feeds_whole_output_first_then_last_token() {
    let mut d = TranslationDecode::new(1);
    assert_eq!(d.decoder_input(), vec![DECODER_START_TOKEN]);
    assert!(d.accept(42));
    assert_eq!(d.decoder_input(), vec![42]);
    assert!(d.accept(43));
    assert_eq!(d.decoder_input(), vec![43]);
    assert!(!d.accept(1));
    assert!(d.is_finished());
    assert_eq!(d.generated(), vec![42, 43]);
}

#[test]
fn decode_stops_at_length_limit() {
    let mut d = TranslationDecode::new(1);
    let mut rounds = 0;
    while !d.is_finished() {
        d.accept(5);
        rounds += 1;
    }
    assert_eq!(rounds, MAX_DECODE_LENGTH);
    assert_eq!(d.generated().len(), MAX_DECODE_LENGTH);
}

#[test]
fn decode_with_immediate_eos_is_empty() {
    let mut d = TranslationDecode::new(7);
    assert!(!d.accept(7));
    assert!(d.generated().is_empty());
}

#[test]
fn finish_text_trims() {
    assert_eq!(finish_text("  Olá, como está?\n"), "Olá, como está?");
}

#[test]
fn tokenizer_error_is_reported_as_is() {
    let e = TranslationError::Tokenizer("unknown token".to_string());
    assert_eq!(e.message(), "unknown token");
}
