use speech_pipeline::speech_to_text::{
    language_spelling, language_token, segment_text, token_id, SpecialToken, SpecialTokens,
    SttError, WhisperDecode,
};
use speech_pipeline::text_to_speech::{IdTable, PortugueseTTS, TalkerTokens};
use speech_pipeline::translation::{
    decode_output, encode_prompt, end_of_sequence_spelling, eos_token_id, TranslationDecode,
};
use tokenizers::Tokenizer;

fn word_tokenizer(vocab: &str) -> Tokenizer {
    let json = format!(
        "{{\"version\":\"1.0\",\"truncation\":null,\"padding\":null,\"added_tokens\":[],\
         \"normalizer\":null,\"pre_tokenizer\":{{\"type\":\"WhitespaceSplit\"}},\
         \"post_processor\":null,\"decoder\":null,\
         \"model\":{{\"type\":\"WordLevel\",\"vocab\":{{{}}},\"unk_token\":\"[UNK]\"}}}}",
        vocab
    );
    Tokenizer::from_bytes(json.as_bytes()).unwrap()
}

fn whisper_tokenizer(with_no_speech: bool) -> Tokenizer {
    let extra = if with_no_speech { ",\"<|nospeech|>\":16" } else { "" };
    word_tokenizer(&format!(
        "\"[UNK]\":0,\"<|startoftranscript|>\":10,\"<|transcribe|>\":11,\"<|translate|>\":12,\
         \"<|endoftext|>\":13,\"<|notimestamps|>\":14,\"hei\":20,\"maailma\":21{}",
        extra
    ))
}

#[test]
fn token_id_looks_up_vocabulary() {
    let t = whisper_tokenizer(true);
    assert_eq!(token_id(&t, "hei"), Some(20));
    assert_eq!(token_id(&t, "nope"), None);
}

#[test]
fn special_tokens_come_from_the_vocabulary() {
    let t = whisper_tokenizer(true);
    let s: SpecialTokens =
        SpecialTokens::from_tokenizer(&t, &["<|nocaptions|>", "<|nospeech|>"]).ok().unwrap();
    assert_eq!((s.sot, s.transcribe, s.translate, s.eot, s.no_timestamps, s.no_speech), (10, 11, 12, 13, 14, 16));
}

#[test]
fn special_tokens_missing_no_speech() {
    let t = whisper_tokenizer(false);
    match SpecialTokens::from_tokenizer(&t, &["<|nocaptions|>", "<|nospeech|>"]) {
        Err(e) => {
            assert!(matches!(e, SttError::MissingToken(SpecialToken::NoSpeech)));
            assert_eq!(e.message(), "missing no_speech token");
        }
        Ok(_) => panic!("expected an error"),
    }
}

#[test]
fn segment_text_decodes_all_tokens_of_the_decoding() {
    let t = whisper_tokenizer(true);
    let mut d = WhisperDecode::new(vec![10, 11, 14], 13, 10);
    d.accept(20);
    d.accept(21);
    d.accept(13);
    assert_eq!(
        segment_text(&t, &d).ok().unwrap(),
        "<|startoftranscript|> <|transcribe|> <|notimestamps|> hei maailma <|endoftext|>"
    );
}

#[test]
fn translation_prompt_is_tokenized_and_output_decoded() {
    let t = word_tokenizer("\"[UNK]\":0,\"</s>\":1,\"<2pt>\":2,\"hei\":3,\"olá\":4,\"mundo\":5");
    assert_eq!(eos_token_id(&t), 1);
    assert_eq!(encode_prompt(&t, "hei").ok().unwrap(), vec![2, 3]);
    let mut d = TranslationDecode::new(1);
    d.accept(4);
    d.accept(5);
    d.accept(1);
    assert_eq!(decode_output(&t, &d).ok().unwrap(), "olá mundo");
    let no_eos = word_tokenizer("\"[UNK]\":0,\"x\":7");
    assert_eq!(eos_token_id(&no_eos), 1);
}

#[test]
fn tts_prompt_is_tokenized() {
    let t = word_tokenizer("\"[UNK]\":0,\"<|im_start|>assistant\":1,\"olá<|im_end|>\":2");
    let tokens = TalkerTokens {
        codec_bos_id: 1,
        codec_eos_token_id: 2,
        codec_think_id: 3,
        codec_think_bos_id: 4,
        codec_think_eos_id: 5,
        codec_pad_id: 6,
        speakers: IdTable::new(),
        languages: IdTable::new(),
        codebook_vocab_size: 8,
    };
    let tts = PortugueseTTS::new(tokens);
    assert_eq!(tts.text_token_ids(&t, "olá").ok().unwrap(), vec![1, 2, 1]);
}

#[test]
fn eos_is_looked_up_not_defaulted() {
    let t = word_tokenizer("\"[UNK]\":0,\"</s>\":9,\"hei\":3");
    assert_eq!(end_of_sequence_spelling(), "</s>");
    assert_eq!(eos_token_id(&t), 9);
}

#[test]
fn special_token_spellings() {
    assert_eq!(SpecialToken::StartOfTranscript.spelling(), "<|startoftranscript|>");
    assert_eq!(SpecialToken::Transcribe.spelling(), "<|transcribe|>");
    assert_eq!(SpecialToken::Translate.spelling(), "<|translate|>");
    assert_eq!(SpecialToken::EndOfText.spelling(), "<|endoftext|>");
    assert_eq!(SpecialToken::NoTimestamps.spelling(), "<|notimestamps|>");
}

#[test]
fn language_tokens_are_looked_up_by_code() {
    assert_eq!(language_spelling("fi"), "<|fi|>");
    let t = word_tokenizer("\"[UNK]\":0,\"<|fi|>\":50,\"<|pt|>\":51");
    assert_eq!(language_token(&t, "fi"), Some(50));
    assert_eq!(language_token(&t, "pt"), Some(51));
    assert_eq!(language_token(&t, "en"), None);
}
