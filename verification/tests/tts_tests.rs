use speech_pipeline::qwen3_tts_model::{codec_embeddings_used, codec_prefix_ids, kv_repeat};
use speech_pipeline::text_to_speech::{
    clamp_codebook_token, codec_token_grid, counting_ids, predictor_input, CodecGeneration,
    GenerationStep, IdTable, PortugueseTTS, TalkerTokens, TtsError, MAX_NEW_CODEC_TOKENS,
};

fn tokens() -> TalkerTokens {
    let mut speakers = IdTable::new();
    speakers.insert("ryan", 3061);
    speakers.insert("vivian", 3065);
    let mut languages = IdTable::new();
    languages.insert("portuguese", 2071);
    languages.insert("english", 2050);
    TalkerTokens {
        codec_bos_id: 2149,
        codec_eos_token_id: 2150,
        codec_think_id: 2154,
        codec_think_bos_id: 2156,
        codec_think_eos_id: 2157,
        codec_pad_id: 2148,
        speakers,
        languages,
        codebook_vocab_size: 2048,
    }
}

#[test]
fn id_table_reads_back_what_was_written() {
    let mut t = IdTable::new();
    assert_eq!(t.get("a"), None);
    t.insert("a", 1);
    t.insert("b", 2);
    assert_eq!(t.get("a"), Some(1));
    assert_eq!(t.get("b"), Some(2));
    t.insert("a", 9);
    assert_eq!(t.get("a"), Some(9));
    assert_eq!(t.get("b"), Some(2));
    assert_eq!(t.get("c"), None);
}

#[test]
fn new_tts_defaults() {
    let tts = PortugueseTTS::new(tokens());
    assert_eq!(tts.speaker, "ryan");
    assert_eq!(tts.language, "portuguese");
    assert_eq!(tts.sample_rate, 24000);
}

#[test]
fn set_speaker_lowercases() {
    let mut tts = PortugueseTTS::new(tokens());
    tts.set_speaker("Vivian");
    assert_eq!(tts.speaker, "vivian");
    tts.set_speaker("ÅSA");
    assert_eq!(tts.speaker, "åsa");
}

#[test]
fn synthesis_prompt_wraps_text() {
    let tts = PortugueseTTS::new(tokens());
    assert_eq!(
        tts.synthesis_prompt("Olá"),
        "<|im_start|>assistant\nOlá<|im_end|>\n<|im_start|>assistant\n"
    );
}

#[test]
fn codec_prefix_orders_control_tokens() {
    let tts = PortugueseTTS::new(tokens());
    let p = tts.codec_prefix().ok().unwrap();
    assert_eq!(p, vec![2154, 2156, 2071, 2157, 3061, 2148, 2149]);
    assert_eq!(codec_prefix_ids(1, 2, 3, 4, 5, 6, 7), vec![3, 4, 1, 5, 2, 6, 7]);
}

#[test]
fn codec_prefix_reports_unknown_speaker_first() {
    let mut tts = PortugueseTTS::new(tokens());
    tts.set_speaker("nobody");
    tts.language = "klingon".to_string();
    match tts.codec_prefix() {
        Err(e) => {
            assert!(matches!(e, TtsError::UnknownSpeaker(_)));
            assert_eq!(e.message(), "Unknown speaker: nobody");
        }
        Ok(_) => panic!("expected an error"),
    }
    tts.set_speaker("ryan");
    match tts.codec_prefix() {
        Err(e) => assert_eq!(e.message(), "Unknown language: klingon"),
        Ok(_) => panic!("expected an error"),
    }
}

#[test]
fn generation_stops_at_eos_without_keeping_it() {
    let mut g = CodecGeneration::new(vec![10, 11], 99);
    assert!(!g.is_finished());
    assert_eq!(g.input_ids(), vec![10, 11]);
    assert!(matches!(g.accept(5), GenerationStep::Kept { report: false }));
    assert!(matches!(g.accept(6), GenerationStep::Kept { report: false }));
    assert_eq!(g.input_ids(), vec![10, 11, 5, 6]);
    assert_eq!(g.position_ids(3), vec![0, 1, 2, 3, 4, 5, 6]);
    assert!(matches!(g.accept(99), GenerationStep::ReachedEnd { step: 2 }));
    assert!(g.is_finished());
    assert_eq!(g.generated(), &vec![5, 6]);
    assert_eq!(g.into_codes().ok().unwrap(), vec![5, 6]);
}

#[test]
fn generation_stops_after_limit_and_reports_every_twenty() {
    let mut g = CodecGeneration::new(vec![], 7);
    let mut reports = 0;
    while !g.is_finished() {
        if let GenerationStep::Kept { report: true } = g.accept(1) {
            reports += 1;
        }
    }
    assert_eq!(g.generated().len(), MAX_NEW_CODEC_TOKENS);
    assert_eq!(reports, 10);
}

#[test]
fn generation_without_tokens_is_an_error() {
    let mut g = CodecGeneration::new(vec![1], 2);
    g.accept(2);
    match g.into_codes() {
        Err(e) => assert_eq!(e.message(), "No codec tokens were generated by the talker model"),
        Ok(_) => panic!("expected an error"),
    }
}

#[test]
fn clamp_zeroes_tokens_outside_codebook() {
    assert_eq!(clamp_codebook_token(5, 2048), 5);
    assert_eq!(clamp_codebook_token(2047, 2048), 2047);
    assert_eq!(clamp_codebook_token(2048, 2048), 0);
    assert_eq!(clamp_codebook_token(3000, 2048), 0);
}

#[test]
fn predictor_input_fills_first_row() {
    let g = vec![1, 5000, 3];
    assert_eq!(predictor_input(&g, 3, 2048), vec![1, 0, 3, 0, 0, 0, 0, 0, 0]);
    assert_eq!(predictor_input(&g, 1, 2048), vec![1, 0, 3]);
}

#[test]
fn codec_grid_stacks_rows() {
    let g = vec![1, 5000];
    let upper = vec![vec![7, 8], vec![9, 10]];
    assert_eq!(codec_token_grid(&g, 2048, &upper), vec![1, 0, 7, 8, 9, 10]);
    assert_eq!(codec_token_grid(&g, 2048, &vec![]), vec![1, 0]);
}

#[test]
fn counting_and_kv_repeat() {
    assert_eq!(counting_ids(4), vec![0, 1, 2, 3]);
    assert_eq!(counting_ids(0), Vec::<u32>::new());
    assert_eq!(kv_repeat(16, 8), 2);
    assert_eq!(kv_repeat(16, 16), 1);
}

#[test]
fn code_predictor_uses_embeddings_up_to_first_missing() {
    assert_eq!(codec_embeddings_used(&[true, true, false, true]), 2);
    assert_eq!(codec_embeddings_used(&[true, true, true]), 3);
    assert_eq!(codec_embeddings_used(&[false, true]), 0);
    assert_eq!(codec_embeddings_used(&[]), 0);
}
