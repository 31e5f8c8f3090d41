use speech_pipeline::speech_to_text::{
    first_present_id, initial_tokens, resolve_special_tokens, sample_len, segment_spans,
    transcript, SpecialToken, SpecialTokens, SttError, Task, WhisperDecode,
};

fn all_tokens() -> SpecialTokens {
    resolve_special_tokens(Some(50258), Some(50359), Some(50358), Some(50257), Some(50363), &vec![
        None,
        Some(50362),
    ])
    .ok()
    .unwrap()
}

#[test]
fn resolves_special_tokens() {
    let t = all_tokens();
    assert_eq!(t.sot, 50258);
    assert_eq!(t.transcribe, 50359);
    assert_eq!(t.translate, 50358);
    assert_eq!(t.eot, 50257);
    assert_eq!(t.no_timestamps, 50363);
    assert_eq!(t.no_speech, 50362);
}

#[test]
fn missing_tokens_are_reported_in_order() {
    let r = resolve_special_tokens(Some(1), None, None, Some(4), Some(5), &vec![Some(6)]);
    match r {
        Err(e) => {
            assert!(matches!(e, SttError::MissingToken(SpecialToken::Transcribe)));
            assert_eq!(e.message(), "missing transcribe token");
        }
        Ok(_) => panic!("expected an error"),
    }
    let r = resolve_special_tokens(Some(1), Some(2), Some(3), Some(4), Some(5), &vec![None, None]);
    match r {
        Err(e) => assert_eq!(e.message(), "missing no_speech token"),
        Ok(_) => panic!("expected an error"),
    }
    let r = resolve_special_tokens(None, Some(2), Some(3), Some(4), Some(5), &vec![Some(6)]);
    match r {
        Err(e) => assert_eq!(e.message(), "missing sot token"),
        Ok(_) => panic!("expected an error"),
    }
}

#[test]
fn first_present_takes_first_hit() {
    assert_eq!(first_present_id(&vec![None, Some(3), Some(4)]), Some(3));
    assert_eq!(first_present_id(&vec![]), None);
}

#[test]
fn opening_tokens() {
    let t = all_tokens();
    assert_eq!(initial_tokens(&t, Some(50276), Task::Transcribe, false), vec![50258, 50276, 50359, 50363]);
    assert_eq!(initial_tokens(&t, None, Task::Translate, true), vec![50258, 50358]);
}

#[test]
fn whisper_decode_appends_until_eot() {
    assert_eq!(sample_len(448), 224);
    let mut d = WhisperDecode::new(vec![1, 2], 9, 224);
    assert!(d.is_first_round());
    d.accept(5);
    assert!(!d.is_first_round());
    assert!(!d.is_finished());
    d.accept(9);
    assert!(d.is_finished());
    assert_eq!(d.tokens(), &vec![1, 2, 5, 9]);
}

#[test]
fn whisper_decode_respects_round_limit() {
    let mut d = WhisperDecode::new(vec![1], 9, 3);
    d.accept(2);
    d.accept(3);
    assert!(!d.is_finished());
    d.accept(4);
    assert!(d.is_finished());
    let z = WhisperDecode::new(vec![1], 9, 0);
    assert!(z.is_finished());
}

#[test]
fn spans_cover_frames() {
    assert_eq!(segment_spans(7000, 3000), vec![(0, 3000), (3000, 3000), (6000, 1000)]);
    assert_eq!(segment_spans(3000, 3000), vec![(0, 3000)]);
    assert_eq!(segment_spans(0, 3000), vec![]);
    assert_eq!(segment_spans(5, 2), vec![(0, 2), (2, 2), (4, 1)]);
}

#[test]
fn transcript_concatenates_and_trims() {
    let t = vec![" Hei,".to_string(), " miten voit? ".to_string()];
    assert_eq!(transcript(&t), "Hei, miten voit?");
    assert_eq!(transcript(&vec![]), "");
}
