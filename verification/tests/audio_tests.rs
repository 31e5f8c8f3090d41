use speech_pipeline::audio_capture::{
    capture_plan, full_scale, AudioCapture, AudioError, KeyInput, SampleScale, SegmentAction,
    SegmentRecorder, WavFormat,
};
use speech_pipeline::recording::{RecordingSession, SessionAction, StopOutcome};

#[test]
fn wav_at_other_rate_is_refused() {
    let a = AudioCapture::new();
    let f = WavFormat { channels: 1, sample_rate: 44100, bits_per_sample: 16, is_float: false };
    let e = a.wav_decoding(&f).unwrap_err();
    assert!(e == AudioError::UnexpectedSampleRate(44100));
    assert_eq!(e.message(), "Expected 16kHz sample rate, got 44100Hz. Please resample your audio file.");
}

#[test]
fn wav_int_samples_are_scaled_by_full_scale() {
    let a = AudioCapture::new();
    let f = WavFormat { channels: 2, sample_rate: 16000, bits_per_sample: 16, is_float: false };
    let d = a.wav_decoding(&f).ok().unwrap();
    assert!(d.scale == SampleScale::Int { full_scale: 32768 });
    assert_eq!(d.downmix, Some(2));
    let g = WavFormat { channels: 1, sample_rate: 16000, bits_per_sample: 32, is_float: true };
    let d = a.wav_decoding(&g).ok().unwrap();
    assert!(d.scale == SampleScale::Float);
    assert_eq!(d.downmix, None);
}

#[test]
fn wav_with_many_channels_is_mixed_to_mono() {
    let a = AudioCapture::new();
    let f = WavFormat { channels: 6, sample_rate: 16000, bits_per_sample: 24, is_float: false };
    let d = a.wav_decoding(&f).ok().unwrap();
    assert_eq!(d.downmix, Some(6));
    assert!(d.scale == SampleScale::Int { full_scale: 8388608 });
}

#[test]
fn full_scale_is_a_power_of_two() {
    assert_eq!(full_scale(1), 1);
    assert_eq!(full_scale(8), 128);
    assert_eq!(full_scale(16), 32768);
    assert_eq!(full_scale(24), 8388608);
    assert_eq!(full_scale(32), 2147483648);
    for bits in 1u16..=32 {
        assert_eq!(full_scale(bits) as u64, 1u64 << (bits - 1));
    }
    // The most negative 32-bit sample scales to -1, the largest stays below 1.
    assert_eq!(i32::MIN as f64 / full_scale(32) as f64, -1.0);
    assert!((i32::MAX as f64 / full_scale(32) as f64) < 1.0);
}

#[test]
fn capture_plan_mixes_down_and_resamples() {
    let p = capture_plan(48000, 2);
    assert_eq!(p.downmix, Some(2));
    assert_eq!(p.resample_from, Some(48000));
    let q = capture_plan(16000, 1);
    assert_eq!(q.downmix, None);
    assert_eq!(q.resample_from, None);
    assert_eq!(capture_plan(16000, 4).downmix, Some(4));
}

#[test]
fn segment_recorder_counts_non_empty_segments() {
    let mut r = SegmentRecorder::new();
    assert!(r.on_key(KeyInput::Char(' '), 0) == SegmentAction::NothingRecorded);
    assert!(r.on_key(KeyInput::Char(' '), 10) == SegmentAction::SaveSegment { number: 1 });
    assert!(r.on_key(KeyInput::Char('x'), 10) == SegmentAction::Ignore);
    assert!(r.on_key(KeyInput::Other, 10) == SegmentAction::Ignore);
    assert!(r.on_key(KeyInput::Char(' '), 3) == SegmentAction::SaveSegment { number: 2 });
    assert!(r.on_key(KeyInput::Char('q'), 3) == SegmentAction::Stop);
    assert!(r.on_key(KeyInput::Esc, 0) == SegmentAction::Stop);
    assert_eq!(r.segment_count, 2);
}

#[test]
fn session_toggles_and_counts_recordings() {
    let mut s = RecordingSession::new();
    assert!(s.on_key(KeyInput::Char(' ')) == SessionAction::StartRecording);
    assert!(s.is_recording);
    assert!(s.on_key(KeyInput::Char(' ')) == SessionAction::StopRecording);
    assert!(!s.is_recording);
    assert!(s.on_stopped(0) == StopOutcome::NothingRecorded);
    assert_eq!(s.recording_count, 0);
    s.on_key(KeyInput::Char(' '));
    s.on_key(KeyInput::Char(' '));
    assert!(s.on_stopped(1600) == StopOutcome::Process { number: 1 });
    assert!(s.on_key(KeyInput::Char('z')) == SessionAction::Ignore);
    assert!(s.on_key(KeyInput::Esc) == SessionAction::Quit);
    assert_eq!(s.recording_count, 1);
}
