//! Decisions around audio capture: which WAV files are accepted and how
//! their samples are scaled, how captured audio is brought to 16 kHz mono,
//! and the key-driven recording of segments.

use vstd::prelude::*;
use vstd::arithmetic::power2::{pow2, lemma2_to64, lemma_pow2_strictly_increases};
use crate::text::{owned, push_decimal, push_str, decimal};

verus! {

broadcast use vstd::string::group_string_axioms;

/// The sample rate the pipeline works at, in Hz.
pub const TARGET_SAMPLE_RATE: u32 = 16000;

/// Audio capture from WAV files and the microphone.
pub struct AudioCapture;

/// What a WAV header says about its samples.
#[derive(Clone, Copy, Debug, PartialEq, Eq, Structural)]
pub struct WavFormat {
    pub channels: u16,
    pub sample_rate: u32,
    pub bits_per_sample: u16,
    /// Whether the samples are floating point (otherwise integers).
    pub is_float: bool,
}

/// How the samples of a WAV file become values in `[-1, 1]`.
#[derive(Clone, Copy, Debug, PartialEq, Eq, Structural)]
pub enum SampleScale {
    /// Floating-point samples are taken as they are.
    Float,
    /// Integer samples are divided by `full_scale`, so that they land in
    /// `[-1, 1)`.
    Int { full_scale: u32 },
}

/// How the samples of an accepted WAV file are decoded.
#[derive(Clone, Copy, Debug, PartialEq, Eq, Structural)]
pub struct WavDecoding {
    pub scale: SampleScale,
    /// For a file of `c >= 2` channels, `Some(c)`: each frame of `c`
    /// interleaved samples is averaged into one, so the result is mono.
    pub downmix: Option<u16>,
}

/// Why audio was refused.
#[derive(Clone, Copy, Debug, PartialEq, Eq, Structural)]
pub enum AudioError {
    /// The WAV file is not sampled at 16 kHz; the rate it has.
    UnexpectedSampleRate(u32),
}

impl AudioError {
    /// The text that reports the error.
    pub fn message(&self) -> (r: String)
        ensures
            r@ == match self {
                AudioError::UnexpectedSampleRate(rate) => "Expected 16kHz sample rate, got "@
                    + decimal(*rate as nat) + "Hz. Please resample your audio file."@,
            },
    {
        match self {
            AudioError::UnexpectedSampleRate(rate) => {
                let mut r = owned("Expected 16kHz sample rate, got ");
                push_decimal(&mut r, *rate as u64);
                push_str(&mut r, "Hz. Please resample your audio file.");
                r
            },
        }
    }
}

/// The divisor of integer samples of `bits` bits: `2^(bits - 1)`, the
/// magnitude of the most negative sample.
pub open spec fn full_scale_of(bits: u16) -> int {
    pow2((bits - 1) as nat) as int
}

/// The divisor of integer samples of `bits` bits (see `full_scale_of`).
pub fn full_scale(bits: u16) -> (r: u32)
    requires
        1 <= bits <= 32,
    ensures
        r as int == full_scale_of(bits),
{
    let k: u64 = (bits - 1) as u64;
    let v: u64 = 1u64 << k;
    proof {
        vstd::bits::lemma_u64_pow2_no_overflow(k as nat);
        vstd::bits::lemma_u64_shl_is_mul(1, k);
        lemma2_to64();
        if k < 32 {
            lemma_pow2_strictly_increases(k as nat, 32);
        }
    }
    v as u32
}

/// How a WAV file with the given header is decoded, or why it is refused:
/// only 16 kHz files are accepted; files of two or more channels are mixed
/// down to mono.
pub open spec fn wav_decoding_of(f: WavFormat) -> Result<WavDecoding, AudioError> {
    if f.sample_rate != TARGET_SAMPLE_RATE {
        Err(AudioError::UnexpectedSampleRate(f.sample_rate))
    } else {
        Ok(
            WavDecoding {
                scale: if f.is_float {
                    SampleScale::Float
                } else {
                    SampleScale::Int { full_scale: full_scale_of(f.bits_per_sample) as u32 }
                },
                downmix: if f.channels >= 2 {
                    Some(f.channels)
                } else {
                    None
                },
            },
        )
    }
}

/// How captured audio is brought to 16 kHz mono.
#[derive(Clone, Copy, Debug, PartialEq, Eq, Structural)]
pub struct CapturePlan {
    /// For audio of `c >= 2` channels, `Some(c)`: each frame of `c`
    /// interleaved samples is averaged into one, so the result is mono.
    pub downmix: Option<usize>,
    /// The rate to resample from, when it is not 16 kHz.
    pub resample_from: Option<u32>,
}

/// How audio captured at `sample_rate` with `channels` channels is brought
/// to 16 kHz mono: two or more channels are mixed down, any other rate is
/// resampled.
pub fn capture_plan(sample_rate: u32, channels: usize) -> (r: CapturePlan)
    ensures
        r.downmix == (if channels >= 2 {
            Some(channels)
        } else {
            None
        }),
        r.resample_from == (if sample_rate != TARGET_SAMPLE_RATE {
            Some(sample_rate)
        } else {
            None
        }),
{
    CapturePlan {
        downmix: if channels >= 2 {
            Some(channels)
        } else {
            None
        },
        resample_from: if sample_rate != TARGET_SAMPLE_RATE {
            Some(sample_rate)
        } else {
            None
        },
    }
}

impl AudioCapture {
    /// A capture handle.
    pub fn new() -> (r: Self) {
        AudioCapture
    }

    /// How a WAV file with the header `format` is decoded (see
    /// `wav_decoding_of`).
    pub fn wav_decoding(&self, format: &WavFormat) -> (r: Result<WavDecoding, AudioError>)
        requires
            !format.is_float && format.sample_rate == TARGET_SAMPLE_RATE ==> 1
                <= format.bits_per_sample <= 32,
        ensures
            r == wav_decoding_of(*format),
    {
        if format.sample_rate != TARGET_SAMPLE_RATE {
            return Err(AudioError::UnexpectedSampleRate(format.sample_rate));
        }
        let scale = if format.is_float {
            SampleScale::Float
        } else {
            SampleScale::Int { full_scale: full_scale(format.bits_per_sample) }
        };
        let downmix = if format.channels >= 2 {
            Some(format.channels)
        } else {
            None
        };
        Ok(WavDecoding { scale, downmix })
    }
}

/// A key press, as far as the recording loops tell keys apart.
#[derive(Clone, Copy, Debug, PartialEq, Eq, Structural)]
pub enum KeyInput {
    Char(char),
    Esc,
    Other,
}

/// Whether a key ends a recording loop: `q` or Escape.
pub open spec fn is_quit_key(k: KeyInput) -> bool {
    k == KeyInput::Char('q') || k == KeyInput::Esc
}

/// Exactly `q` and Escape end a recording loop.
pub proof fn law_quit_keys(key: KeyInput)
    ensures
        is_quit_key(KeyInput::Char('q')),
        is_quit_key(KeyInput::Esc),
        key != KeyInput::Char('q') && key != KeyInput::Esc ==> !is_quit_key(key),
{
}

/// What the segment recorder does on a key press.
#[derive(Clone, Copy, Debug, PartialEq, Eq, Structural)]
pub enum SegmentAction {
    /// The buffered audio becomes segment number `number`.
    SaveSegment { number: i32 },
    /// Space was pressed with nothing buffered.
    NothingRecorded,
    /// Recording ends.
    Stop,
    /// The key means nothing here.
    Ignore,
}

/// Recording cut into segments by the space key: each press of space turns
/// the audio buffered since the previous press into a segment, unless there
/// is none; `q` or Escape ends the recording.
pub struct SegmentRecorder {
    /// Segments saved so far.
    pub segment_count: i32,
}

impl SegmentRecorder {
    /// A recorder with no segment saved.
    pub fn new() -> (r: Self)
        ensures
            r.segment_count == 0,
    {
        SegmentRecorder { segment_count: 0 }
    }

    /// Reacts to a key press while `buffered` samples have been captured
    /// since the last cut (the buffer is emptied on every press of space).
    pub fn on_key(&mut self, key: KeyInput, buffered: usize) -> (r: SegmentAction)
        requires
            key == KeyInput::Char(' ') && buffered > 0 ==> old(self).segment_count < i32::MAX,
        ensures
            key == KeyInput::Char(' ') && buffered > 0 ==> final(self).segment_count
                == old(self).segment_count + 1 && r == (SegmentAction::SaveSegment {
                number: final(self).segment_count,
            }),
            key == KeyInput::Char(' ') && buffered == 0 ==> final(self).segment_count
                == old(self).segment_count && r == SegmentAction::NothingRecorded,
            is_quit_key(key) ==> final(self).segment_count == old(self).segment_count && r
                == SegmentAction::Stop,
            key != KeyInput::Char(' ') && !is_quit_key(key) ==> final(self).segment_count
                == old(self).segment_count && r == SegmentAction::Ignore,
    {
        match key {
            KeyInput::Char(' ') => {
                if buffered > 0 {
                    self.segment_count = self.segment_count + 1;
                    SegmentAction::SaveSegment { number: self.segment_count }
                } else {
                    SegmentAction::NothingRecorded
                }
            },
            KeyInput::Char('q') | KeyInput::Esc => SegmentAction::Stop,
            _ => SegmentAction::Ignore,
        }
    }
}

} // verus!
