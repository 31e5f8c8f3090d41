//! The interactive loop of the pipeline: space starts and stops a recording,
//! each non-empty recording is processed, `q` or Escape quits.

use vstd::prelude::*;
use crate::audio_capture::{KeyInput, is_quit_key};

verus! {

/// What the interactive loop does on a key press.
#[derive(Clone, Copy, Debug, PartialEq, Eq, Structural)]
pub enum SessionAction {
    /// Clear the buffer and start capturing.
    StartRecording,
    /// Stop capturing; what was captured is then reported to `on_stopped`.
    StopRecording,
    /// Leave the loop.
    Quit,
    /// The key means nothing here.
    Ignore,
}

/// What becomes of a recording once capture has stopped.
#[derive(Clone, Copy, Debug, PartialEq, Eq, Structural)]
pub enum StopOutcome {
    /// Nothing was captured; the user is asked to try again.
    NothingRecorded,
    /// The recording is processed as recording number `number`.
    Process { number: i32 },
}

/// The state of the interactive loop.
pub struct RecordingSession {
    /// Whether audio is being captured.
    pub is_recording: bool,
    /// Recordings handed to processing so far.
    pub recording_count: i32,
}

/// The effect of a key press on whether the session records, and the action
/// it calls for.
pub open spec fn key_effect(recording: bool, key: KeyInput) -> (bool, SessionAction) {
    if key == KeyInput::Char(' ') {
        if !recording {
            (true, SessionAction::StartRecording)
        } else {
            (false, SessionAction::StopRecording)
        }
    } else if is_quit_key(key) {
        (recording, SessionAction::Quit)
    } else {
        (recording, SessionAction::Ignore)
    }
}

impl RecordingSession {
    /// A session that is not recording and has processed nothing.
    pub fn new() -> (r: Self)
        ensures
            !r.is_recording,
            r.recording_count == 0,
    {
        RecordingSession { is_recording: false, recording_count: 0 }
    }

    /// Reacts to a key press: space starts a recording or stops the current
    /// one, `q` or Escape quits.
    pub fn on_key(&mut self, key: KeyInput) -> (r: SessionAction)
        ensures
            final(self).recording_count == old(self).recording_count,
            (final(self).is_recording, r) == key_effect(old(self).is_recording, key),
    {
        match key {
            KeyInput::Char(' ') => {
                if !self.is_recording {
                    self.is_recording = true;
                    SessionAction::StartRecording
                } else {
                    self.is_recording = false;
                    SessionAction::StopRecording
                }
            },
            KeyInput::Char('q') | KeyInput::Esc => SessionAction::Quit,
            _ => SessionAction::Ignore,
        }
    }

    /// Decides on a stopped recording of `captured` samples: an empty one is
    /// dropped, any other is counted and processed.
    pub fn on_stopped(&mut self, captured: usize) -> (r: StopOutcome)
        requires
            captured > 0 ==> old(self).recording_count < i32::MAX,
        ensures
            final(self).is_recording == old(self).is_recording,
            captured == 0 ==> final(self).recording_count == old(self).recording_count && r
                == StopOutcome::NothingRecorded,
            captured > 0 ==> final(self).recording_count == old(self).recording_count + 1 && r
                == (StopOutcome::Process { number: final(self).recording_count }),
    {
        if captured == 0 {
            StopOutcome::NothingRecorded
        } else {
            self.recording_count = self.recording_count + 1;
            StopOutcome::Process { number: self.recording_count }
        }
    }
}

/// `q` and Escape quit whether or not a recording runs, and leave the
/// recording state as it is; space toggles recording; every other key is
/// ignored.
pub proof fn law_keys_of_the_session(recording: bool, key: KeyInput)
    ensures
        key_effect(recording, KeyInput::Char('q')) == (recording, SessionAction::Quit),
        key_effect(recording, KeyInput::Esc) == (recording, SessionAction::Quit),
        key_effect(recording, KeyInput::Char(' ')) == (!recording, if recording {
            SessionAction::StopRecording
        } else {
            SessionAction::StartRecording
        }),
        key != KeyInput::Char('q') && key != KeyInput::Esc && key != KeyInput::Char(' ')
            ==> key_effect(recording, key) == (recording, SessionAction::Ignore),
{
}

/// Space starts a recording and the next space stops it: from a session
/// that is not recording, two presses of space give `StartRecording` then
/// `StopRecording` and leave the session not recording.
pub proof fn law_space_toggles(recording: bool)
    requires
        !recording,
    ensures
        key_effect(recording, KeyInput::Char(' ')) == (true, SessionAction::StartRecording),
        key_effect(key_effect(recording, KeyInput::Char(' ')).0, KeyInput::Char(' ')) == (
            false,
            SessionAction::StopRecording,
        ),
{
}

} // verus!
