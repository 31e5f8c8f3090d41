//! The decisions of speech recognition: the special tokens the recognizer
//! needs, the tokens that open each decoding, the decoding loop, the split of
//! a long spectrogram into windows, and the assembly of the transcript.

use vstd::prelude::*;
use crate::text::{owned, push_str, string_views, trim, trimmed};
use crate::tokenization::{decode_ids, decoded, vocab_lookup, vocabulary};
use tokenizers::Tokenizer;

verus! {

broadcast use vstd::string::group_string_axioms;

/// Whether the recognizer writes down the speech or renders it in English.
#[derive(Clone, Copy, Debug, PartialEq, Eq, Structural)]
pub enum Task {
    Transcribe,
    Translate,
}

/// A special token of the recognizer's vocabulary.
#[derive(Clone, Copy, Debug, PartialEq, Eq, Structural)]
pub enum SpecialToken {
    StartOfTranscript,
    Transcribe,
    Translate,
    EndOfText,
    NoTimestamps,
    NoSpeech,
}

impl SpecialToken {
    /// The short name of the token used in error reports.
    pub open spec fn name_of(self) -> Seq<char> {
        match self {
            SpecialToken::StartOfTranscript => "sot"@,
            SpecialToken::Transcribe => "transcribe"@,
            SpecialToken::Translate => "translate"@,
            SpecialToken::EndOfText => "eot"@,
            SpecialToken::NoTimestamps => "no_timestamps"@,
            SpecialToken::NoSpeech => "no_speech"@,
        }
    }

    /// How the vocabulary writes the token. The no-speech token has no single
    /// spelling: its candidate spellings are supplied by the caller.
    pub open spec fn spelling_of(self) -> Seq<char> {
        match self {
            SpecialToken::StartOfTranscript => "<|startoftranscript|>"@,
            SpecialToken::Transcribe => "<|transcribe|>"@,
            SpecialToken::Translate => "<|translate|>"@,
            SpecialToken::EndOfText => "<|endoftext|>"@,
            SpecialToken::NoTimestamps => "<|notimestamps|>"@,
            SpecialToken::NoSpeech => seq![],
        }
    }

    /// How the vocabulary writes the token (see `spelling_of`).
    pub fn spelling(&self) -> (r: &'static str)
        requires
            !(*self is NoSpeech),
        ensures
            r@ == self.spelling_of(),
    {
        match self {
            SpecialToken::StartOfTranscript => "<|startoftranscript|>",
            SpecialToken::Transcribe => "<|transcribe|>",
            SpecialToken::Translate => "<|translate|>",
            SpecialToken::EndOfText => "<|endoftext|>",
            SpecialToken::NoTimestamps => "<|notimestamps|>",
            SpecialToken::NoSpeech => "",
        }
    }

    /// The short name of the token used in error reports.
    pub fn name(&self) -> (r: String)
        ensures
            r@ == self.name_of(),
    {
        match self {
            SpecialToken::StartOfTranscript => owned("sot"),
            SpecialToken::Transcribe => owned("transcribe"),
            SpecialToken::Translate => owned("translate"),
            SpecialToken::EndOfText => owned("eot"),
            SpecialToken::NoTimestamps => owned("no_timestamps"),
            SpecialToken::NoSpeech => owned("no_speech"),
        }
    }
}

/// Why recognition could not start.
#[derive(Debug)]
pub enum SttError {
    /// The vocabulary lacks a special token.
    MissingToken(SpecialToken),
    /// The tokenizer failed; its message.
    Tokenizer(String),
}

impl SttError {
    /// The text that reports the error, such as `missing sot token`.
    pub fn message(&self) -> (r: String)
        ensures
            r@ == match self {
                SttError::MissingToken(t) => "missing "@ + t.name_of() + " token"@,
                SttError::Tokenizer(m) => m@,
            },
    {
        match self {
            SttError::MissingToken(t) => {
                let mut r = owned("missing ");
                let n = t.name();
                push_str(&mut r, n.as_str());
                push_str(&mut r, " token");
                r
            },
            SttError::Tokenizer(m) => owned(m.as_str()),
        }
    }
}

/// The ids of the special tokens.
#[derive(Clone, Copy, Debug, PartialEq, Eq, Structural)]
pub struct SpecialTokens {
    pub sot: u32,
    pub transcribe: u32,
    pub translate: u32,
    pub eot: u32,
    pub no_timestamps: u32,
    pub no_speech: u32,
}

/// The first id that `candidates` holds, if any.
pub open spec fn first_present(candidates: Seq<Option<u32>>) -> Option<u32>
    decreases candidates.len(),
{
    if candidates.len() == 0 {
        None
    } else if candidates[0] is Some {
        candidates[0]
    } else {
        first_present(candidates.drop_first())
    }
}

/// The first id that `candidates` holds, if any.
pub fn first_present_id(candidates: &Vec<Option<u32>>) -> (r: Option<u32>)
    ensures
        r == first_present(candidates@),
{
    let mut i: usize = 0;
    assert(candidates@.skip(0) =~= candidates@);
    while i < candidates.len()
        invariant
            i <= candidates@.len(),
            first_present(candidates@) == first_present(candidates@.skip(i as int)),
        decreases candidates@.len() - i,
    {
        assert(candidates@.skip(i as int).drop_first() =~= candidates@.skip(i + 1));
        if candidates[i].is_some() {
            return candidates[i];
        }
        i += 1;
    }
    assert(candidates@.skip(i as int).len() == 0);
    None
}

/// The special tokens from the vocabulary lookups of each of them, or the
/// error naming the first token (in the order of the parameters) that the
/// vocabulary lacks.
pub open spec fn resolved(
    sot: Option<u32>,
    transcribe: Option<u32>,
    translate: Option<u32>,
    eot: Option<u32>,
    no_timestamps: Option<u32>,
    no_speech: Option<u32>,
) -> Result<SpecialTokens, SttError> {
    if sot is None {
        Err(SttError::MissingToken(SpecialToken::StartOfTranscript))
    } else if transcribe is None {
        Err(SttError::MissingToken(SpecialToken::Transcribe))
    } else if translate is None {
        Err(SttError::MissingToken(SpecialToken::Translate))
    } else if eot is None {
        Err(SttError::MissingToken(SpecialToken::EndOfText))
    } else if no_timestamps is None {
        Err(SttError::MissingToken(SpecialToken::NoTimestamps))
    } else if no_speech is None {
        Err(SttError::MissingToken(SpecialToken::NoSpeech))
    } else {
        Ok(
            SpecialTokens {
                sot: sot->0,
                transcribe: transcribe->0,
                translate: translate->0,
                eot: eot->0,
                no_timestamps: no_timestamps->0,
                no_speech: no_speech->0,
            },
        )
    }
}

/// The special tokens from the vocabulary lookups of each of them; the
/// no-speech token is the first of its candidate spellings that the
/// vocabulary holds (see `resolved`).
pub fn resolve_special_tokens(
    sot: Option<u32>,
    transcribe: Option<u32>,
    translate: Option<u32>,
    eot: Option<u32>,
    no_timestamps: Option<u32>,
    no_speech_candidates: &Vec<Option<u32>>,
) -> (r: Result<SpecialTokens, SttError>)
    ensures
        r == resolved(sot, transcribe, translate, eot, no_timestamps, first_present(no_speech_candidates@)),
{
    let sot = match sot {
        Some(t) => t,
        None => {
            return Err(SttError::MissingToken(SpecialToken::StartOfTranscript));
        },
    };
    let transcribe = match transcribe {
        Some(t) => t,
        None => {
            return Err(SttError::MissingToken(SpecialToken::Transcribe));
        },
    };
    let translate = match translate {
        Some(t) => t,
        None => {
            return Err(SttError::MissingToken(SpecialToken::Translate));
        },
    };
    let eot = match eot {
        Some(t) => t,
        None => {
            return Err(SttError::MissingToken(SpecialToken::EndOfText));
        },
    };
    let no_timestamps = match no_timestamps {
        Some(t) => t,
        None => {
            return Err(SttError::MissingToken(SpecialToken::NoTimestamps));
        },
    };
    let no_speech = match first_present_id(no_speech_candidates) {
        Some(t) => t,
        None => {
            return Err(SttError::MissingToken(SpecialToken::NoSpeech));
        },
    };
    Ok(SpecialTokens { sot, transcribe, translate, eot, no_timestamps, no_speech })
}

/// The tokens that open a decoding: start of transcript, the language when
/// one is set, the task, and the no-timestamps token when timestamps are
/// off.
pub open spec fn initial_tokens_of(
    t: SpecialTokens,
    language: Option<u32>,
    task: Task,
    timestamps: bool,
) -> Seq<u32> {
    let with_language = match language {
        Some(l) => seq![t.sot, l],
        None => seq![t.sot],
    };
    let with_task = match task {
        Task::Transcribe => with_language.push(t.transcribe),
        Task::Translate => with_language.push(t.translate),
    };
    if timestamps {
        with_task
    } else {
        with_task.push(t.no_timestamps)
    }
}

/// The tokens that open a decoding (see `initial_tokens_of`).
pub fn initial_tokens(t: &SpecialTokens, language: Option<u32>, task: Task, timestamps: bool) -> (r:
    Vec<u32>)
    ensures
        r@ == initial_tokens_of(*t, language, task, timestamps),
{
    let mut r: Vec<u32> = Vec::new();
    r.push(t.sot);
    if let Some(l) = language {
        r.push(l);
    }
    match task {
        Task::Transcribe => r.push(t.transcribe),
        Task::Translate => r.push(t.translate),
    }
    if !timestamps {
        r.push(t.no_timestamps);
    }
    assert(r@ =~= initial_tokens_of(*t, language, task, timestamps));
    r
}

/// How many tokens one decoding may sample: half the decoder's positions.
pub fn sample_len(max_target_positions: usize) -> (r: usize)
    ensures
        r == max_target_positions / 2,
{
    max_target_positions / 2
}

/// One decoding of the recognizer: the whole token list is fed back each
/// round and the sampled token appended, until the end-of-text token has been
/// appended or `sample_len` rounds have run.
pub struct WhisperDecode {
    tokens: Vec<u32>,
    initial_len: usize,
    rounds: usize,
    sample_len: usize,
    eot: u32,
    finished: bool,
}

impl WhisperDecode {
    /// The tokens so far: the opening tokens, then one per round.
    pub closed spec fn tokens_view(&self) -> Seq<u32> {
        self.tokens@
    }

    /// The number of rounds run.
    pub closed spec fn rounds_run(&self) -> nat {
        self.rounds as nat
    }

    /// The most rounds allowed.
    pub closed spec fn round_limit(&self) -> nat {
        self.sample_len as nat
    }

    /// The number of opening tokens.
    pub closed spec fn opening_len(&self) -> nat {
        self.initial_len as nat
    }

    /// The end-of-text token.
    pub closed spec fn eot_token(&self) -> u32 {
        self.eot
    }

    /// Whether no further round is to run.
    pub closed spec fn done(&self) -> bool {
        self.finished
    }

    /// The loop is consistent: one token per round after the opening ones,
    /// no more rounds than allowed, and done once the limit is reached.
    pub closed spec fn wf(&self) -> bool {
        &&& self.tokens@.len() == self.initial_len + self.rounds
        &&& self.rounds <= self.sample_len
        &&& self.rounds == self.sample_len ==> self.finished
    }

    /// A decoding that opens with `initial`, stops at `eot` and runs at most
    /// `sample_len` rounds.
    pub fn new(initial: Vec<u32>, eot: u32, sample_len: usize) -> (r: Self)
        ensures
            r.wf(),
            r.tokens_view() == initial@,
            r.opening_len() == initial@.len(),
            r.rounds_run() == 0,
            r.round_limit() == sample_len,
            r.eot_token() == eot,
            r.done() == (sample_len == 0),
    {
        let n = initial.len();
        WhisperDecode {
            tokens: initial,
            initial_len: n,
            rounds: 0,
            sample_len,
            eot,
            finished: sample_len == 0,
        }
    }

    /// Whether no further round is to run.
    pub fn is_finished(&self) -> (r: bool)
        ensures
            r == self.done(),
    {
        self.finished
    }

    /// Whether the next round is the first one (which resets the decoder's
    /// cache).
    pub fn is_first_round(&self) -> (r: bool)
        ensures
            r == (self.rounds_run() == 0),
    {
        self.rounds == 0
    }

    /// The tokens so far, fed to the decoder in each round.
    pub fn tokens(&self) -> (r: &Vec<u32>)
        ensures
            r@ == self.tokens_view(),
    {
        &self.tokens
    }

    /// Appends the token sampled in this round.
    pub fn accept(&mut self, token: u32)
        requires
            old(self).wf(),
            !old(self).done(),
        ensures
            final(self).wf(),
            final(self).tokens_view() == old(self).tokens_view().push(token),
            final(self).rounds_run() == old(self).rounds_run() + 1,
            final(self).round_limit() == old(self).round_limit(),
            final(self).opening_len() == old(self).opening_len(),
            final(self).eot_token() == old(self).eot_token(),
            final(self).done() == (token == old(self).eot_token() || final(self).rounds_run()
                == final(self).round_limit()),
    {
        self.tokens.push(token);
        self.rounds = self.rounds + 1;
        if token == self.eot || self.rounds == self.sample_len {
            self.finished = true;
        }
    }
}

/// Whatever tokens are sampled, a decoding keeps its opening tokens in front
/// and adds one token per round, never more rounds than allowed.
pub proof fn law_whisper_decode_shape(d: &WhisperDecode)
    requires
        d.wf(),
    ensures
        d.tokens_view().len() == d.opening_len() + d.rounds_run(),
        d.rounds_run() <= d.round_limit(),
{
}

/// The number of windows of at most `n` frames that `frames` frames make.
pub open spec fn window_count(frames: nat, n: nat) -> nat
    decreases frames,
{
    if frames == 0 || n == 0 {
        0
    } else if frames <= n {
        1
    } else {
        1 + window_count((frames - n) as nat, n)
    }
}

/// Splits `content_frames` spectrogram frames into the windows that are
/// decoded one after another: each window is given by its first frame and
/// its size; the windows follow each other without gap or overlap, cover
/// every frame, and all but the last hold exactly `n_frames` frames.
pub fn segment_spans(content_frames: usize, n_frames: usize) -> (r: Vec<(usize, usize)>)
    requires
        n_frames > 0,
    ensures
        r@.len() == window_count(content_frames as nat, n_frames as nat),
        content_frames == 0 <==> r@.len() == 0,
        r@.len() > 0 ==> r@[0].0 == 0,
        r@.len() > 0 ==> r@.last().0 + r@.last().1 == content_frames,
        forall|k: int|
            0 <= k < r@.len() ==> 0 < (#[trigger] r@[k]).1 <= n_frames && r@[k].0 + r@[k].1
                <= content_frames,
        forall|k: int|
            0 <= k < r@.len() - 1 ==> (#[trigger] r@[k]).1 == n_frames && r@[k + 1].0 == r@[k].0
                + r@[k].1,
{
    let mut r: Vec<(usize, usize)> = Vec::new();
    let mut seek: usize = 0;
    while seek < content_frames
        invariant
            n_frames > 0,
            seek <= content_frames,
            r@.len() == 0 <==> seek == 0,
            r@.len() > 0 ==> r@[0].0 == 0,
            r@.len() > 0 ==> r@.last().0 + r@.last().1 == seek,
            forall|k: int|
                0 <= k < r@.len() ==> 0 < (#[trigger] r@[k]).1 <= n_frames && r@[k].0 + r@[k].1
                    <= seek,
            forall|k: int|
                0 <= k < r@.len() - 1 ==> (#[trigger] r@[k]).1 == n_frames && r@[k + 1].0
                    == r@[k].0 + r@[k].1,
            r@.len() > 0 ==> (r@.last().1 == n_frames || seek == content_frames),
            r@.len() + window_count((content_frames - seek) as nat, n_frames as nat)
                == window_count(content_frames as nat, n_frames as nat),
        decreases content_frames - seek,
    {
        let rest = content_frames - seek;
        let size = if rest < n_frames {
            rest
        } else {
            n_frames
        };
        r.push((seek, size));
        seek = seek + size;
    }
    r
}

/// Segment texts written one after another.
pub open spec fn concatenated(texts: Seq<Seq<char>>) -> Seq<char>
    decreases texts.len(),
{
    if texts.len() == 0 {
        seq![]
    } else {
        concatenated(texts.drop_last()) + texts.last()
    }
}

/// The transcript of a recording: its segment texts written one after
/// another, without surrounding white space.
pub fn transcript(texts: &Vec<String>) -> (r: String)
    ensures
        r@ == trimmed(concatenated(string_views(texts@))),
{
    let mut all = String::new();
    let mut i: usize = 0;
    while i < texts.len()
        invariant
            i <= texts@.len(),
            all@ == concatenated(string_views(texts@.take(i as int))),
        decreases texts@.len() - i,
    {
        let ghost next = string_views(texts@.take(i + 1));
        assert(next.drop_last() =~= string_views(texts@.take(i as int)));
        assert(next.last() == texts@[i as int]@);
        push_str(&mut all, texts[i].as_str());
        i += 1;
    }
    assert(texts@.take(i as int) =~= texts@);
    trim(all.as_str())
}

/// tokenizers `TokenizerImpl::token_to_id` (through `Tokenizer`): the id of
/// `token` in the vocabulary, if it has one. Claimed: the answer is the
/// lookup of `token` in `vocabulary` (added tokens first, then the model's
/// vocabulary, which is how `get_vocab(true)` merges them).
#[verifier::external_body]
pub fn token_id(tokenizer: &Tokenizer, token: &str) -> (r: Option<u32>)
    ensures
        r == (if vocabulary(*tokenizer).contains_key(token@) {
            Some(vocabulary(*tokenizer)[token@])
        } else {
            None
        }),
{
    tokenizer.token_to_id(token)
}

/// How the vocabulary writes the token of a language given by its code,
/// such as `<|fi|>` for `fi`.
pub open spec fn language_spelling_of(code: Seq<char>) -> Seq<char> {
    "<|"@ + code + "|>"@
}

/// How the vocabulary writes the token of the language `code` (see
/// `language_spelling_of`).
pub fn language_spelling(code: &str) -> (r: String)
    ensures
        r@ == language_spelling_of(code@),
{
    let mut r = owned("<|");
    push_str(&mut r, code);
    push_str(&mut r, "|>");
    r
}

/// The id of the token of the language `code` in the vocabulary, if it has
/// one: the lookup of `language_spelling(code)`.
pub fn language_token(tokenizer: &Tokenizer, code: &str) -> (r: Option<u32>)
    ensures
        r == vocab_lookup(*tokenizer, language_spelling_of(code@)),
{
    let spelling = language_spelling(code);
    token_id(tokenizer, spelling.as_str())
}

/// The vocabulary's answer for each of the spellings `tokens`, in order.
pub open spec fn no_speech_lookups(tokenizer: Tokenizer, tokens: Seq<&str>) -> Seq<Option<u32>> {
    tokens.map_values(|t: &str| vocab_lookup(tokenizer, t@))
}

impl SpecialTokens {
    /// Looks up the special tokens of the recognizer in its vocabulary, each
    /// by its spelling (see `SpecialToken::spelling_of`); the no-speech token
    /// is the first of `no_speech_tokens` that the vocabulary holds.
    pub fn from_tokenizer(tokenizer: &Tokenizer, no_speech_tokens: &[&str]) -> (r: Result<
        SpecialTokens,
        SttError,
    >)
        ensures
            r == resolved(
                vocab_lookup(*tokenizer, SpecialToken::StartOfTranscript.spelling_of()),
                vocab_lookup(*tokenizer, SpecialToken::Transcribe.spelling_of()),
                vocab_lookup(*tokenizer, SpecialToken::Translate.spelling_of()),
                vocab_lookup(*tokenizer, SpecialToken::EndOfText.spelling_of()),
                vocab_lookup(*tokenizer, SpecialToken::NoTimestamps.spelling_of()),
                first_present(no_speech_lookups(*tokenizer, no_speech_tokens@)),
            ),
    {
        let sot = token_id(tokenizer, SpecialToken::StartOfTranscript.spelling());
        if sot.is_none() {
            let r = Err(SttError::MissingToken(SpecialToken::StartOfTranscript));
            assert(r == resolved(sot, None, None, None, None, None));
            return r;
        }
        let transcribe = token_id(tokenizer, SpecialToken::Transcribe.spelling());
        if transcribe.is_none() {
            let r = Err(SttError::MissingToken(SpecialToken::Transcribe));
            assert(r == resolved(sot, transcribe, None, None, None, None));
            return r;
        }
        let translate = token_id(tokenizer, SpecialToken::Translate.spelling());
        if translate.is_none() {
            let r = Err(SttError::MissingToken(SpecialToken::Translate));
            assert(r == resolved(sot, transcribe, translate, None, None, None));
            return r;
        }
        let eot = token_id(tokenizer, SpecialToken::EndOfText.spelling());
        if eot.is_none() {
            let r = Err(SttError::MissingToken(SpecialToken::EndOfText));
            assert(r == resolved(sot, transcribe, translate, eot, None, None));
            return r;
        }
        let no_timestamps = token_id(tokenizer, SpecialToken::NoTimestamps.spelling());
        if no_timestamps.is_none() {
            let r = Err(SttError::MissingToken(SpecialToken::NoTimestamps));
            assert(r == resolved(sot, transcribe, translate, eot, no_timestamps, None));
            return r;
        }
        let ghost lookups = no_speech_lookups(*tokenizer, no_speech_tokens@);
        let mut no_speech: Option<u32> = None;
        let mut i: usize = 0;
        assert(lookups.skip(0) =~= lookups);
        while i < no_speech_tokens.len() && no_speech.is_none()
            invariant
                i <= no_speech_tokens@.len(),
                lookups == no_speech_lookups(*tokenizer, no_speech_tokens@),
                first_present(lookups) == (if no_speech is Some {
                    no_speech
                } else {
                    first_present(lookups.skip(i as int))
                }),
            decreases no_speech_tokens@.len() - i,
        {
            assert(lookups.skip(i as int).drop_first() =~= lookups.skip(i + 1));
            no_speech = token_id(tokenizer, no_speech_tokens[i]);
            i += 1;
        }
        proof {
            if no_speech is None {
                assert(lookups.skip(i as int) =~= Seq::<Option<u32>>::empty());
            }
        }
        let mut candidates: Vec<Option<u32>> = Vec::new();
        candidates.push(no_speech);
        let r = resolve_special_tokens(sot, transcribe, translate, eot, no_timestamps, &candidates);
        assert(first_present(candidates@) == no_speech) by {
            reveal_with_fuel(first_present, 2);
            assert(candidates@.drop_first() =~= Seq::<Option<u32>>::empty());
        }
        assert(r == resolved(sot, transcribe, translate, eot, no_timestamps, no_speech));
        r
    }
}

/// The text of a finished decoding: its tokens decoded by the tokenizer with
/// special tokens left out, or the tokenizer's error.
pub fn segment_text(tokenizer: &Tokenizer, decoding: &WhisperDecode) -> (r: Result<String, SttError>)
    ensures
        decoded(*tokenizer, decoding.tokens_view(), true) matches Ok(x) ==> (r matches Ok(t)
            && t@ == x),
        decoded(*tokenizer, decoding.tokens_view(), true) matches Err(m) ==> (r matches Err(
            SttError::Tokenizer(e),
        ) && e@ == m),
{
    match decode_ids(tokenizer, decoding.tokens().as_slice(), true) {
        Ok(text) => Ok(text),
        Err(m) => Err(SttError::Tokenizer(m)),
    }
}

} // verus!
