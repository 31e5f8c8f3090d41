//! The bookkeeping of Portuguese speech synthesis: the voice settings, the
//! prompt given to the text tokenizer, the codec prefix that selects language
//! and speaker, the loop that collects codec tokens from the talker model,
//! and the token grid handed to the speech decoder.

use vstd::prelude::*;
use crate::text::{lowercase, owned, push_str, to_lowercase};
use crate::qwen3_tts_model::{codec_prefix_ids, codec_prefix_seq};
use crate::tokenization::encode_ids;
use tokenizers::Tokenizer;

verus! {

broadcast use vstd::string::group_string_axioms;

/// The id that the entries `e` give to `name`: the last entry with that name
/// counts.
pub open spec fn lookup(e: Seq<(Seq<char>, u32)>, name: Seq<char>) -> Option<u32>
    decreases e.len(),
{
    if e.len() == 0 {
        None
    } else if e.last().0 == name {
        Some(e.last().1)
    } else {
        lookup(e.drop_last(), name)
    }
}

/// A table from names (of speakers or languages) to ids.
pub struct IdTable {
    entries: Vec<(String, u32)>,
}

impl IdTable {
    /// The entries, each name taken by its characters.
    pub closed spec fn entries_view(&self) -> Seq<(Seq<char>, u32)> {
        self.entries@.map_values(|e: (String, u32)| (e.0@, e.1))
    }
}

impl View for IdTable {
    type V = Map<Seq<char>, u32>;

    /// The table as a map from names to ids.
    closed spec fn view(&self) -> Map<Seq<char>, u32> {
        Map::new(
            |k: Seq<char>| lookup(self.entries_view(), k) is Some,
            |k: Seq<char>| lookup(self.entries_view(), k).unwrap(),
        )
    }
}

impl IdTable {
    /// An empty table.
    pub fn new() -> (r: Self)
        ensures
            r@ == Map::<Seq<char>, u32>::empty(),
    {
        let r = IdTable { entries: Vec::new() };
        assert(r@ =~= Map::<Seq<char>, u32>::empty());
        r
    }

    /// Gives `name` the id `id`, replacing any id it had.
    pub fn insert(&mut self, name: &str, id: u32)
        ensures
            final(self)@ == old(self)@.insert(name@, id),
    {
        let ghost before = self.entries_view();
        self.entries.push((owned(name), id));
        assert(self.entries_view() =~= before.push((name@, id)));
        assert forall|k: Seq<char>|
            #[trigger] lookup(self.entries_view(), k) == (if k == name@ {
                Some(id)
            } else {
                lookup(before, k)
            }) by {
            assert(self.entries_view().drop_last() =~= before);
        }
        assert(self@ =~= old(self)@.insert(name@, id));
    }

    /// The id of `name`, if it has one.
    pub fn get(&self, name: &str) -> (r: Option<u32>)
        ensures
            r == (if self@.contains_key(name@) {
                Some(self@[name@])
            } else {
                None
            }),
    {
        let key = owned(name);
        let ghost ev = self.entries_view();
        let mut i: usize = self.entries.len();
        assert(ev.take(i as int) =~= ev);
        while i > 0
            invariant
                i <= self.entries@.len(),
                ev == self.entries_view(),
                key@ == name@,
                lookup(ev, name@) == lookup(ev.take(i as int), name@),
            decreases i,
        {
            assert(ev.take(i as int).drop_last() =~= ev.take(i - 1));
            assert(ev.take(i as int).last() == (self.entries@[i - 1].0@, self.entries@[i - 1].1));
            if self.entries[i - 1].0 == key {
                return Some(self.entries[i - 1].1);
            }
            i -= 1;
        }
        None
    }
}

/// A name that is given an id keeps it until it is given another, and giving
/// one name an id changes no other name's id.
pub proof fn law_id_table_read_after_write(
    before: Map<Seq<char>, u32>,
    name: Seq<char>,
    id: u32,
    other: Seq<char>,
)
    requires
        other != name,
    ensures
        before.insert(name, id).contains_key(name),
        before.insert(name, id)[name] == id,
        before.insert(name, id).contains_key(other) == before.contains_key(other),
        before.contains_key(other) ==> before.insert(name, id)[other] == before[other],
{
}

/// The codec token ids of the talker model and its speaker and language
/// tables.
pub struct TalkerTokens {
    pub codec_bos_id: u32,
    pub codec_eos_token_id: u32,
    pub codec_think_id: u32,
    pub codec_think_bos_id: u32,
    pub codec_think_eos_id: u32,
    pub codec_pad_id: u32,
    pub speakers: IdTable,
    pub languages: IdTable,
    /// Size of each codebook of the code predictor.
    pub codebook_vocab_size: u32,
}

/// Why synthesis could not go on.
#[derive(Debug)]
pub enum TtsError {
    /// The speaker has no id in the talker's table.
    UnknownSpeaker(String),
    /// The language has no id in the talker's table.
    UnknownLanguage(String),
    /// The talker produced no codec token before stopping.
    NoCodecTokens,
    /// The text tokenizer failed; its message.
    Tokenization(String),
}

impl TtsError {
    /// The text that reports the error.
    pub fn message(&self) -> (r: String)
        ensures
            r@ == match self {
                TtsError::UnknownSpeaker(s) => "Unknown speaker: "@ + s@,
                TtsError::UnknownLanguage(l) => "Unknown language: "@ + l@,
                TtsError::NoCodecTokens => "No codec tokens were generated by the talker model"@,
                TtsError::Tokenization(m) => "Tokenization failed: "@ + m@,
            },
    {
        match self {
            TtsError::UnknownSpeaker(s) => {
                let mut r = owned("Unknown speaker: ");
                push_str(&mut r, s.as_str());
                r
            },
            TtsError::UnknownLanguage(l) => {
                let mut r = owned("Unknown language: ");
                push_str(&mut r, l.as_str());
                r
            },
            TtsError::NoCodecTokens => owned("No codec tokens were generated by the talker model"),
            TtsError::Tokenization(m) => {
                let mut r = owned("Tokenization failed: ");
                push_str(&mut r, m.as_str());
                r
            },
        }
    }
}

/// The text given to the tokenizer for `text`: an assistant turn holding the
/// text, followed by the opening of the assistant turn that is to be spoken.
pub open spec fn synthesis_prompt_of(text: Seq<char>) -> Seq<char> {
    "<|im_start|>assistant\n"@ + text + "<|im_end|>\n<|im_start|>assistant\n"@
}

/// The voice settings of Portuguese speech synthesis.
pub struct PortugueseTTS {
    pub tokens: TalkerTokens,
    /// Sample rate of the synthesized audio, in Hz.
    pub sample_rate: u32,
    pub speaker: String,
    pub language: String,
}

impl PortugueseTTS {
    /// Settings for the given talker tokens: speaker `ryan`, language
    /// `portuguese`, 24 kHz output.
    pub fn new(tokens: TalkerTokens) -> (r: Self)
        ensures
            r.tokens == tokens,
            r.sample_rate == 24000,
            r.speaker@ == "ryan"@,
            r.language@ == "portuguese"@,
    {
        PortugueseTTS {
            tokens,
            sample_rate: 24000,
            speaker: owned("ryan"),
            language: owned("portuguese"),
        }
    }

    /// Chooses the speaker, by the lowercase form of its name.
    pub fn set_speaker(&mut self, speaker: &str)
        ensures
            final(self).speaker@ == lowercase(speaker@),
            final(self).tokens == old(self).tokens,
            final(self).sample_rate == old(self).sample_rate,
            final(self).language == old(self).language,
    {
        self.speaker = to_lowercase(speaker);
    }

    /// The text given to the tokenizer for `text` (see `synthesis_prompt_of`).
    pub fn synthesis_prompt(&self, text: &str) -> (r: String)
        ensures
            r@ == synthesis_prompt_of(text@),
    {
        let mut r = owned("<|im_start|>assistant\n");
        push_str(&mut r, text);
        push_str(&mut r, "<|im_end|>\n<|im_start|>assistant\n");
        r
    }

    /// The text token ids of the prompt for `text` (see `synthesis_prompt_of`),
    /// with the tokenizer's special tokens, or the tokenizer's error.
    pub fn text_token_ids(&self, tokenizer: &Tokenizer, text: &str) -> (r: Result<Vec<u32>, TtsError>)
        ensures
            r is Err ==> (r matches Err(TtsError::Tokenization(_))),
    {
        let prompt = self.synthesis_prompt(text);
        match encode_ids(tokenizer, prompt.as_str(), true) {
            Ok(ids) => Ok(ids),
            Err(m) => Err(TtsError::Tokenization(m)),
        }
    }

    /// The codec prefix for the chosen speaker and language, or the error
    /// that names the first of the two (speaker first) that the tables lack.
    pub fn codec_prefix(&self) -> (r: Result<Vec<u32>, TtsError>)
        ensures
            !self.tokens.speakers@.contains_key(self.speaker@) ==> (r matches Err(
                TtsError::UnknownSpeaker(s),
            ) && s@ == self.speaker@),
            self.tokens.speakers@.contains_key(self.speaker@)
                && !self.tokens.languages@.contains_key(self.language@) ==> (r matches Err(
                TtsError::UnknownLanguage(l),
            ) && l@ == self.language@),
            self.tokens.speakers@.contains_key(self.speaker@)
                && self.tokens.languages@.contains_key(self.language@) ==> (r matches Ok(v)
                && v@ == codec_prefix_seq(
                self.tokens.languages@[self.language@],
                self.tokens.speakers@[self.speaker@],
                self.tokens.codec_think_id,
                self.tokens.codec_think_bos_id,
                self.tokens.codec_think_eos_id,
                self.tokens.codec_pad_id,
                self.tokens.codec_bos_id,
            )),
    {
        let speaker_id = match self.tokens.speakers.get(self.speaker.as_str()) {
            Some(id) => id,
            None => {
                return Err(TtsError::UnknownSpeaker(owned(self.speaker.as_str())));
            },
        };
        let language_id = match self.tokens.languages.get(self.language.as_str()) {
            Some(id) => id,
            None => {
                return Err(TtsError::UnknownLanguage(owned(self.language.as_str())));
            },
        };
        Ok(
            codec_prefix_ids(
                language_id,
                speaker_id,
                self.tokens.codec_think_id,
                self.tokens.codec_think_bos_id,
                self.tokens.codec_think_eos_id,
                self.tokens.codec_pad_id,
                self.tokens.codec_bos_id,
            ),
        )
    }
}

/// The most codec tokens the talker may add after the prefix.
pub const MAX_NEW_CODEC_TOKENS: usize = 200;

/// What the collection of codec tokens did with a sampled token.
#[derive(Debug)]
pub enum GenerationStep {
    /// The token ends the utterance and is not kept; `step` is the number of
    /// tokens kept before it.
    ReachedEnd { step: usize },
    /// The token was kept; `report` is true when the number of kept tokens
    /// has reached a multiple of 20, the moments progress is reported.
    Kept { report: bool },
}

/// The collection of codec tokens from the talker model: each sampled token
/// is kept until the end-of-speech token comes or `MAX_NEW_CODEC_TOKENS` are
/// kept.
pub struct CodecGeneration {
    prefix: Vec<u32>,
    generated: Vec<u32>,
    eos: u32,
    finished: bool,
}

impl CodecGeneration {
    /// The codec prefix that opens every talker input.
    pub closed spec fn prefix_view(&self) -> Seq<u32> {
        self.prefix@
    }

    /// The tokens kept so far, in order.
    pub closed spec fn generated_view(&self) -> Seq<u32> {
        self.generated@
    }

    /// The end-of-speech token.
    pub closed spec fn eos_token(&self) -> u32 {
        self.eos
    }

    /// Whether no further token is to be sampled.
    pub closed spec fn done(&self) -> bool {
        self.finished
    }

    /// The collection is consistent: at most `MAX_NEW_CODEC_TOKENS` tokens
    /// are kept, none of them is the end-of-speech token, and the collection
    /// is done once the limit is reached.
    pub closed spec fn wf(&self) -> bool {
        &&& self.generated@.len() <= MAX_NEW_CODEC_TOKENS
        &&& !self.generated@.contains(self.eos)
        &&& self.generated@.len() == MAX_NEW_CODEC_TOKENS ==> self.finished
    }

    /// A collection that starts after `prefix` and stops at `eos`.
    pub fn new(prefix: Vec<u32>, eos: u32) -> (r: Self)
        ensures
            r.wf(),
            r.prefix_view() == prefix@,
            r.generated_view() == Seq::<u32>::empty(),
            r.eos_token() == eos,
            !r.done(),
    {
        CodecGeneration { prefix, generated: Vec::new(), eos, finished: false }
    }

    /// Whether no further token is to be sampled.
    pub fn is_finished(&self) -> (r: bool)
        ensures
            r == self.done(),
    {
        self.finished
    }

    /// The codec ids of the next talker input: the prefix, then the kept
    /// tokens.
    pub fn input_ids(&self) -> (r: Vec<u32>)
        ensures
            r@ == self.prefix_view() + self.generated_view(),
    {
        let mut r: Vec<u32> = Vec::new();
        let mut i: usize = 0;
        while i < self.prefix.len()
            invariant
                i <= self.prefix@.len(),
                r@ == self.prefix@.take(i as int),
            decreases self.prefix@.len() - i,
        {
            r.push(self.prefix[i]);
            assert(self.prefix@.take(i + 1) =~= self.prefix@.take(i as int).push(self.prefix@[i as int]));
            i += 1;
        }
        let mut j: usize = 0;
        while j < self.generated.len()
            invariant
                i == self.prefix@.len(),
                j <= self.generated@.len(),
                r@ == self.prefix@ + self.generated@.take(j as int),
            decreases self.generated@.len() - j,
        {
            r.push(self.generated[j]);
            assert(self.generated@.take(j + 1) =~= self.generated@.take(j as int).push(
                self.generated@[j as int],
            ));
            j += 1;
        }
        assert(self.prefix@.take(i as int) =~= self.prefix@);
        assert(self.generated@.take(j as int) =~= self.generated@);
        r
    }

    /// The positions of the next talker input, which holds `text_len` text
    /// tokens before the codec ids: `0, 1, ...` up to its length.
    pub fn position_ids(&self, text_len: usize) -> (r: Vec<u32>)
        requires
            text_len + self.prefix_view().len() + self.generated_view().len() <= u32::MAX,
        ensures
            r@.len() == text_len + self.prefix_view().len() + self.generated_view().len(),
            forall|i: int| 0 <= i < r@.len() ==> #[trigger] r@[i] == i,
    {
        let total = text_len + self.prefix.len() + self.generated.len();
        counting_ids(total as u32)
    }

    /// Takes the token sampled from the talker's last position.
    pub fn accept(&mut self, token: u32) -> (r: GenerationStep)
        requires
            old(self).wf(),
            !old(self).done(),
        ensures
            final(self).wf(),
            final(self).prefix_view() == old(self).prefix_view(),
            final(self).eos_token() == old(self).eos_token(),
            token == old(self).eos_token() ==> {
                &&& final(self).done()
                &&& final(self).generated_view() == old(self).generated_view()
                &&& r == GenerationStep::ReachedEnd { step: old(self).generated_view().len() as usize }
            },
            token != old(self).eos_token() ==> {
                &&& final(self).generated_view() == old(self).generated_view().push(token)
                &&& final(self).done() == (final(self).generated_view().len() == MAX_NEW_CODEC_TOKENS)
                &&& r == GenerationStep::Kept {
                    report: final(self).generated_view().len() % 20 == 0,
                }
            },
    {
        if token == self.eos {
            self.finished = true;
            return GenerationStep::ReachedEnd { step: self.generated.len() };
        }
        let ghost before = self.generated@;
        self.generated.push(token);
        assert forall|x: u32| self.generated@.contains(x) implies before.contains(x) || x == token by {
            let k = choose|k: int| 0 <= k < self.generated@.len() && self.generated@[k] == x;
            if k < before.len() {
                assert(before[k] == x);
            }
        }
        let n = self.generated.len();
        if n == MAX_NEW_CODEC_TOKENS {
            self.finished = true;
        }
        GenerationStep::Kept { report: n % 20 == 0 }
    }

    /// The kept tokens, in order.
    pub fn generated(&self) -> (r: &Vec<u32>)
        ensures
            r@ == self.generated_view(),
    {
        &self.generated
    }

    /// The kept tokens, or the error that none was kept.
    pub fn into_codes(self) -> (r: Result<Vec<u32>, TtsError>)
        ensures
            self.generated_view().len() == 0 ==> r matches Err(TtsError::NoCodecTokens),
            self.generated_view().len() > 0 ==> (r matches Ok(v) && v@ == self.generated_view()),
    {
        if self.generated.len() == 0 {
            Err(TtsError::NoCodecTokens)
        } else {
            Ok(self.generated)
        }
    }
}

/// Whatever tokens the talker samples, the collection never keeps the
/// end-of-speech token and never keeps more than `MAX_NEW_CODEC_TOKENS`.
pub proof fn law_generation_bounded(g: &CodecGeneration)
    requires
        g.wf(),
    ensures
        g.generated_view().len() <= MAX_NEW_CODEC_TOKENS,
        !g.generated_view().contains(g.eos_token()),
        g.generated_view().len() == MAX_NEW_CODEC_TOKENS ==> g.done(),
{
}

/// `0, 1, ..., n - 1`.
pub fn counting_ids(n: u32) -> (r: Vec<u32>)
    ensures
        r@.len() == n,
        forall|i: int| 0 <= i < r@.len() ==> #[trigger] r@[i] == i,
{
    let mut r: Vec<u32> = Vec::new();
    let mut i: u32 = 0;
    while i < n
        invariant
            i <= n,
            r@.len() == i,
            forall|k: int| 0 <= k < i ==> #[trigger] r@[k] == k,
        decreases n - i,
    {
        r.push(i);
        i += 1;
    }
    r
}

/// A token the code predictor's codebooks accept: tokens outside the
/// codebook become 0.
pub open spec fn clamp_token(token: u32, vocab_size: u32) -> u32 {
    if token >= vocab_size {
        0
    } else {
        token
    }
}

/// Replaces a token outside the codebook by 0.
pub fn clamp_codebook_token(token: u32, vocab_size: u32) -> (r: u32)
    ensures
        r == clamp_token(token, vocab_size),
        vocab_size > 0 ==> r < vocab_size,
        clamp_token(r, vocab_size) == r || vocab_size == 0,
{
    if token >= vocab_size {
        0
    } else {
        token
    }
}

/// Each token of `tokens` clamped to the codebook.
pub open spec fn clamped_row(tokens: Seq<u32>, vocab_size: u32) -> Seq<u32> {
    tokens.map_values(|t: u32| clamp_token(t, vocab_size))
}

fn push_clamped_row(r: &mut Vec<u32>, tokens: &Vec<u32>, vocab_size: u32)
    ensures
        final(r)@ == old(r)@ + clamped_row(tokens@, vocab_size),
{
    let mut i: usize = 0;
    while i < tokens.len()
        invariant
            i <= tokens@.len(),
            r@ == old(r)@ + clamped_row(tokens@.take(i as int), vocab_size),
        decreases tokens@.len() - i,
    {
        r.push(clamp_codebook_token(tokens[i], vocab_size));
        assert(clamped_row(tokens@.take(i + 1), vocab_size) =~= clamped_row(
            tokens@.take(i as int),
            vocab_size,
        ).push(clamp_token(tokens@[i as int], vocab_size)));
        i += 1;
    }
    assert(tokens@.take(tokens@.len() as int) =~= tokens@);
}

/// The input of the code predictor for `num_quantizers` codebooks: the
/// clamped tokens in the first row, zeros in every other.
pub fn predictor_input(generated: &Vec<u32>, num_quantizers: usize, vocab_size: u32) -> (r: Vec<
    u32,
>)
    requires
        num_quantizers * generated@.len() <= usize::MAX,
        generated@.len() > 0 ==> num_quantizers >= 1,
    ensures
        r@ == clamped_row(generated@, vocab_size) + Seq::new(
            (num_quantizers * generated@.len() - generated@.len()) as nat,
            |i: int| 0u32,
        ),
        r@.len() == num_quantizers * generated@.len(),
{
    let seq_len = generated.len();
    let total = num_quantizers * seq_len;
    assert(total >= seq_len) by (nonlinear_arith)
        requires
            total == num_quantizers * seq_len,
            seq_len > 0 ==> num_quantizers >= 1,
    ;
    let mut r: Vec<u32> = Vec::new();
    push_clamped_row(&mut r, generated, vocab_size);
    let zeros = total - seq_len;
    let mut k: usize = 0;
    while k < zeros
        invariant
            k <= zeros,
            r@ == clamped_row(generated@, vocab_size) + Seq::new(k as nat, |i: int| 0u32),
        decreases zeros - k,
    {
        r.push(0);
        assert(Seq::new((k + 1) as nat, |i: int| 0u32) =~= Seq::new(k as nat, |i: int| 0u32).push(
            0u32,
        ));
        k += 1;
    }
    r
}

/// The contents of a list of rows.
pub open spec fn row_views(rows: Seq<Vec<u32>>) -> Seq<Seq<u32>> {
    rows.map_values(|row: Vec<u32>| row@)
}

/// The codec tokens handed to the speech decoder, row by row: the clamped
/// talker tokens for the first codebook, then the tokens sampled for each
/// further codebook.
pub fn codec_token_grid(generated: &Vec<u32>, vocab_size: u32, upper_rows: &Vec<Vec<u32>>) -> (r:
    Vec<u32>)
    ensures
        r@ == clamped_row(generated@, vocab_size) + row_views(upper_rows@).flatten(),
{
    let mut r: Vec<u32> = Vec::new();
    push_clamped_row(&mut r, generated, vocab_size);
    let ghost first = r@;
    let mut g: usize = 0;
    while g < upper_rows.len()
        invariant
            g <= upper_rows@.len(),
            first == clamped_row(generated@, vocab_size),
            r@ == first + row_views(upper_rows@.take(g as int)).flatten(),
        decreases upper_rows@.len() - g,
    {
        let row = &upper_rows[g];
        let ghost before = r@;
        let mut p: usize = 0;
        while p < row.len()
            invariant
                p <= row@.len(),
                r@ == before + row@.take(p as int),
            decreases row@.len() - p,
        {
            r.push(row[p]);
            assert(row@.take(p + 1) =~= row@.take(p as int).push(row@[p as int]));
            p += 1;
        }
        assert(row@.take(p as int) =~= row@);
        assert(row_views(upper_rows@.take(g + 1)) =~= row_views(upper_rows@.take(g as int)).push(
            row@,
        ));
        proof {
            row_views(upper_rows@.take(g as int)).lemma_flatten_push(row@);
        }
        g += 1;
    }
    assert(upper_rows@.take(g as int) =~= upper_rows@);
    r
}

} // verus!
