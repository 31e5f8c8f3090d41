//! The decisions of Finnish-to-Portuguese text generation: the prompt that
//! asks for Portuguese, the end-of-sequence token, and the greedy decoding
//! loop that collects output tokens.

use vstd::prelude::*;
use crate::text::{owned, push_str, trim, trimmed};
use crate::tokenization::{decode_ids, decoded, encode_ids, vocab_lookup};
use crate::speech_to_text::token_id;
use crate::inference::{
    candle_error_text, greedy_sampler, index_first, sample_next, t5_decode_ids,
    t5_encode_ids,
};
use candle_core::{Device, Tensor};
use candle_transformers::generation::LogitsProcessor;
use candle_transformers::models::quantized_t5::T5ForConditionalGeneration;
use tokenizers::Tokenizer;

verus! {

broadcast use vstd::string::group_string_axioms;

/// The token the decoder starts from (the padding token of the model).
pub const DECODER_START_TOKEN: u32 = 0;

/// The most loop rounds of decoding, and the longest output that is kept.
pub const MAX_DECODE_LENGTH: usize = 512;

/// The prompt that asks the model for Portuguese: the target-language tag
/// `<2pt>`, a space, then the text.
pub open spec fn translation_prompt_of(text: Seq<char>) -> Seq<char> {
    "<2pt> "@ + text
}

/// The prompt for `text` (see `translation_prompt_of`).
pub fn translation_prompt(text: &str) -> (r: String)
    ensures
        r@ == translation_prompt_of(text@),
{
    let mut r = owned("<2pt> ");
    push_str(&mut r, text);
    r
}

/// The end-of-sequence token given what the vocabulary answered for
/// `</s>`: that id, or 1 when it has none.
pub open spec fn eos_of(found: Option<u32>) -> u32 {
    match found {
        Some(id) => id,
        None => 1,
    }
}

/// The end-of-sequence token: the id of `</s>` when the vocabulary has one,
/// otherwise 1 (see `eos_of`).
pub fn eos_token_or_default(found: Option<u32>) -> (r: u32)
    ensures
        r == eos_of(found),
{
    match found {
        Some(id) => id,
        None => 1,
    }
}

/// The text of the translation: the decoded text without surrounding white
/// space.
pub fn finish_text(decoded: &str) -> (r: String)
    ensures
        r@ == trimmed(decoded@),
{
    trim(decoded)
}

/// The greedy decoding loop of the text model: starting from
/// `DECODER_START_TOKEN`, each sampled token is kept until the end-of-sequence
/// token comes or `MAX_DECODE_LENGTH` tokens are kept.
pub struct TranslationDecode {
    output: Vec<u32>,
    kept: usize,
    eos: u32,
    finished: bool,
}

impl TranslationDecode {
    /// The start token followed by the kept tokens.
    pub closed spec fn output_view(&self) -> Seq<u32> {
        self.output@
    }

    /// The kept tokens, in order.
    pub closed spec fn kept_view(&self) -> Seq<u32> {
        self.output@.skip(1)
    }

    /// The end-of-sequence token.
    pub closed spec fn eos_token(&self) -> u32 {
        self.eos
    }

    /// Whether no further token is to be sampled.
    pub closed spec fn done(&self) -> bool {
        self.finished
    }

    /// The loop is consistent: the output starts with the start token, at most
    /// `MAX_DECODE_LENGTH` tokens are kept, none of them is the
    /// end-of-sequence token, and the loop is done once the limit is reached.
    pub closed spec fn wf(&self) -> bool {
        &&& self.output@.len() == self.kept + 1
        &&& self.output@[0] == DECODER_START_TOKEN
        &&& self.kept <= MAX_DECODE_LENGTH
        &&& !self.output@.skip(1).contains(self.eos)
        &&& self.kept == MAX_DECODE_LENGTH ==> self.finished
    }

    /// A loop that stops at `eos`.
    pub fn new(eos: u32) -> (r: Self)
        ensures
            r.wf(),
            r.output_view() == seq![DECODER_START_TOKEN],
            r.kept_view() == Seq::<u32>::empty(),
            r.eos_token() == eos,
            !r.done(),
    {
        let mut output: Vec<u32> = Vec::new();
        output.push(DECODER_START_TOKEN);
        let r = TranslationDecode { output, kept: 0, eos, finished: false };
        assert(r.output@.skip(1) =~= Seq::<u32>::empty());
        r
    }

    /// Whether no further token is to be sampled.
    pub fn is_finished(&self) -> (r: bool)
        ensures
            r == self.done(),
    {
        self.finished
    }

    /// The decoder input of the next round: the whole output in the first
    /// round, afterwards only its last token.
    pub fn decoder_input(&self) -> (r: Vec<u32>)
        requires
            self.wf(),
        ensures
            self.kept_view().len() == 0 ==> r@ == self.output_view(),
            self.kept_view().len() > 0 ==> r@ == seq![self.output_view().last()],
    {
        if self.kept == 0 {
            let mut r: Vec<u32> = Vec::new();
            r.push(self.output[0]);
            assert(r@ =~= self.output@);
            r
        } else {
            let mut r: Vec<u32> = Vec::new();
            r.push(self.output[self.output.len() - 1]);
            r
        }
    }

    /// Takes the token sampled in this round; returns whether it was kept.
    pub fn accept(&mut self, token: u32) -> (r: bool)
        requires
            old(self).wf(),
            !old(self).done(),
        ensures
            final(self).wf(),
            final(self).eos_token() == old(self).eos_token(),
            r == (token != old(self).eos_token()),
            !r ==> final(self).done() && final(self).output_view() == old(self).output_view(),
            r ==> final(self).output_view() == old(self).output_view().push(token)
                && final(self).done() == (final(self).kept_view().len() == MAX_DECODE_LENGTH),
    {
        if token == self.eos {
            self.finished = true;
            return false;
        }
        let ghost before = self.output@;
        self.output.push(token);
        self.kept = self.kept + 1;
        assert(self.output@.skip(1) =~= before.skip(1).push(token));
        assert forall|x: u32| self.output@.skip(1).contains(x) implies before.skip(1).contains(x)
            || x == token by {
            let k = choose|k: int|
                0 <= k < self.output@.skip(1).len() && self.output@.skip(1)[k] == x;
            if k < before.skip(1).len() {
                assert(before.skip(1)[k] == x);
            }
        }
        if self.output.len() > MAX_DECODE_LENGTH || self.kept == MAX_DECODE_LENGTH {
            self.finished = true;
        }
        true
    }

    /// The kept tokens (the output without its start token).
    pub fn generated(&self) -> (r: Vec<u32>)
        requires
            self.wf(),
        ensures
            r@ == self.kept_view(),
    {
        let mut r: Vec<u32> = Vec::new();
        let mut i: usize = 1;
        while i < self.output.len()
            invariant
                1 <= i <= self.output@.len(),
                r@ == self.output@.subrange(1, i as int),
            decreases self.output@.len() - i,
        {
            r.push(self.output[i]);
            assert(self.output@.subrange(1, i + 1) =~= self.output@.subrange(1, i as int).push(
                self.output@[i as int],
            ));
            i += 1;
        }
        assert(self.output@.subrange(1, i as int) =~= self.output@.skip(1));
        r
    }
}

/// Whatever tokens the model samples, the output starts with the start token,
/// never keeps the end-of-sequence token and keeps at most
/// `MAX_DECODE_LENGTH` tokens.
pub proof fn law_decode_bounded(d: &TranslationDecode)
    requires
        d.wf(),
    ensures
        d.output_view()[0] == DECODER_START_TOKEN,
        d.output_view().len() == d.kept_view().len() + 1,
        d.kept_view().len() <= MAX_DECODE_LENGTH,
        !d.kept_view().contains(d.eos_token()),
{
}

/// Why a text could not be rendered in Portuguese.
#[derive(Debug)]
pub enum TranslationError {
    /// The tokenizer failed; its message.
    Tokenizer(String),
    /// The model failed; candle's error.
    Model(candle_core::Error),
}

impl TranslationError {
    /// The text that reports the error: the tokenizer's message, or the text
    /// of candle's error.
    pub fn message(&self) -> (r: String)
        ensures
            self matches TranslationError::Tokenizer(m) ==> r@ == m@,
    {
        match self {
            TranslationError::Tokenizer(m) => owned(m.as_str()),
            TranslationError::Model(e) => candle_error_text(e),
        }
    }
}

/// How the vocabulary writes the end-of-sequence token.
pub fn end_of_sequence_spelling() -> (r: &'static str)
    ensures
        r@ == "</s>"@,
{
    "</s>"
}

/// The end-of-sequence token of a tokenizer: the lookup of
/// `end_of_sequence_spelling()`, made through `eos_token_or_default`, so the
/// id of `</s>` or 1 when the vocabulary lacks it.
pub fn eos_token_id(tokenizer: &Tokenizer) -> (r: u32)
    ensures
        r == eos_of(vocab_lookup(*tokenizer, "</s>"@)),
{
    eos_token_or_default(token_id(tokenizer, end_of_sequence_spelling()))
}

/// The token ids of the prompt for `text` (see `translation_prompt_of`), with
/// the tokenizer's special tokens, or the tokenizer's error.
pub fn encode_prompt(tokenizer: &Tokenizer, text: &str) -> (r: Result<Vec<u32>, TranslationError>)
    ensures
        r is Err ==> (r matches Err(TranslationError::Tokenizer(_))),
{
    let prompt = translation_prompt(text);
    match encode_ids(tokenizer, prompt.as_str(), true) {
        Ok(ids) => Ok(ids),
        Err(m) => Err(TranslationError::Tokenizer(m)),
    }
}

/// The translation held by a finished decoding: its kept tokens decoded with
/// special tokens left out, without surrounding white space; or the
/// tokenizer's error.
pub fn decode_output(tokenizer: &Tokenizer, decoding: &TranslationDecode) -> (r: Result<
    String,
    TranslationError,
>)
    requires
        decoding.wf(),
    ensures
        decoded(*tokenizer, decoding.kept_view(), true) matches Ok(x) ==> (r matches Ok(t) && t@
            == trimmed(x)),
        decoded(*tokenizer, decoding.kept_view(), true) matches Err(m) ==> (r matches Err(
            TranslationError::Tokenizer(e),
        ) && e@ == m),
{
    let kept = decoding.generated();
    match decode_ids(tokenizer, kept.as_slice(), true) {
        Ok(text) => {
            let t = finish_text(text.as_str());
            assert(t@ == trimmed(text@));
            Ok(t)
        },
        Err(m) => Err(TranslationError::Tokenizer(m)),
    }
}

/// The seed of the sampler of each translation.
pub const SAMPLING_SEED: u64 = 299792458;

/// The text model that renders Finnish in Portuguese, with its tokenizer,
/// the device it runs on and its end-of-sequence token.
pub struct Translator {
    model: T5ForConditionalGeneration,
    tokenizer: Tokenizer,
    device: Device,
    eos_token_id: u32,
}

impl Translator {
    /// The end-of-sequence token at which decoding stops.
    pub closed spec fn eos(&self) -> u32 {
        self.eos_token_id
    }

    /// The text model.
    pub closed spec fn model_of(&self) -> T5ForConditionalGeneration {
        self.model
    }

    /// The tokenizer of the text model.
    pub closed spec fn tokenizer_of(&self) -> Tokenizer {
        self.tokenizer
    }

    /// The device the model runs on.
    pub closed spec fn device_of(&self) -> Device {
        self.device
    }

    /// A translator over a loaded model and tokenizer; its end-of-sequence
    /// token is looked up in the tokenizer by `eos_token_id`.
    pub fn new(model: T5ForConditionalGeneration, tokenizer: Tokenizer, device: Device) -> (r: Self)
        ensures
            r.model_of() == model,
            r.tokenizer_of() == tokenizer,
            r.device_of() == device,
            r.eos() == eos_of(vocab_lookup(tokenizer, "</s>"@)),
    {
        let eos = eos_token_id(&tokenizer);
        Self::with_eos_token(model, tokenizer, device, eos)
    }

    /// A translator over a loaded model and tokenizer that stops decoding at
    /// the token `eos`.
    pub fn with_eos_token(
        model: T5ForConditionalGeneration,
        tokenizer: Tokenizer,
        device: Device,
        eos: u32,
    ) -> (r: Self)
        ensures
            r.model_of() == model,
            r.tokenizer_of() == tokenizer,
            r.device_of() == device,
            r.eos() == eos,
    {
        Translator { model, tokenizer, device, eos_token_id: eos }
    }

    /// The end-of-sequence token at which decoding stops.
    pub fn eos_token_id(&self) -> (r: u32)
        ensures
            r == self.eos(),
    {
        self.eos_token_id
    }

    /// The encoder output for the prompt of `text` (see
    /// `translation_prompt_of`).
    fn encode_text(&mut self, text: &str) -> (r: Result<Tensor, TranslationError>)
        ensures
            final(self).eos() == old(self).eos(),
            final(self).tokenizer_of() == old(self).tokenizer_of(),
            final(self).device_of() == old(self).device_of(),
    {
        let tokens = encode_prompt(&self.tokenizer, text)?;
        match t5_encode_ids(&mut self.model, tokens.as_slice(), &self.device) {
            Ok(t) => Ok(t),
            Err(e) => Err(TranslationError::Model(e)),
        }
    }

    /// The token the model picks after the decoder input of `decoding`.
    fn next_token(
        &mut self,
        decoding: &TranslationDecode,
        encoder_output: &Tensor,
        sampler: &mut LogitsProcessor,
    ) -> (r: Result<u32, TranslationError>)
        requires
            decoding.wf(),
        ensures
            final(self).eos() == old(self).eos(),
            final(self).tokenizer_of() == old(self).tokenizer_of(),
            final(self).device_of() == old(self).device_of(),
    {
        let input = decoding.decoder_input();
        let logits = match t5_decode_ids(&mut self.model, input.as_slice(), encoder_output, &self.device) {
            Ok(t) => t,
            Err(e) => {
                return Err(TranslationError::Model(e));
            },
        };
        let last = match index_first(&logits, 0) {
            Ok(t) => t,
            Err(e) => {
                return Err(TranslationError::Model(e));
            },
        };
        match sample_next(sampler, &last) {
            Ok(t) => Ok(t),
            Err(e) => Err(TranslationError::Model(e)),
        }
    }

    /// Runs the greedy decoding for `text`: the prompt `<2pt> text` is
    /// encoded, then tokens are picked greedily,
    /// the first round from the start token and each later round from the
    /// last token, until the end-of-sequence token comes or
    /// `MAX_DECODE_LENGTH` tokens are kept. Gives the finished decoding, or
    /// the first error of the tokenizer or the model. The model keeps its
    /// decoder cache from one call to the next.
    pub fn generate(&mut self, text: &str) -> (r: Result<TranslationDecode, TranslationError>)
        ensures
            final(self).eos() == old(self).eos(),
            final(self).tokenizer_of() == old(self).tokenizer_of(),
            final(self).device_of() == old(self).device_of(),
            r matches Ok(d) ==> d.wf() && d.done() && d.eos_token() == old(self).eos(),
    {
        let encoder_output = self.encode_text(text)?;
        let mut decoding = TranslationDecode::new(self.eos_token_id);
        let mut sampler = greedy_sampler(SAMPLING_SEED);
        while !decoding.is_finished()
            invariant
                decoding.wf(),
                decoding.eos_token() == self.eos(),
                self.eos() == old(self).eos(),
                self.tokenizer_of() == old(self).tokenizer_of(),
                self.device_of() == old(self).device_of(),
            decreases (MAX_DECODE_LENGTH - decoding.kept_view().len()) * 2 + if decoding.done() {
                0int
            } else {
                1int
            },
        {
            let next = self.next_token(&decoding, &encoder_output, &mut sampler)?;
            decoding.accept(next);
        }
        Ok(decoding)
    }

    /// Renders `text` in Portuguese: the finished decoding of `generate`,
    /// its kept tokens decoded by the tokenizer (see `decode_output`) and
    /// trimmed. Every error of the tokenizer or the model is handed back.
    pub fn translate(&mut self, text: &str) -> (r: Result<String, TranslationError>)
        ensures
            final(self).eos() == old(self).eos(),
            final(self).tokenizer_of() == old(self).tokenizer_of(),
            final(self).device_of() == old(self).device_of(),
            r matches Ok(t) ==> exists|d: TranslationDecode|
                #![trigger d.wf()]
                {
                    &&& d.wf()
                    &&& d.done()
                    &&& d.eos_token() == old(self).eos()
                    &&& d.kept_view().len() <= MAX_DECODE_LENGTH
                    &&& !d.kept_view().contains(d.eos_token())
                    &&& decoded(old(self).tokenizer_of(), d.kept_view(), true) matches Ok(x)
                    &&& t@ == trimmed(x)
                },
    {
        let decoding = self.generate(text)?;
        decode_output(&self.tokenizer, &decoding)
    }
}

} // verus!
