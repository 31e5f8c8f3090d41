//! The calls into candle that run the text model: tensors of token ids, the
//! encoder and decoder of the T5 model, and the sampler of the next token.
//! Tensors, devices, models and samplers are carried through opaque; what a
//! call computes from them is not modelled.

use vstd::prelude::*;
use candle_core::{Device, IndexOp, Tensor};
use candle_transformers::generation::LogitsProcessor;
use candle_transformers::models::quantized_t5::T5ForConditionalGeneration;

verus! {

#[verifier::external_type_specification]
#[verifier::external_body]
pub struct ExTensor(Tensor);

#[verifier::external_type_specification]
#[verifier::external_body]
pub struct ExDevice(Device);

#[verifier::external_type_specification]
#[verifier::external_body]
pub struct ExCandleError(candle_core::Error);

#[verifier::external_type_specification]
#[verifier::external_body]
pub struct ExT5ForConditionalGeneration(T5ForConditionalGeneration);

#[verifier::external_type_specification]
#[verifier::external_body]
pub struct ExLogitsProcessor(LogitsProcessor);

/// candle `IndexOp::i` with one index: the slice of `t` at `index` along its
/// first dimension, or candle's error. Nothing is stated of the tensor.
#[verifier::external_body]
pub(crate) fn index_first(t: &Tensor, index: usize) -> (r: Result<Tensor, candle_core::Error>) {
    t.i(index)
}

/// candle `T5ForConditionalGeneration::encode` on the token ids `ids`,
/// made into a one-row batch on `device` (`Tensor::new`, then `unsqueeze(0)`):
/// the encoder's hidden states, or candle's error. Nothing is stated of them.
#[verifier::external_body]
pub(crate) fn t5_encode_ids(
    model: &mut T5ForConditionalGeneration,
    ids: &[u32],
    device: &Device,
) -> (r: Result<Tensor, candle_core::Error>) {
    let batch = Tensor::new(ids, device)?.unsqueeze(0)?;
    model.encode(&batch)
}

/// candle `T5ForConditionalGeneration::decode` on the decoder token ids
/// `ids`, made into a one-row batch on `device` (`Tensor::new`, then
/// `unsqueeze(0)`): the logits of the token that follows, given the encoder
/// output, or candle's error. The decoder reads its last position, so `ids`
/// must not be empty. The model keeps a cache of earlier decoder inputs, so
/// the logits depend on the calls made before on the same model;
/// nothing is stated of them.
#[verifier::external_body]
pub(crate) fn t5_decode_ids(
    model: &mut T5ForConditionalGeneration,
    ids: &[u32],
    encoder_output: &Tensor,
    device: &Device,
) -> (r: Result<Tensor, candle_core::Error>)
    requires
        ids@.len() >= 1,
{
    let batch = Tensor::new(ids, device)?.unsqueeze(0)?;
    model.decode(&batch, encoder_output)
}

/// candle `LogitsProcessor::new` with no temperature and no top-p, which
/// candle reads as arg-max sampling: a sampler that always picks the index of
/// the largest logit (the seed feeds a generator that arg-max never uses).
#[verifier::external_body]
pub(crate) fn greedy_sampler(seed: u64) -> (r: LogitsProcessor) {
    LogitsProcessor::new(seed, None, None)
}

/// candle `LogitsProcessor::sample`: the index of the token picked from the
/// one-dimensional `logits`, or candle's error (such as for empty logits).
/// Nothing is stated of the index, which the floating-point logits decide.
#[verifier::external_body]
pub(crate) fn sample_next(sampler: &mut LogitsProcessor, logits: &Tensor) -> (r: Result<
    u32,
    candle_core::Error,
>) {
    sampler.sample(logits)
}

/// The text of a candle error, as its `Display` writes it. Nothing is stated
/// of the text.
#[verifier::external_body]
pub(crate) fn candle_error_text(e: &candle_core::Error) -> (r: String) {
    e.to_string()
}

} // verus!
