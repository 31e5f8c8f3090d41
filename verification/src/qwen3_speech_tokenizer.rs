//! Shape bookkeeping of the speech decoder that turns codec tokens into a
//! waveform: the layout of the token grid, the names of its codebook
//! weights, and the geometry of its convolution stages.

use vstd::prelude::*;
use crate::text::{decimal, owned, push_decimal, push_str, push_char};

verus! {

broadcast use vstd::string::group_string_axioms;

/// Codebook settings of the speech tokenizer's encoder.
#[derive(Debug)]
pub struct EncoderConfig {
    pub codebook_dim: usize,
    pub codebook_size: usize,
}

/// Number of codebooks of the residual quantizer: one semantic, fifteen
/// acoustic.
pub const NUM_CODEBOOKS: usize = 16;

/// The weight name of codebook `i` of the residual quantizer.
pub open spec fn codebook_weight_name_of(i: nat) -> Seq<char> {
    if i == 0 {
        "decoder.quantizer.rvq_first.vq.layers.0._codebook.embedding_sum"@
    } else {
        "decoder.quantizer.rvq_rest.vq.layers."@ + decimal((i - 1) as nat)
            + "._codebook.embedding_sum"@
    }
}

/// The weight name of codebook `i` (see `codebook_weight_name_of`).
pub fn codebook_weight_name(i: usize) -> (r: String)
    requires
        i <= u64::MAX,
    ensures
        r@ == codebook_weight_name_of(i as nat),
{
    if i == 0 {
        owned("decoder.quantizer.rvq_first.vq.layers.0._codebook.embedding_sum")
    } else {
        let mut r = owned("decoder.quantizer.rvq_rest.vq.layers.");
        push_decimal(&mut r, (i - 1) as u64);
        push_str(&mut r, "._codebook.embedding_sum");
        r
    }
}

/// How the codec tokens handed to the decoder are laid out.
#[derive(Clone, Copy, Debug, PartialEq, Eq, Structural)]
pub struct CodecLayout {
    /// Whether the grid has a leading batch dimension.
    pub batched: bool,
    pub num_quantizers: usize,
    pub seq_len: usize,
    /// Codebooks actually summed: the fewer of the grid's quantizers and the
    /// decoder's codebooks.
    pub num_codebooks: usize,
}

/// Why codec tokens could not be decoded.
#[derive(Debug)]
pub enum DecodeError {
    /// The token grid has neither two nor three dimensions; its dimensions.
    UnexpectedShape(Vec<usize>),
    /// No codebook was summed.
    NoCodebooks,
}

/// `dims` written as `Debug` writes a list of numbers: `[a, b, c]`.
pub open spec fn debug_list(dims: Seq<usize>) -> Seq<char>
    decreases dims.len(),
{
    if dims.len() == 0 {
        "[]"@
    } else {
        debug_items(dims).push(']')
    }
}

/// `[` followed by the numbers of `dims` separated by `, `.
pub open spec fn debug_items(dims: Seq<usize>) -> Seq<char>
    decreases dims.len(),
{
    if dims.len() == 0 {
        "["@
    } else if dims.len() == 1 {
        "["@ + decimal(dims[0] as nat)
    } else {
        debug_items(dims.drop_last()) + ", "@ + decimal(dims.last() as nat)
    }
}

impl DecodeError {
    /// The text that reports the error.
    pub fn message(&self) -> (r: String)
        ensures
            r@ == match self {
                DecodeError::UnexpectedShape(d) =>
                    "Expected codec_tokens shape (num_quantizers, seq_len) or (batch, num_quantizers, seq_len), got "@
                    + debug_list(d@),
                DecodeError::NoCodebooks => "No codebooks processed"@,
            },
    {
        match self {
            DecodeError::UnexpectedShape(d) => {
                let mut r = owned(
                    "Expected codec_tokens shape (num_quantizers, seq_len) or (batch, num_quantizers, seq_len), got ",
                );
                let l = debug_list_string(d);
                push_str(&mut r, l.as_str());
                r
            },
            DecodeError::NoCodebooks => owned("No codebooks processed"),
        }
    }
}

/// `dims` written as `Debug` writes a list (see `debug_list`).
pub fn debug_list_string(dims: &Vec<usize>) -> (r: String)
    ensures
        r@ == debug_list(dims@),
{
    if dims.len() == 0 {
        return owned("[]");
    }
    let mut r = owned("[");
    let mut i: usize = 0;
    while i < dims.len()
        invariant
            i <= dims@.len(),
            dims@.len() > 0,
            i == 0 ==> r@ == "["@,
            i > 0 ==> r@ == debug_items(dims@.take(i as int)),
        decreases dims@.len() - i,
    {
        let ghost before = r@;
        if i > 0 {
            push_str(&mut r, ", ");
        }
        push_decimal(&mut r, dims[i] as u64);
        assert(dims@.take(i + 1).drop_last() =~= dims@.take(i as int));
        assert(dims@.take(i + 1).last() == dims@[i as int]);
        if i == 0 {
            assert(dims@.take(1)[0] == dims@[0]);
        }
        i += 1;
    }
    assert(dims@.take(i as int) =~= dims@);
    push_char(&mut r, ']');
    r
}

/// The layout of a token grid with dimensions `dims` for a decoder with
/// `num_codebook_embeddings` codebooks: `(quantizers, length)` or
/// `(batch, quantizers, length)`; any other shape is refused, and so is a
/// grid from which no codebook would be summed.
pub fn codec_layout(dims: &Vec<usize>, num_codebook_embeddings: usize) -> (r: Result<
    CodecLayout,
    DecodeError,
>)
    ensures
        dims@.len() != 2 && dims@.len() != 3 ==> (r matches Err(DecodeError::UnexpectedShape(d))
            && d@ == dims@),
        dims@.len() == 2 || dims@.len() == 3 ==> {
            let batched = dims@.len() == 3;
            let nq = if batched {
                dims@[1]
            } else {
                dims@[0]
            };
            let len = if batched {
                dims@[2]
            } else {
                dims@[1]
            };
            let n = if nq <= num_codebook_embeddings {
                nq
            } else {
                num_codebook_embeddings
            };
            &&& n == 0 ==> (r matches Err(DecodeError::NoCodebooks))
            &&& n > 0 ==> r == Ok::<CodecLayout, DecodeError>(
                CodecLayout { batched, num_quantizers: nq, seq_len: len, num_codebooks: n },
            )
        },
{
    let n_dims = dims.len();
    if n_dims != 2 && n_dims != 3 {
        let mut d: Vec<usize> = Vec::new();
        let mut i: usize = 0;
        while i < dims.len()
            invariant
                i <= dims@.len(),
                d@ == dims@.take(i as int),
            decreases dims@.len() - i,
        {
            d.push(dims[i]);
            assert(dims@.take(i + 1) =~= dims@.take(i as int).push(dims@[i as int]));
            i += 1;
        }
        assert(dims@.take(i as int) =~= dims@);
        return Err(DecodeError::UnexpectedShape(d));
    }
    let batched = n_dims == 3;
    let (nq, len) = if batched {
        (dims[1], dims[2])
    } else {
        (dims[0], dims[1])
    };
    let n = if nq <= num_codebook_embeddings {
        nq
    } else {
        num_codebook_embeddings
    };
    if n == 0 {
        return Err(DecodeError::NoCodebooks);
    }
    Ok(CodecLayout { batched, num_quantizers: nq, seq_len: len, num_codebooks: n })
}

/// The left padding of a causal convolution: its dilated kernel span less
/// its stride.
pub fn causal_conv_padding(kernel_size: usize, stride: usize, dilation: usize) -> (r: usize)
    requires
        kernel_size >= 1,
        (kernel_size - 1) * dilation + 1 <= usize::MAX,
        (kernel_size - 1) * dilation + 1 >= stride,
    ensures
        r == (kernel_size - 1) * dilation + 1 - stride,
{
    let span = (kernel_size - 1) * dilation + 1;
    span - stride
}

/// One upsampling stage of the decoder.
#[derive(Clone, Copy, Debug, PartialEq, Eq, Structural)]
pub struct DecoderBlockPlan {
    pub in_dim: usize,
    pub out_dim: usize,
    pub upsample_rate: usize,
}

/// The upsampling stages of the decoder, from 1536 channels down to 96 with
/// rates 8, 5, 4 and 3.
pub open spec fn decoder_block_plan_of() -> Seq<DecoderBlockPlan> {
    seq![
        DecoderBlockPlan { in_dim: 1536, out_dim: 768, upsample_rate: 8 },
        DecoderBlockPlan { in_dim: 768, out_dim: 384, upsample_rate: 5 },
        DecoderBlockPlan { in_dim: 384, out_dim: 192, upsample_rate: 4 },
        DecoderBlockPlan { in_dim: 192, out_dim: 96, upsample_rate: 3 },
    ]
}

/// The upsampling stages of the decoder (see `decoder_block_plan_of`).
pub fn decoder_block_plan() -> (r: Vec<DecoderBlockPlan>)
    ensures
        r@ == decoder_block_plan_of(),
{
    let dims: [usize; 5] = [1536, 768, 384, 192, 96];
    let rates: [usize; 4] = [8, 5, 4, 3];
    let mut r: Vec<DecoderBlockPlan> = Vec::new();
    let mut i: usize = 0;
    while i < 4
        invariant
            i <= 4,
            dims@ == seq![1536usize, 768, 384, 192, 96],
            rates@ == seq![8usize, 5, 4, 3],
            r@ == decoder_block_plan_of().take(i as int),
        decreases 4 - i,
    {
        r.push(DecoderBlockPlan { in_dim: dims[i], out_dim: dims[i + 1], upsample_rate: rates[i] });
        assert(decoder_block_plan_of().take(i + 1) =~= decoder_block_plan_of().take(i as int).push(
            decoder_block_plan_of()[i as int],
        ));
        i += 1;
    }
    assert(decoder_block_plan_of().take(4) =~= decoder_block_plan_of());
    r
}

/// Each stage hands on the channels the next one takes, and the stages
/// together upsample by 480.
pub proof fn law_decoder_stages_chain()
    ensures
        forall|i: int|
            0 <= i < decoder_block_plan_of().len() - 1 ==> #[trigger] decoder_block_plan_of()[i].out_dim
                == decoder_block_plan_of()[i + 1].in_dim,
        decoder_block_plan_of()[0].upsample_rate * decoder_block_plan_of()[1].upsample_rate
            * decoder_block_plan_of()[2].upsample_rate * decoder_block_plan_of()[3].upsample_rate
            == 480,
{
    let p = decoder_block_plan_of();
    assert(p[0].upsample_rate == 8 && p[1].upsample_rate == 5 && p[2].upsample_rate == 4
        && p[3].upsample_rate == 3);
}

/// A part of the speech decoder whose weights are loaded.
#[derive(Clone, Copy, Debug, PartialEq, Eq, Structural)]
pub enum DecoderPart {
    /// One of the `NUM_CODEBOOKS` codebooks of the residual quantizer.
    Codebook,
    /// The output projection of the residual quantizer.
    OutputProjection,
    /// The convolution before the pre-transformer.
    PreConv,
    PreTransformer,
    /// The convolution that opens the upsampling stages.
    InitialConv,
    /// One of the upsampling stages of `decoder_block_plan`.
    DecoderBlock,
    /// The activation after the last stage.
    FinalActivation,
    /// The convolution that gives the waveform.
    FinalConv,
    /// The convolution of an extra upsample stage.
    UpsampleConv,
    /// The ConvNeXt block of an extra upsample stage.
    UpsampleConvNeXt,
}

/// Whether loading fails when the part's weights cannot be read: the
/// codebooks, the pre-transformer and the upsampling stages are required;
/// every other part is left out of the decoder when it cannot be read.
pub open spec fn part_required_of(p: DecoderPart) -> bool {
    p == DecoderPart::Codebook || p == DecoderPart::PreTransformer || p == DecoderPart::DecoderBlock
}

/// Whether loading fails when the part's weights cannot be read (see
/// `part_required_of`).
pub fn part_required(p: DecoderPart) -> (r: bool)
    ensures
        r == part_required_of(p),
{
    match p {
        DecoderPart::Codebook | DecoderPart::PreTransformer | DecoderPart::DecoderBlock => true,
        _ => false,
    }
}

/// The indices, in order, among the first `n` extra upsample stages, of
/// those whose convolution and ConvNeXt block were both loaded.
pub open spec fn kept_stages(conv: Seq<bool>, block: Seq<bool>, n: nat) -> Seq<usize>
    decreases n,
{
    if n == 0 {
        seq![]
    } else {
        let before = kept_stages(conv, block, (n - 1) as nat);
        if conv[n - 1] && block[n - 1] {
            before.push((n - 1) as usize)
        } else {
            before
        }
    }
}

/// The extra upsample stages that are kept with the loaded decoder (its
/// decoding does not run them): those whose convolution
/// (`conv_loaded`) and ConvNeXt block (`block_loaded`) were both loaded, in
/// order (see `kept_stages`).
pub fn kept_upsample_stages(conv_loaded: &[bool], block_loaded: &[bool]) -> (r: Vec<usize>)
    requires
        conv_loaded@.len() == block_loaded@.len(),
    ensures
        r@ == kept_stages(conv_loaded@, block_loaded@, conv_loaded@.len()),
{
    let mut r: Vec<usize> = Vec::new();
    let mut i: usize = 0;
    while i < conv_loaded.len()
        invariant
            i <= conv_loaded@.len(),
            conv_loaded@.len() == block_loaded@.len(),
            r@ == kept_stages(conv_loaded@, block_loaded@, i as nat),
        decreases conv_loaded@.len() - i,
    {
        if conv_loaded[i] && block_loaded[i] {
            r.push(i);
        }
        i += 1;
    }
    r
}

} // verus!
