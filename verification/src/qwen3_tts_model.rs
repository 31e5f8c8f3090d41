//! Plain settings and bookkeeping of the talker model and its code
//! predictor.

use vstd::prelude::*;

verus! {

/// Multi-axis rotary embedding settings of an attention layer.
#[derive(Debug)]
pub struct RopeScaling {
    pub mrope_section: Vec<usize>,
    pub interleaved: bool,
}

/// The codec prefix that opens every talker input: think, think-begin,
/// language, think-end, speaker, pad, begin.
pub open spec fn codec_prefix_seq(
    language_id: u32,
    speaker_id: u32,
    codec_think_id: u32,
    codec_think_bos_id: u32,
    codec_think_eos_id: u32,
    codec_pad_id: u32,
    codec_bos_id: u32,
) -> Seq<u32> {
    seq![
        codec_think_id,
        codec_think_bos_id,
        language_id,
        codec_think_eos_id,
        speaker_id,
        codec_pad_id,
        codec_bos_id,
    ]
}

/// The codec prefix for a language and a speaker (see `codec_prefix_seq`).
pub fn codec_prefix_ids(
    language_id: u32,
    speaker_id: u32,
    codec_think_id: u32,
    codec_think_bos_id: u32,
    codec_think_eos_id: u32,
    codec_pad_id: u32,
    codec_bos_id: u32,
) -> (r: Vec<u32>)
    ensures
        r@ == codec_prefix_seq(
            language_id,
            speaker_id,
            codec_think_id,
            codec_think_bos_id,
            codec_think_eos_id,
            codec_pad_id,
            codec_bos_id,
        ),
{
    let mut r: Vec<u32> = Vec::new();
    r.push(codec_think_id);
    r.push(codec_think_bos_id);
    r.push(language_id);
    r.push(codec_think_eos_id);
    r.push(speaker_id);
    r.push(codec_pad_id);
    r.push(codec_bos_id);
    assert(r@ =~= codec_prefix_seq(
        language_id,
        speaker_id,
        codec_think_id,
        codec_think_bos_id,
        codec_think_eos_id,
        codec_pad_id,
        codec_bos_id,
    ));
    r
}

/// How many times each key/value head is repeated so that grouped-query
/// attention has as many key/value heads as query heads.
pub fn kv_repeat(num_heads: usize, num_kv_heads: usize) -> (r: usize)
    requires
        num_kv_heads > 0,
    ensures
        r == num_heads / num_kv_heads,
{
    num_heads / num_kv_heads
}

/// How many codec embeddings of the code predictor are used when `loaded`
/// tells, in order, which of them could be read: those before the first one
/// that could not.
pub open spec fn leading_loaded(loaded: Seq<bool>) -> nat
    decreases loaded.len(),
{
    if loaded.len() == 0 || !loaded[0] {
        0
    } else {
        1 + leading_loaded(loaded.drop_first())
    }
}

/// How many codec embeddings of the code predictor are used (see
/// `leading_loaded`): every one before the first that could not be read.
pub fn codec_embeddings_used(loaded: &[bool]) -> (r: usize)
    ensures
        r == leading_loaded(loaded@),
        r <= loaded@.len(),
        forall|k: int| 0 <= k < r ==> #[trigger] loaded@[k],
        r < loaded@.len() ==> !loaded@[r as int],
{
    let mut i: usize = 0;
    assert(loaded@.skip(0) =~= loaded@);
    while i < loaded.len() && loaded[i]
        invariant
            i <= loaded@.len(),
            forall|k: int| 0 <= k < i ==> #[trigger] loaded@[k],
            leading_loaded(loaded@) == i + leading_loaded(loaded@.skip(i as int)),
        decreases loaded@.len() - i,
    {
        assert(loaded@.skip(i as int).drop_first() =~= loaded@.skip(i + 1));
        i += 1;
    }
    i
}

} // verus!
