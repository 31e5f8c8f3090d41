//! The calls into the text tokenizers of the models.

use vstd::prelude::*;
use tokenizers::Tokenizer;

verus! {

#[verifier::external_type_specification]
#[verifier::external_body]
pub struct ExTokenizer(Tokenizer);

/// What a tokenizer's vocabulary holds: each token, by its text, with its
/// id, the added tokens included (as `Tokenizer::get_vocab(true)` lists it).
pub uninterp spec fn vocabulary(tokenizer: Tokenizer) -> Map<Seq<char>, u32>;

/// The id of `token` in the vocabulary of `tokenizer`, if it holds it.
pub open spec fn vocab_lookup(tokenizer: Tokenizer, token: Seq<char>) -> Option<u32> {
    if vocabulary(tokenizer).contains_key(token) {
        Some(vocabulary(tokenizer)[token])
    } else {
        None
    }
}

/// What `Tokenizer::decode` gives for `ids` with `skip_special_tokens`: the
/// decoded text, or the text of the error. It is a function of the tokenizer
/// and the ids alone (the vocabulary and the decoder pipeline, no state and
/// no randomness).
pub uninterp spec fn decoded(tokenizer: Tokenizer, ids: Seq<u32>, skip_special_tokens: bool) -> Result<
    Seq<char>,
    Seq<char>,
>;

/// tokenizers `Tokenizer::encode` (through `TokenizerImpl`), then
/// `Encoding::get_ids`: the ids of `text`, with the special tokens of the
/// post-processor when `add_special_tokens` is set; on failure, the error's
/// text. Nothing is stated of the ids: they come from the loaded vocabulary
/// and rules, which are not modelled here.
#[verifier::external_body]
pub(crate) fn encode_ids(tokenizer: &Tokenizer, text: &str, add_special_tokens: bool) -> (r: Result<
    Vec<u32>,
    String,
>) {
    match tokenizer.encode(text, add_special_tokens) {
        Ok(encoding) => Ok(encoding.get_ids().to_vec()),
        Err(e) => Err(e.to_string()),
    }
}

/// tokenizers `Tokenizer::decode` (through `TokenizerImpl`): the text of
/// `ids`, leaving out special tokens when `skip_special_tokens` is set; on
/// failure, the error's text. Claimed: the outcome, taken by views, is
/// `decoded` of the tokenizer, the ids and the flag.
#[verifier::external_body]
pub(crate) fn decode_ids(tokenizer: &Tokenizer, ids: &[u32], skip_special_tokens: bool) -> (r:
    Result<String, String>)
    ensures
        decoded(*tokenizer, ids@, skip_special_tokens) == match r {
            Ok(t) => Ok::<Seq<char>, Seq<char>>(t@),
            Err(m) => Err::<Seq<char>, Seq<char>>(m@),
        },
{
    match tokenizer.decode(ids, skip_special_tokens) {
        Ok(text) => Ok(text),
        Err(e) => Err(e.to_string()),
    }
}

} // verus!
