//! The generation pipeline around one tokenizer.
//!
//! A batch generation is one synchronous exchange with the engine: the
//! prompts are encoded and assembled into a single request here, the
//! engine answers with one ranked hypothesis list per prompt, and the
//! answer is reconstructed back to text here. The engine call itself
//! stands between `prepare_generate_batch` and `finish_generate_batch`.

use vstd::prelude::*;

use crate::Error;
use crate::batch::{GenerationRequest, build_generation_request};
use crate::options::{GenerationOptions, generation_options_correspond};
use crate::results::{GenerationResult, reconstruct_generation};
use crate::tokenize::encode_batch;

verus! {

/// A text generator bound to one tokenizer.
pub struct Generator {
    tokenizer: tokenizers::Tokenizer,
}

impl Generator {
    /// Binds the generator to an already-loaded tokenizer.
    pub fn with_tokenizer(tokenizer: tokenizers::Tokenizer) -> Generator {
        Generator { tokenizer }
    }

    /// Encodes the prompts (without special tokens: the caller injects any
    /// leading start token into the prompt itself) and assembles the
    /// single batched engine request. The options travel field for field:
    /// in particular the hypothesis count is passed through unmodified —
    /// this layer does not clamp what the engine returns.
    pub fn prepare_generate_batch(&self, prompts: &Vec<String>, options: GenerationOptions) -> (r:
        Result<GenerationRequest, Error>)
        ensures
            r matches Err(e) ==> e is Encode,
            r matches Ok(req) ==> {
                &&& req.start_tokens@.len() == prompts@.len()
                &&& generation_options_correspond(options, req.options)
            },
    {
        let tokens = match encode_batch(&self.tokenizer, prompts, false) {
            Ok(tokens) => tokens,
            Err(e) => {
                return Err(e);
            },
        };
        Ok(build_generation_request(tokens, options.to_engine()))
    }

    /// Reconstructs the engine's answer: one `(texts, scores)` pair per
    /// prompt, in input order. Every hypothesis the engine returned is
    /// decoded and surfaced — however many that is — and the score list is
    /// passed through verbatim, so when scores were not requested it stays
    /// empty rather than zero-filled.
    pub fn finish_generate_batch(&self, results: Vec<GenerationResult>) -> (r: Result<
        Vec<(Vec<String>, Vec<u32>)>,
        Error,
    >)
        ensures
            r matches Ok(out) ==> {
                &&& out@.len() == results@.len()
                &&& forall|i: int|
                    0 <= i < results@.len() ==> (#[trigger] out@[i]).0@.len()
                        == results@[i].sequences@.len()
                &&& forall|i: int|
                    0 <= i < results@.len() ==> (#[trigger] out@[i]).1@ == results@[i].scores@
                &&& forall|i: int|
                    0 <= i < results@.len() && results@[i].scores@.len() == 0 ==> (
                    #[trigger] out@[i]).1@.len() == 0
            },
            r matches Err(e) ==> e is Decode || e is DecoderUnavailable,
    {
        reconstruct_generation(&self.tokenizer, results)
    }
}

} // verus!
