//! The translation pipeline around one tokenizer.
//!
//! A batch translation is one synchronous exchange with the engine: the
//! sources are encoded and assembled into a single request here, the
//! engine answers with one hypothesis list per input, and the answer is
//! reconstructed back to text here. The engine call itself stands between
//! `prepare_translate_batch` and `finish_translate_batch` and is the
//! caller's single request/response step; it either returns the whole
//! batch or fails atomically.

use vstd::prelude::*;

use crate::Error;
use crate::batch::{TranslationRequest, build_translation_request};
use crate::options::{TranslationOptions, translation_options_correspond};
use crate::results::{TranslationResult, reconstruct_translation, spec_first_score};
use crate::tokenize::encode_batch;

verus! {

/// A text translator bound to one tokenizer.
pub struct Translator {
    tokenizer: tokenizers::Tokenizer,
}

impl Translator {
    /// Binds the translator to an already-loaded tokenizer.
    pub fn with_tokenizer(tokenizer: tokenizers::Tokenizer) -> Translator {
        Translator { tokenizer }
    }

    /// Encodes the sources (with special tokens, as an encoder expects)
    /// and assembles the single batched engine request. A prefix/source
    /// count mismatch is a caller contract violation: it fails with a
    /// shape error before any encoding or engine work, and only such a
    /// mismatch does — shapes are never silently truncated or padded.
    pub fn prepare_translate_batch(
        &self,
        sources: &Vec<String>,
        target_prefixes: Vec<Vec<String>>,
        options: TranslationOptions,
    ) -> (r: Result<TranslationRequest, Error>)
        ensures
            (r matches Err(e) && e is Shape) <==> sources@.len() != target_prefixes@.len(),
            r matches Err(e) ==> e is Shape || e is Encode,
            r matches Err(e) ==> (e matches Error::Shape { sources: s, prefixes: p } ==> s
                == sources@.len() && p == target_prefixes@.len()),
            r matches Ok(req) ==> {
                &&& req.source@.len() == sources@.len()
                &&& req.target_prefix@.len() == target_prefixes@.len()
                &&& forall|i: int|
                    0 <= i < target_prefixes@.len() ==> #[trigger] req.target_prefix@[i].v
                        == target_prefixes@[i]
                &&& translation_options_correspond(options, req.options)
            },
    {
        if sources.len() != target_prefixes.len() {
            return Err(Error::Shape { sources: sources.len(), prefixes: target_prefixes.len() });
        }
        let tokens = match encode_batch(&self.tokenizer, sources, true) {
            Ok(tokens) => tokens,
            Err(e) => {
                return Err(e);
            },
        };
        match build_translation_request(tokens, target_prefixes, options.to_engine()) {
            Ok(request) => Ok(request),
            Err(e) => Err(e),
        }
    }

    /// Reconstructs the engine's answer: one `(text, best score)` pair per
    /// input, in input order. The best hypothesis's token sequence loses
    /// exactly the matching target prefix's length before decoding; an
    /// input with no hypothesis fails the whole call, with no partial list
    /// returned.
    pub fn finish_translate_batch(
        &self,
        results: Vec<TranslationResult>,
        target_prefixes: &Vec<Vec<String>>,
    ) -> (r: Result<Vec<(String, Option<u32>)>, Error>)
        requires
            results@.len() == target_prefixes@.len(),
        ensures
            r matches Ok(out) ==> {
                &&& out@.len() == results@.len()
                &&& forall|i: int|
                    0 <= i < results@.len() ==> (#[trigger] results@[i]).hypotheses@.len() > 0
                &&& forall|i: int|
                    0 <= i < results@.len() ==> (#[trigger] out@[i]).1 == spec_first_score(
                        results@[i].scores@,
                    )
            },
            (exists|i: int|
                0 <= i < results@.len() && (#[trigger] results@[i]).hypotheses@.len() == 0)
                ==> r is Err,
            r matches Err(e) ==> e is Decode || e is DecoderUnavailable || e is NoResult,
            r matches Err(e) ==> (e matches Error::NoResult { index } ==> {
                &&& index < results@.len()
                &&& results@[index as int].hypotheses@.len() == 0
                &&& forall|j: int|
                    0 <= j < index ==> (#[trigger] results@[j]).hypotheses@.len() > 0
            }),
    {
        reconstruct_translation(&self.tokenizer, results, target_prefixes)
    }
}

} // verus!
