//! Batch request builder: assembles per-example token sequences (plus, for
//! translation, index-aligned per-example target prefixes) into the shape
//! the engine expects.
//!
//! The builder only validates shape and forwards; splitting and sorting the
//! batch by size is the engine's own responsibility.

use vstd::prelude::*;

use crate::Error;
use crate::options::{EngineGenerationOptions, EngineTranslationOptions};

verus! {

/// One row of an engine payload: the token strings of a single example.
pub struct VecStr {
    pub v: Vec<String>,
}

/// Repacks a batch of token sequences into the per-row shape the engine
/// takes, moving every row over unchanged.
pub fn vec_ffi_vecstr(src: Vec<Vec<String>>) -> (r: Vec<VecStr>)
    ensures
        r@.len() == src@.len(),
        forall|i: int| 0 <= i < src@.len() ==> #[trigger] r@[i].v == src@[i],
{
    let ghost orig = src@;
    let mut rest = src;
    let mut out: Vec<VecStr> = Vec::new();
    while rest.len() > 0
        invariant
            out@.len() + rest@.len() == orig.len(),
            rest@ == orig.subrange(out@.len() as int, orig.len() as int),
            forall|i: int| 0 <= i < out@.len() ==> #[trigger] out@[i].v == orig[i],
        decreases rest@.len(),
    {
        let row = rest.remove(0);
        out.push(VecStr { v: row });
        proof {
            assert(rest@ =~= orig.subrange(out@.len() as int, orig.len() as int));
        }
    }
    out
}

/// The single batched payload of a translation call.
pub struct TranslationRequest {
    /// Source token sequences, one row per input example.
    pub source: Vec<VecStr>,
    /// Target-prefix token sequences, index-aligned with `source`; a row may
    /// be empty when no prefix constrains that example.
    pub target_prefix: Vec<VecStr>,
    /// Engine-native translation options.
    pub options: EngineTranslationOptions,
}

/// The single batched payload of a generation call.
pub struct GenerationRequest {
    /// Start-token sequences, one row per prompt.
    pub start_tokens: Vec<VecStr>,
    /// Engine-native generation options.
    pub options: EngineGenerationOptions,
}

/// Builds the translation payload, or fails with a shape error — before any
/// engine work — when the number of target prefixes does not match the
/// number of sources. Mismatched shapes are never truncated or padded.
pub fn build_translation_request(
    sources: Vec<Vec<String>>,
    target_prefixes: Vec<Vec<String>>,
    options: EngineTranslationOptions,
) -> (r: Result<TranslationRequest, Error>)
    ensures
        r is Ok <==> sources@.len() == target_prefixes@.len(),
        r matches Ok(req) ==> {
            &&& req.source@.len() == sources@.len()
            &&& forall|i: int| 0 <= i < sources@.len() ==> #[trigger] req.source@[i].v == sources@[i]
            &&& req.target_prefix@.len() == target_prefixes@.len()
            &&& forall|i: int|
                0 <= i < target_prefixes@.len() ==> #[trigger] req.target_prefix@[i].v
                    == target_prefixes@[i]
            &&& req.options == options
        },
        r matches Err(e) ==> e matches Error::Shape { sources: s, prefixes: p } && s
            == sources@.len() && p == target_prefixes@.len(),
{
    if sources.len() != target_prefixes.len() {
        return Err(Error::Shape { sources: sources.len(), prefixes: target_prefixes.len() });
    }
    Ok(
        TranslationRequest {
            source: vec_ffi_vecstr(sources),
            target_prefix: vec_ffi_vecstr(target_prefixes),
            options,
        },
    )
}

/// Builds the generation payload; generation has no cross-input shape
/// constraint, so no fallible path exists here.
pub fn build_generation_request(
    start_tokens: Vec<Vec<String>>,
    options: EngineGenerationOptions,
) -> (r: GenerationRequest)
    ensures
        r.start_tokens@.len() == start_tokens@.len(),
        forall|i: int|
            0 <= i < start_tokens@.len() ==> #[trigger] r.start_tokens@[i].v == start_tokens@[i],
        r.options == options,
{
    GenerationRequest { start_tokens: vec_ffi_vecstr(start_tokens), options }
}

} // verus!
