//! Public per-call option structs and their translation into the
//! engine-native option shapes.
//!
//! Translation and generation keep distinct option shapes: translation
//! carries only the suppressed-sequence list, while generation adds
//! static-prompt caching and alternative-expansion controls. The semantic
//! divergence is real, so the two are not merged.
//!
//! Rate-valued options (patience, penalties, sampling controls) and scores
//! are carried as raw single-precision bit patterns (`u32`). This layer
//! never interprets them arithmetically: it hands each pattern to the
//! engine, and hands each score back to the caller, bit for bit.

use vstd::prelude::*;

use crate::batch::{VecStr, vec_ffi_vecstr};
use crate::config::{BatchType, EngineBatchType, engine_batch_type_of, batch_type_to_engine};

verus! {

/// Bit pattern of the rate value one, the neutral setting for the
/// rate-valued options.
pub const RATE_ONE_BITS: u32 = 0x3f80_0000;

/// Bit pattern of the rate value zero.
pub const RATE_ZERO_BITS: u32 = 0;

/// Options of a translation call: an immutable value struct passed fresh on
/// every call.
pub struct TranslationOptions {
    /// Token sequences whose generation is blocked.
    pub suppress_sequences: Vec<Vec<String>>,
}

/// Engine-native translation options.
pub struct EngineTranslationOptions {
    pub suppress_sequences: Vec<VecStr>,
}

/// Options of a generation call: an immutable value struct passed fresh on
/// every call.
pub struct GenerationOptions {
    /// Beam size to use for beam search (one runs greedy search).
    pub beam_size: usize,
    /// Beam search patience factor: decoding continues until
    /// `beam_size * patience` hypotheses are finished. Rate bit pattern.
    pub patience: u32,
    /// Exponential penalty applied to the hypothesis length during beam
    /// search. Rate bit pattern.
    pub length_penalty: u32,
    /// Multiplicative penalty applied to previously generated tokens
    /// (above one penalizes). Rate bit pattern.
    pub repetition_penalty: u32,
    /// Prevents repetitions of n-grams with this size (zero disables).
    pub no_repeat_ngram_size: usize,
    /// Disables the generation of the unknown token.
    pub disable_unk: bool,
    /// Token sequences whose generation is blocked.
    pub suppress_sequences: Vec<Vec<String>>,
    /// Includes the end token in the result.
    pub return_end_token: bool,
    /// Upper bound on the generated sequence length.
    pub max_length: usize,
    /// Lower bound on the generated sequence length.
    pub min_length: usize,
    /// Randomly sample from the top K candidates (zero samples from the
    /// full output distribution).
    pub sampling_topk: usize,
    /// Keeps the most probable tokens whose cumulative probability exceeds
    /// this value. Rate bit pattern.
    pub sampling_topp: u32,
    /// Sampling temperature; higher values increase randomness. Rate bit
    /// pattern.
    pub sampling_temperature: u32,
    /// Number of ranked hypotheses to include in the result.
    pub num_hypotheses: usize,
    /// Whether to populate hypothesis scores (omitted otherwise, not
    /// zero-filled).
    pub return_scores: bool,
    /// Returns alternatives at the first unconstrained decoding position.
    pub return_alternatives: bool,
    /// Minimum probability to expand an alternative. Rate bit pattern.
    pub min_alternative_expansion_prob: u32,
    /// Prompt prefix shared across calls on the same model handle.
    pub static_prompt: Vec<String>,
    /// Caches the model state after the static prompt, keyed by exact
    /// prompt equality, for reuse by later calls on the same handle.
    pub cache_static_prompt: bool,
    /// Whether returned token sequences include the prompt tokens or only
    /// newly generated ones.
    pub include_prompt_in_result: bool,
    /// Maximum batch size; the engine itself sorts and chunks inputs above
    /// this bound to minimize padding.
    pub max_batch_size: usize,
    /// Whether `max_batch_size` counts examples or tokens.
    pub batch_type: BatchType,
}

/// Engine-native generation options.
pub struct EngineGenerationOptions {
    pub beam_size: usize,
    pub patience: u32,
    pub length_penalty: u32,
    pub repetition_penalty: u32,
    pub no_repeat_ngram_size: usize,
    pub disable_unk: bool,
    pub suppress_sequences: Vec<VecStr>,
    pub return_end_token: bool,
    pub max_length: usize,
    pub min_length: usize,
    pub sampling_topk: usize,
    pub sampling_topp: u32,
    pub sampling_temperature: u32,
    pub num_hypotheses: usize,
    pub return_scores: bool,
    pub return_alternatives: bool,
    pub min_alternative_expansion_prob: u32,
    pub static_prompt: Vec<String>,
    pub cache_static_prompt: bool,
    pub include_prompt_in_result: bool,
    pub max_batch_size: usize,
    pub batch_type: EngineBatchType,
}

/// The engine-native translation options carry exactly the public ones:
/// the suppressed sequences row for row.
pub open spec fn translation_options_correspond(
    o: TranslationOptions,
    e: EngineTranslationOptions,
) -> bool {
    &&& e.suppress_sequences@.len() == o.suppress_sequences@.len()
    &&& forall|i: int|
        0 <= i < o.suppress_sequences@.len() ==> #[trigger] e.suppress_sequences@[i].v
            == o.suppress_sequences@[i]
}

/// The engine-native generation options carry exactly the public ones,
/// field for field; in particular the hypothesis count and the scoring
/// flag are passed through unmodified.
pub open spec fn generation_options_correspond(
    o: GenerationOptions,
    e: EngineGenerationOptions,
) -> bool {
    &&& e.beam_size == o.beam_size
    &&& e.patience == o.patience
    &&& e.length_penalty == o.length_penalty
    &&& e.repetition_penalty == o.repetition_penalty
    &&& e.no_repeat_ngram_size == o.no_repeat_ngram_size
    &&& e.disable_unk == o.disable_unk
    &&& e.suppress_sequences@.len() == o.suppress_sequences@.len()
    &&& forall|i: int|
        0 <= i < o.suppress_sequences@.len() ==> #[trigger] e.suppress_sequences@[i].v
            == o.suppress_sequences@[i]
    &&& e.return_end_token == o.return_end_token
    &&& e.max_length == o.max_length
    &&& e.min_length == o.min_length
    &&& e.sampling_topk == o.sampling_topk
    &&& e.sampling_topp == o.sampling_topp
    &&& e.sampling_temperature == o.sampling_temperature
    &&& e.num_hypotheses == o.num_hypotheses
    &&& e.return_scores == o.return_scores
    &&& e.return_alternatives == o.return_alternatives
    &&& e.min_alternative_expansion_prob == o.min_alternative_expansion_prob
    &&& e.static_prompt == o.static_prompt
    &&& e.cache_static_prompt == o.cache_static_prompt
    &&& e.include_prompt_in_result == o.include_prompt_in_result
    &&& e.max_batch_size == o.max_batch_size
    &&& e.batch_type == engine_batch_type_of(o.batch_type)
}

impl TranslationOptions {
    /// Translates the options into the engine-native shape, carrying the
    /// suppressed sequences over row for row.
    pub fn to_engine(self) -> (r: EngineTranslationOptions)
        ensures
            translation_options_correspond(self, r),
    {
        EngineTranslationOptions { suppress_sequences: vec_ffi_vecstr(self.suppress_sequences) }
    }
}

impl GenerationOptions {
    /// Translates the options into the engine-native shape field for field;
    /// in particular `num_hypotheses` and `return_scores` are passed through
    /// unmodified — this layer neither clamps the hypothesis count nor
    /// interprets the scoring flag.
    pub fn to_engine(self) -> (r: EngineGenerationOptions)
        ensures
            generation_options_correspond(self, r),
    {
        EngineGenerationOptions {
            beam_size: self.beam_size,
            patience: self.patience,
            length_penalty: self.length_penalty,
            repetition_penalty: self.repetition_penalty,
            no_repeat_ngram_size: self.no_repeat_ngram_size,
            disable_unk: self.disable_unk,
            suppress_sequences: vec_ffi_vecstr(self.suppress_sequences),
            return_end_token: self.return_end_token,
            max_length: self.max_length,
            min_length: self.min_length,
            sampling_topk: self.sampling_topk,
            sampling_topp: self.sampling_topp,
            sampling_temperature: self.sampling_temperature,
            num_hypotheses: self.num_hypotheses,
            return_scores: self.return_scores,
            return_alternatives: self.return_alternatives,
            min_alternative_expansion_prob: self.min_alternative_expansion_prob,
            static_prompt: self.static_prompt,
            cache_static_prompt: self.cache_static_prompt,
            include_prompt_in_result: self.include_prompt_in_result,
            max_batch_size: self.max_batch_size,
            batch_type: batch_type_to_engine(self.batch_type),
        }
    }
}

impl Default for GenerationOptions {
    /// The default decoding behaviour: greedy search, neutral penalties,
    /// one hypothesis, no scores, full prompt kept in the result.
    fn default() -> (r: Self)
        ensures
            r.beam_size == 1,
            r.patience == RATE_ONE_BITS,
            r.length_penalty == RATE_ONE_BITS,
            r.repetition_penalty == RATE_ONE_BITS,
            r.no_repeat_ngram_size == 0,
            !r.disable_unk,
            r.suppress_sequences@.len() == 0,
            !r.return_end_token,
            r.max_length == 512,
            r.min_length == 0,
            r.sampling_topk == 1,
            r.sampling_topp == RATE_ONE_BITS,
            r.sampling_temperature == RATE_ONE_BITS,
            r.num_hypotheses == 1,
            !r.return_scores,
            !r.return_alternatives,
            r.min_alternative_expansion_prob == RATE_ZERO_BITS,
            r.static_prompt@.len() == 0,
            r.cache_static_prompt,
            r.include_prompt_in_result,
            r.max_batch_size == 0,
            r.batch_type is Examples,
    {
        GenerationOptions {
            beam_size: 1,
            patience: RATE_ONE_BITS,
            length_penalty: RATE_ONE_BITS,
            repetition_penalty: RATE_ONE_BITS,
            no_repeat_ngram_size: 0,
            disable_unk: false,
            suppress_sequences: Vec::new(),
            return_end_token: false,
            max_length: 512,
            min_length: 0,
            sampling_topk: 1,
            sampling_topp: RATE_ONE_BITS,
            sampling_temperature: RATE_ONE_BITS,
            num_hypotheses: 1,
            return_scores: false,
            return_alternatives: false,
            min_alternative_expansion_prob: RATE_ZERO_BITS,
            static_prompt: Vec::new(),
            cache_static_prompt: true,
            include_prompt_in_result: true,
            max_batch_size: 0,
            batch_type: BatchType::Examples,
        }
    }
}

} // verus!
