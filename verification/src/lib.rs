pub mod batch;
pub mod config;
pub mod generator;
pub mod options;
pub mod results;
pub mod tokenize;
pub mod translator;

use vstd::prelude::*;

verus! {

/// Errors surfaced by the orchestration layer.
///
/// Every failure of a batch operation is reported to the immediate caller;
/// none is swallowed or retried inside this layer.
#[derive(Debug)]
pub enum Error {
    /// The model handle could not be constructed (bad model path,
    /// missing or corrupt tokenizer file, unavailable device, or a
    /// rejected native configuration).
    Construction(String),
    /// The tokenizer rejected an input during encoding.
    Encode(String),
    /// The tokenizer failed to decode a token sequence.
    Decode(String),
    /// The loaded tokenizer has no decoder configured.
    DecoderUnavailable,
    /// Caller-supplied batch shapes are inconsistent: the number of
    /// target prefixes does not match the number of sources.
    Shape { sources: usize, prefixes: usize },
    /// Opaque failure reported by the inference engine.
    Engine(String),
    /// The engine returned zero hypotheses for an input during
    /// translation, where at least one is contractually expected.
    NoResult { index: usize },
}

} // verus!
