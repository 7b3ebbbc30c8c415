//! Result reconstructor: maps the engine's per-input hypothesis lists back
//! to text, stripping target-prefix tokens for translation and pairing
//! every surfaced hypothesis with its score for generation.
//!
//! Scores reach this layer as raw single-precision bit patterns and are
//! passed through unmodified; an absent score list stays absent, never
//! zero-filled.

use vstd::prelude::*;

use crate::Error;
use crate::tokenize::{decoder_decode, tokenizer_decoder};

verus! {

/// The engine's answer for one translation input: an ordered list of
/// hypotheses, best first, each a token-string sequence with the parallel
/// token-id sequence, and one score per hypothesis when scoring was
/// requested (empty otherwise).
pub struct TranslationResult {
    pub hypotheses: Vec<Vec<String>>,
    pub hypotheses_ids: Vec<Vec<usize>>,
    pub scores: Vec<u32>,
}

/// The engine's answer for one generation input, shaped like a translation
/// answer: ranked token sequences, their token-id sequences, and one score
/// per sequence when scoring was requested (empty otherwise).
pub struct GenerationResult {
    /// Generated sequences of tokens, best first.
    pub sequences: Vec<Vec<String>>,
    /// Generated sequences of token IDs, parallel to `sequences`.
    pub sequences_ids: Vec<Vec<usize>>,
    /// Score of each sequence (empty if scores were not requested).
    pub scores: Vec<u32>,
}

/// The score of the best hypothesis, when the engine reported scores.
pub open spec fn spec_first_score(scores: Seq<u32>) -> Option<u32> {
    if scores.len() > 0 {
        Some(scores[0])
    } else {
        None
    }
}

impl TranslationResult {
    /// The score of the best hypothesis, passed through unmodified, or
    /// nothing when scoring was not requested.
    pub fn score(&self) -> (r: Option<u32>)
        ensures
            r == spec_first_score(self.scores@),
    {
        if self.scores.len() > 0 {
            Some(self.scores[0])
        } else {
            None
        }
    }
}

impl GenerationResult {
    /// Returns the number of sequences.
    pub fn num_sequences(&self) -> (r: usize)
        ensures
            r == self.sequences@.len(),
    {
        self.sequences.len()
    }

    /// Returns true if this result has scores.
    pub fn has_scores(&self) -> (r: bool)
        ensures
            r == (self.scores@.len() > 0),
    {
        self.scores.len() > 0
    }
}

/// What remains of a hypothesis token sequence after the leading target
/// prefix of the given length is stripped: exactly the continuation, or
/// nothing when the sequence is no longer than the prefix.
pub open spec fn spec_stripped(tokens: Seq<String>, prefix_len: nat) -> Seq<String> {
    if prefix_len <= tokens.len() {
        tokens.subrange(prefix_len as int, tokens.len() as int)
    } else {
        Seq::<String>::empty()
    }
}

/// Drops the leading `prefix_len` tokens of a hypothesis, keeping only the
/// continuation that is to be decoded.
pub fn strip_prefix_tokens(tokens: Vec<String>, prefix_len: usize) -> (r: Vec<String>)
    ensures
        r@ == spec_stripped(tokens@, prefix_len as nat),
{
    let ghost orig = tokens@;
    let mut rest = tokens;
    let mut k: usize = 0;
    while k < prefix_len && rest.len() > 0
        invariant
            k <= prefix_len,
            k <= orig.len(),
            rest@ == orig.subrange(k as int, orig.len() as int),
        decreases prefix_len - k,
    {
        rest.remove(0);
        k = k + 1;
        proof {
            assert(rest@ =~= orig.subrange(k as int, orig.len() as int));
        }
    }
    proof {
        if k == prefix_len {
            assert(rest@ =~= spec_stripped(orig, prefix_len as nat));
        } else {
            assert(rest@.len() == 0);
            assert(rest@ =~= spec_stripped(orig, prefix_len as nat));
        }
    }
    rest
}

/// Prefix stripping is exact: when a hypothesis token sequence begins with
/// the supplied target prefix — as the engine guarantees, echoing a
/// supplied prefix verbatim at the front of any continuation — stripping
/// the prefix's length keeps exactly the continuation tokens and never a
/// prefix token.
pub proof fn lemma_prefix_stripping(prefix: Seq<String>, continuation: Seq<String>)
    ensures
        spec_stripped(prefix + continuation, prefix.len()) == continuation,
{
    assert(spec_stripped(prefix + continuation, prefix.len()) =~= continuation);
}

/// Rebuilds the caller-facing translation results: for every input, the
/// best (first) hypothesis is taken, the target prefix's length is
/// stripped from its token sequence, and the continuation is decoded; the
/// best score, when present, is passed through unmodified. An input with
/// no hypothesis at all fails the whole call.
#[verifier::loop_isolation(false)]
pub fn reconstruct_translation(
    tokenizer: &tokenizers::Tokenizer,
    results: Vec<TranslationResult>,
    target_prefixes: &Vec<Vec<String>>,
) -> (r: Result<Vec<(String, Option<u32>)>, Error>)
    requires
        results@.len() == target_prefixes@.len(),
    ensures
        r matches Ok(out) ==> {
            &&& out@.len() == results@.len()
            &&& forall|i: int|
                0 <= i < results@.len() ==> (#[trigger] results@[i]).hypotheses@.len() > 0
            &&& forall|i: int|
                0 <= i < results@.len() ==> (#[trigger] out@[i]).1 == spec_first_score(
                    results@[i].scores@,
                )
        },
        (exists|i: int|
            0 <= i < results@.len() && (#[trigger] results@[i]).hypotheses@.len() == 0) ==> r is Err,
        r matches Err(e) ==> e is Decode || e is DecoderUnavailable || e is NoResult,
        r matches Err(e) ==> (e matches Error::NoResult { index } ==> {
            &&& index < results@.len()
            &&& results@[index as int].hypotheses@.len() == 0
            &&& forall|j: int| 0 <= j < index ==> (#[trigger] results@[j]).hypotheses@.len() > 0
        }),
{
    let ghost orig = results@;
    let decoder = match tokenizer_decoder(tokenizer) {
        None => {
            return Err(Error::DecoderUnavailable);
        },
        Some(decoder) => decoder,
    };
    let mut rest = results;
    let mut out: Vec<(String, Option<u32>)> = Vec::new();
    let mut i: usize = 0;
    while i < target_prefixes.len()
        invariant
            orig.len() == target_prefixes@.len(),
            i <= orig.len(),
            out@.len() == i,
            rest@ == orig.subrange(i as int, orig.len() as int),
            forall|j: int| 0 <= j < i ==> (#[trigger] orig[j]).hypotheses@.len() > 0,
            forall|j: int|
                0 <= j < i ==> (#[trigger] out@[j]).1 == spec_first_score(orig[j].scores@),
        decreases orig.len() - i,
    {
        let mut item = rest.remove(0);
        proof {
            assert(item == orig[i as int]);
        }
        let score = item.score();
        if item.hypotheses.len() == 0 {
            return Err(Error::NoResult { index: i });
        }
        let best = item.hypotheses.remove(0);
        let continuation = strip_prefix_tokens(best, target_prefixes[i].len());
        match decoder_decode(decoder, continuation) {
            Ok(text) => out.push((text, score)),
            Err(message) => {
                return Err(Error::Decode(message));
            },
        }
        i = i + 1;
        proof {
            assert(rest@ =~= orig.subrange(i as int, orig.len() as int));
        }
    }
    Ok(out)
}

/// Rebuilds the caller-facing generation results: for every input, every
/// hypothesis the engine returned is decoded to text — this layer neither
/// clamps nor extends the engine's hypothesis list — and the score list is
/// passed through verbatim, so an input without scores keeps an empty
/// score list.
pub fn reconstruct_generation(tokenizer: &tokenizers::Tokenizer, results: Vec<GenerationResult>)
    -> (r: Result<Vec<(Vec<String>, Vec<u32>)>, Error>)
    ensures
        r matches Ok(out) ==> {
            &&& out@.len() == results@.len()
            &&& forall|i: int|
                0 <= i < results@.len() ==> (#[trigger] out@[i]).0@.len()
                    == results@[i].sequences@.len()
            &&& forall|i: int|
                0 <= i < results@.len() ==> (#[trigger] out@[i]).1@ == results@[i].scores@
            &&& forall|i: int|
                0 <= i < results@.len() && results@[i].scores@.len() == 0 ==> (
                #[trigger] out@[i]).1@.len() == 0
        },
        r matches Err(e) ==> e is Decode || e is DecoderUnavailable,
{
    let ghost orig = results@;
    let decoder = match tokenizer_decoder(tokenizer) {
        None => {
            return Err(Error::DecoderUnavailable);
        },
        Some(decoder) => decoder,
    };
    let mut rest = results;
    let mut out: Vec<(Vec<String>, Vec<u32>)> = Vec::new();
    while rest.len() > 0
        invariant
            out@.len() <= orig.len(),
            rest@ == orig.subrange(out@.len() as int, orig.len() as int),
            forall|j: int|
                0 <= j < out@.len() ==> (#[trigger] out@[j]).0@.len() == orig[j].sequences@.len(),
            forall|j: int| 0 <= j < out@.len() ==> (#[trigger] out@[j]).1@ == orig[j].scores@,
        decreases rest@.len(),
    {
        let ghost i = out@.len();
        let item = rest.remove(0);
        proof {
            assert(item == orig[i as int]);
        }
        let ghost item_seqs = item.sequences@;
        let mut seqs = item.sequences;
        let mut texts: Vec<String> = Vec::new();
        while seqs.len() > 0
            invariant
                texts@.len() + seqs@.len() == item_seqs.len(),
            decreases seqs@.len(),
        {
            let sequence = seqs.remove(0);
            match decoder_decode(decoder, sequence) {
                Ok(text) => texts.push(text),
                Err(message) => {
                    return Err(Error::Decode(message));
                },
            }
        }
        out.push((texts, item.scores));
        proof {
            assert(rest@ =~= orig.subrange(out@.len() as int, orig.len() as int));
        }
    }
    Ok(out)
}

} // verus!
