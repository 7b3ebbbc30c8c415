//! Tokenizer adapter: wraps the external tokenizer's encode / decode
//! contract and normalizes its errors.
//!
//! What the tokenizer produces depends on the tokenizer definition that was
//! loaded (usually from a model directory), so nothing is stated of the
//! token strings or of the decoded text themselves; every failure is
//! wrapped with the failing operation's identity and aborts the whole
//! batch — a bad input is never silently skipped.

use vstd::prelude::*;

use crate::Error;

verus! {

#[verifier::external_type_specification]
#[verifier::external_body]
pub struct ExTokenizer(tokenizers::Tokenizer);

#[verifier::external_type_specification]
#[verifier::external_body]
pub struct ExDecoderWrapper(tokenizers::DecoderWrapper);

/// Relies on tokenizers::TokenizerImpl::encode (reached through Tokenizer's
/// Deref) and Encoding::get_tokens: encodes one text into the token strings
/// the loaded tokenizer produces for it. Those tokens depend on the loaded
/// tokenizer definition, so nothing is stated of them.
#[verifier::external_body]
fn encode_tokens(tokenizer: &tokenizers::Tokenizer, text: &str, add_special_tokens: bool) -> (r:
    Result<Vec<String>, String>)
{
    match tokenizer.encode(text, add_special_tokens) {
        Ok(encoding) => Ok(encoding.get_tokens().to_vec()),
        Err(err) => Err(err.to_string()),
    }
}

/// Relies on tokenizers::TokenizerImpl::get_decoder: hands back the
/// configured decoder, or nothing when the loaded tokenizer has none.
#[verifier::external_body]
pub(crate) fn tokenizer_decoder(tokenizer: &tokenizers::Tokenizer) -> Option<
    &tokenizers::DecoderWrapper,
> {
    tokenizer.get_decoder()
}

/// Relies on tokenizers::Decoder::decode as implemented by DecoderWrapper:
/// joins the chain-decoded tokens into one text. The text depends on the
/// loaded decoder definition, so nothing is stated of it.
#[verifier::external_body]
pub(crate) fn decoder_decode(decoder: &tokenizers::DecoderWrapper, tokens: Vec<String>) -> (r:
    Result<String, String>)
{
    match tokenizers::Decoder::decode(decoder, tokens) {
        Ok(text) => Ok(text),
        Err(err) => Err(err.to_string()),
    }
}

/// Encodes one text; any tokenizer failure is surfaced as an encode error.
pub fn encode_text(tokenizer: &tokenizers::Tokenizer, text: &str, add_special_tokens: bool) -> (r:
    Result<Vec<String>, Error>)
    ensures
        r matches Err(e) ==> e is Encode,
{
    match encode_tokens(tokenizer, text, add_special_tokens) {
        Ok(tokens) => Ok(tokens),
        Err(message) => Err(Error::Encode(message)),
    }
}

/// Encodes a batch of texts, one token sequence per text in input order;
/// the first failing input aborts the whole batch with an encode error.
pub fn encode_batch(
    tokenizer: &tokenizers::Tokenizer,
    texts: &Vec<String>,
    add_special_tokens: bool,
) -> (r: Result<Vec<Vec<String>>, Error>)
    ensures
        r matches Ok(tokens) ==> tokens@.len() == texts@.len(),
        r matches Err(e) ==> e is Encode,
{
    let mut out: Vec<Vec<String>> = Vec::new();
    let mut i: usize = 0;
    while i < texts.len()
        invariant
            i <= texts@.len(),
            out@.len() == i,
        decreases texts@.len() - i,
    {
        match encode_text(tokenizer, texts[i].as_str(), add_special_tokens) {
            Ok(tokens) => out.push(tokens),
            Err(e) => {
                return Err(e);
            },
        }
        i = i + 1;
    }
    Ok(out)
}

/// Decodes one token sequence to text; fails when the loaded tokenizer has
/// no decoder configured, and surfaces any decoder failure as a decode
/// error.
pub fn decode_sequence(tokenizer: &tokenizers::Tokenizer, tokens: Vec<String>) -> (r: Result<
    String,
    Error,
>)
    ensures
        r matches Err(e) ==> e is Decode || e is DecoderUnavailable,
{
    match tokenizer_decoder(tokenizer) {
        None => Err(Error::DecoderUnavailable),
        Some(decoder) => match decoder_decode(decoder, tokens) {
            Ok(text) => Ok(text),
            Err(message) => Err(Error::Decode(message)),
        },
    }
}

} // verus!
