//! End-to-end tests of the translation and generation pipelines around a
//! real tokenizer, with the engine's answers supplied as values.

use seqgen::Error;
use seqgen::generator::Generator;
use seqgen::options::{GenerationOptions, TranslationOptions};
use seqgen::results::{GenerationResult, TranslationResult};
use seqgen::tokenize::{decode_sequence, encode_text};
use seqgen::translator::Translator;

fn strings(words: &[&str]) -> Vec<String> {
    words.iter().map(|w| w.to_string()).collect()
}

/// A word-level tokenizer whose decoder removes the end-of-sequence marker
/// and then resolves word-boundary markers, as a sentence-piece style
/// translation model does.
fn translation_tokenizer() -> tokenizers::Tokenizer {
    let definition = r#"{
        "version": "1.0",
        "pre_tokenizer": { "type": "Whitespace" },
        "decoder": { "type": "Sequence", "decoders": [
            { "type": "Replace", "pattern": { "String": "</s>" }, "content": "" },
            { "type": "Metaspace", "replacement": "\u2581",
              "prepend_scheme": "always", "split": true }
        ] },
        "model": { "type": "WordLevel",
                   "vocab": { "hello": 0, "again": 1, "<unk>": 2 },
                   "unk_token": "<unk>" }
    }"#;
    tokenizers::Tokenizer::from_bytes(definition.as_bytes())
        .expect("the tokenizer definition should parse")
}

/// A word-level tokenizer whose decoder joins tokens with spaces.
fn generation_tokenizer() -> tokenizers::Tokenizer {
    let definition = r#"{
        "version": "1.0",
        "pre_tokenizer": { "type": "Whitespace" },
        "decoder": { "type": "WordPiece", "prefix": "@@", "cleanup": false },
        "model": { "type": "WordLevel",
                   "vocab": { "The": 0, "cat": 1, "<unk>": 2 },
                   "unk_token": "<unk>" }
    }"#;
    tokenizers::Tokenizer::from_bytes(definition.as_bytes())
        .expect("the tokenizer definition should parse")
}

/// A tokenizer with no decoder configured at all.
fn decoderless_tokenizer() -> tokenizers::Tokenizer {
    let definition = r#"{
        "version": "1.0",
        "pre_tokenizer": { "type": "Whitespace" },
        "model": { "type": "WordLevel",
                   "vocab": { "hello": 0, "<unk>": 1 },
                   "unk_token": "<unk>" }
    }"#;
    tokenizers::Tokenizer::from_bytes(definition.as_bytes())
        .expect("the tokenizer definition should parse")
}

fn no_suppression() -> TranslationOptions {
    TranslationOptions { suppress_sequences: Vec::new() }
}

#[test]
fn round_trip_encode_then_decode() {
    let tokenizer = generation_tokenizer();
    let tokens = encode_text(&tokenizer, "The cat", true).expect("known words must encode");
    assert_eq!(tokens, strings(&["The", "cat"]));
    let text = decode_sequence(&tokenizer, tokens).expect("the decoder is configured");
    assert_eq!(text, "The cat");
}

#[test]
fn shape_error_comes_before_any_engine_work() {
    let translator = Translator::with_tokenizer(translation_tokenizer());
    let sources = strings(&["hello"]);
    let prefixes: Vec<Vec<String>> = Vec::new();
    let mut engine_calls: usize = 0;
    let prepared = translator.prepare_translate_batch(&sources, prefixes, no_suppression());
    if let Ok(_request) = &prepared {
        engine_calls += 1;
    }
    assert!(matches!(prepared, Err(Error::Shape { sources: 1, prefixes: 0 })));
    assert_eq!(engine_calls, 0);
}

#[test]
fn translation_scenario_best_hypothesis() {
    let translator = Translator::with_tokenizer(translation_tokenizer());
    let sources = strings(&["hello"]);
    let prefixes: Vec<Vec<String>> = vec![Vec::new()];
    let request = translator
        .prepare_translate_batch(&sources, prefixes.clone(), no_suppression())
        .expect("aligned shapes and known words must prepare");
    assert_eq!(request.source.len(), 1);
    assert_eq!(request.source[0].v, strings(&["hello"]));
    assert_eq!(request.target_prefix[0].v, Vec::<String>::new());

    let answer = vec![TranslationResult {
        hypotheses: vec![strings(&["\u{2581}Bon", "jour", "</s>"])],
        hypotheses_ids: vec![vec![10, 11, 2]],
        scores: vec![(-0.3f32).to_bits()],
    }];
    let out = translator.finish_translate_batch(answer, &prefixes).expect("one hypothesis came");
    assert_eq!(out.len(), 1);
    assert_eq!(out[0].0, "Bonjour");
    assert_eq!(out[0].1, Some((-0.3f32).to_bits()));
}

#[test]
fn translation_strips_the_target_prefix() {
    let translator = Translator::with_tokenizer(translation_tokenizer());
    let prefixes: Vec<Vec<String>> = vec![strings(&["\u{2581}Bon"])];
    let answer = vec![TranslationResult {
        hypotheses: vec![strings(&["\u{2581}Bon", "jour", "</s>"])],
        hypotheses_ids: vec![vec![10, 11, 2]],
        scores: Vec::new(),
    }];
    let out = translator.finish_translate_batch(answer, &prefixes).expect("one hypothesis came");
    assert_eq!(out.len(), 1);
    assert_eq!(out[0].0, "jour");
    assert_eq!(out[0].1, None);
}

#[test]
fn translation_keeps_input_order() {
    let translator = Translator::with_tokenizer(translation_tokenizer());
    let prefixes: Vec<Vec<String>> = vec![Vec::new(), Vec::new()];
    let answer = vec![
        TranslationResult {
            hypotheses: vec![strings(&["\u{2581}Bon", "jour"]), strings(&["\u{2581}Salut"])],
            hypotheses_ids: vec![vec![10, 11], vec![12]],
            scores: vec![(-0.3f32).to_bits(), (-0.9f32).to_bits()],
        },
        TranslationResult {
            hypotheses: vec![strings(&["\u{2581}Encore"])],
            hypotheses_ids: vec![vec![13]],
            scores: vec![(-0.6f32).to_bits()],
        },
    ];
    let out = translator.finish_translate_batch(answer, &prefixes).expect("hypotheses came");
    assert_eq!(out.len(), 2);
    // only the best (first) hypothesis of each input is surfaced, in input order
    assert_eq!(out[0].0, "Bonjour");
    assert_eq!(out[0].1, Some((-0.3f32).to_bits()));
    assert_eq!(out[1].0, "Encore");
    assert_eq!(out[1].1, Some((-0.6f32).to_bits()));
}

#[test]
fn translation_without_hypotheses_fails_whole_call() {
    let translator = Translator::with_tokenizer(translation_tokenizer());
    let prefixes: Vec<Vec<String>> = vec![Vec::new(), Vec::new()];
    let answer = vec![
        TranslationResult {
            hypotheses: vec![strings(&["hello", "</s>"])],
            hypotheses_ids: vec![vec![0, 2]],
            scores: Vec::new(),
        },
        TranslationResult { hypotheses: Vec::new(), hypotheses_ids: Vec::new(), scores: Vec::new() },
    ];
    let out = translator.finish_translate_batch(answer, &prefixes);
    assert!(matches!(out, Err(Error::NoResult { index: 1 })));
}

#[test]
fn generation_scenario_two_scored_hypotheses() {
    let generator = Generator::with_tokenizer(generation_tokenizer());
    let prompts = strings(&["The cat"]);
    let options = GenerationOptions {
        num_hypotheses: 2,
        return_scores: true,
        ..GenerationOptions::default()
    };
    let request = generator
        .prepare_generate_batch(&prompts, options)
        .expect("known words must prepare");
    assert_eq!(request.start_tokens.len(), 1);
    assert_eq!(request.start_tokens[0].v, strings(&["The", "cat"]));
    assert_eq!(request.options.num_hypotheses, 2);
    assert!(request.options.return_scores);

    let answer = vec![GenerationResult {
        sequences: vec![strings(&["The", "cat", "sat"]), strings(&["The", "cat", "ran"])],
        sequences_ids: vec![vec![0, 1, 5], vec![0, 1, 6]],
        scores: vec![(-0.1f32).to_bits(), (-0.5f32).to_bits()],
    }];
    let out = generator.finish_generate_batch(answer).expect("the decoder is configured");
    assert_eq!(out.len(), 1);
    assert_eq!(out[0].0, strings(&["The cat sat", "The cat ran"]));
    assert_eq!(out[0].1, vec![(-0.1f32).to_bits(), (-0.5f32).to_bits()]);
}

#[test]
fn generation_without_scores_yields_empty_score_list() {
    let generator = Generator::with_tokenizer(generation_tokenizer());
    let answer = vec![GenerationResult {
        sequences: vec![strings(&["The", "cat"])],
        sequences_ids: vec![vec![0, 1]],
        scores: Vec::new(),
    }];
    let out = generator.finish_generate_batch(answer).expect("the decoder is configured");
    assert_eq!(out.len(), 1);
    assert_eq!(out[0].0, strings(&["The cat"]));
    assert!(out[0].1.is_empty());
}

#[test]
fn generation_layer_does_not_clamp_hypotheses() {
    // Enforcing `num_hypotheses` is the engine's job: the layer passes the
    // number through unmodified and surfaces however many the engine
    // actually returned.
    let generator = Generator::with_tokenizer(generation_tokenizer());
    let prompts = strings(&["The cat"]);
    let options = GenerationOptions { num_hypotheses: 3, ..GenerationOptions::default() };
    let request = generator
        .prepare_generate_batch(&prompts, options)
        .expect("known words must prepare");
    assert_eq!(request.options.num_hypotheses, 3);

    let five = vec![
        strings(&["The", "cat", "one"]),
        strings(&["The", "cat", "two"]),
        strings(&["The", "cat", "three"]),
        strings(&["The", "cat", "four"]),
        strings(&["The", "cat", "five"]),
    ];
    let answer = vec![GenerationResult {
        sequences: five,
        sequences_ids: vec![vec![0], vec![1], vec![2], vec![3], vec![4]],
        scores: Vec::new(),
    }];
    let out = generator.finish_generate_batch(answer).expect("the decoder is configured");
    assert_eq!(out[0].0.len(), 5);
}

#[test]
fn unknown_word_without_unknown_token_aborts_encoding() {
    let definition = r#"{
        "version": "1.0",
        "pre_tokenizer": { "type": "Whitespace" },
        "model": { "type": "WordLevel",
                   "vocab": { "hello": 0 },
                   "unk_token": "<unk>" }
    }"#;
    let tokenizer = tokenizers::Tokenizer::from_bytes(definition.as_bytes())
        .expect("the tokenizer definition should parse");
    let r = encode_text(&tokenizer, "mystery", true);
    assert!(matches!(r, Err(Error::Encode(_))));
}

#[test]
fn missing_decoder_is_reported() {
    let tokenizer = decoderless_tokenizer();
    let r = decode_sequence(&tokenizer, strings(&["hello"]));
    assert!(matches!(r, Err(Error::DecoderUnavailable)));

    let translator = Translator::with_tokenizer(decoderless_tokenizer());
    let prefixes: Vec<Vec<String>> = vec![Vec::new()];
    let answer = vec![TranslationResult {
        hypotheses: vec![strings(&["hello"])],
        hypotheses_ids: vec![vec![0]],
        scores: Vec::new(),
    }];
    let out = translator.finish_translate_batch(answer, &prefixes);
    assert!(matches!(out, Err(Error::DecoderUnavailable)));
}
