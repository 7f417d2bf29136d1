use siglip_onnx_server::batch::{TextEmbeddingBatch, TextEmbeddingRequestRejection};
use siglip_onnx_server::config::{
    Environment, FileVariable, ManifestReading, ModelManifestDocument, ServiceConfig,
};
use siglip_onnx_server::embedder::{
    OnnxTextEmbedder, STARTUP_PROBE, StartupStep, next_startup_step,
};
use siglip_onnx_server::failure::{TextEmbeddingExecutionError, TextEmbeddingOperationError};
use siglip_onnx_server::health::health;
use siglip_onnx_server::prepared::{
    EncodingField, EncodingLengthMismatch, PreparedTextEmbeddingBatch, count_unpadded_tokens,
    flatten_attention_masks, flatten_token_ids, prepare_encoded_batch, prepare_token_id_batch,
};
use siglip_onnx_server::request::{
    OpenAiEmbeddingEncodingFormat, OpenAiEmbeddingInput, OpenAiEmbeddingRequest,
};
use siglip_onnx_server::response::{OpenAiEmbeddingValues, TextEmbeddingBatchOutput};
use siglip_onnx_server::tokenizer::{
    FixedLengthTokenizer, TokenizerRejection, configure_fixed_length_tokenizer,
};
use tokenizers::{Encoding, Token, Tokenizer};

const TOKENIZER: &str = r#"{
    "version": "1.0",
    "truncation": null,
    "padding": null,
    "added_tokens": [],
    "normalizer": null,
    "pre_tokenizer": {"type": "Whitespace"},
    "post_processor": POST_PROCESSOR,
    "decoder": null,
    "model": {
        "type": "WordLevel",
        "vocab": {
            "PAD": 9, "<unk>": 1, "red": 2, "block": 3, "robot": 4, "arm": 5,
            "<bos>": 6, "<eos>": 7
        },
        "unk_token": "<unk>"
    }
}"#;

const BERT: &str = r#"{"type": "BertProcessing", "sep": ["<eos>", 7], "cls": ["<bos>", 6]}"#;

fn tokenizer(post_processor: &str, pad: &str) -> Tokenizer {
    let document = TOKENIZER.replace("POST_PROCESSOR", post_processor).replace("PAD", pad);
    Tokenizer::from_bytes(document.as_bytes()).expect("tokenizer must load")
}

fn fixed(post_processor: &str, token_length: usize) -> FixedLengthTokenizer {
    match FixedLengthTokenizer::configure(tokenizer(post_processor, "<pad>"), token_length) {
        Ok(fixed) => fixed,
        Err(rejection) => panic!("{}", rejection.message()),
    }
}

fn file() -> FileVariable {
    FileVariable {
        value: Some("/artifact".to_owned()),
        is_file: true,
    }
}

fn config(token_length: usize, sessions: &str, pending: &str) -> ServiceConfig {
    let environment = Environment {
        model_manifest_path: file(),
        manifest: ManifestReading::Document(ModelManifestDocument {
            repository: "organization/siglip-model".to_owned(),
            revision: "0123456789abcdef0123456789abcdef01234567".to_owned(),
            embedding_dimension: 2,
            text_max_token_length: token_length,
        }),
        port: None,
        onnx_model_path: file(),
        tokenizer_path: file(),
        ort_library_path: file(),
        onnx_output_name: None,
        max_text_batch_size: Some("2".to_owned()),
        ort_session_count: Some(sessions.to_owned()),
        ort_intra_op_threads: None,
        max_pending_text_requests: Some(pending.to_owned()),
    };
    ServiceConfig::from_environment(environment).expect("environment must be valid")
}

fn embedder(post_processor: &str, token_length: usize) -> OnnxTextEmbedder {
    match OnnxTextEmbedder::load(config(token_length, "1", "0"), fixed(post_processor, token_length))
    {
        Ok(embedder) => embedder,
        Err(overflow) => panic!("{}", overflow.message()),
    }
}

fn texts(inputs: &[&str]) -> TextEmbeddingBatch {
    TextEmbeddingBatch::Texts(inputs.iter().map(|text| (*text).to_owned()).collect())
}

fn prepared(
    embedder: &OnnxTextEmbedder,
    batch: TextEmbeddingBatch,
) -> PreparedTextEmbeddingBatch {
    embedder.prepare_text_embedding_batch(batch).expect("batch must be prepared")
}

fn encoding(ids: &[u32]) -> Encoding {
    let tokens = ids.iter().map(|id| Token::new(*id, "x".to_owned(), (0, 1))).collect();
    Encoding::from_tokens(tokens, 0)
}

#[test]
fn texts_are_padded_and_cut_off_to_one_length() {
    let batch = prepared(
        &embedder("null", 3),
        texts(&["red block", "robot arm red block", "", "zebra"]),
    );
    assert_eq!(batch.batch_size, 4);
    assert_eq!(batch.input_ids, vec![2, 3, 9, 4, 5, 2, 9, 9, 9, 1, 9, 9]);
    assert_eq!(batch.attention_mask, vec![1, 1, 0, 1, 1, 1, 0, 0, 0, 1, 0, 0]);
    assert_eq!(batch.input_token_count, 6);
}

#[test]
fn special_tokens_are_part_of_the_fixed_length() {
    let batch = prepared(&embedder(BERT, 4), texts(&["red", "robot arm red block"]));
    assert_eq!(batch.input_ids, vec![6, 2, 7, 9, 6, 4, 5, 7]);
    assert_eq!(batch.attention_mask, vec![1, 1, 1, 0, 1, 1, 1, 1]);
    assert_eq!(batch.input_token_count, 7);
}

#[test]
fn token_sequences_are_padded_and_cut_off_to_one_length() {
    let batch = prepared(
        &embedder(BERT, 3),
        TextEmbeddingBatch::TokenIds(vec![vec![2, 3, 4, 5], vec![1], vec![9, 2, 6]]),
    );
    assert_eq!(batch.batch_size, 3);
    assert_eq!(batch.input_ids, vec![2, 3, 4, 1, 9, 9, 9, 2, 6]);
    assert_eq!(batch.attention_mask, vec![1, 1, 1, 1, 0, 0, 1, 1, 1]);
    assert_eq!(batch.input_token_count, 7);
}

#[test]
fn tokenization_fails_in_the_words_of_a_text() {
    let document = TOKENIZER
        .replace("POST_PROCESSOR", "null")
        .replace("PAD", "<pad>")
        .replace("<unk>", "[UNK]")
        .replace("\"unk_token\": \"[UNK]\"", "\"unk_token\": \"<absent>\"");
    let loaded = Tokenizer::from_bytes(document.as_bytes()).expect("tokenizer must load");
    let strict = FixedLengthTokenizer::configure(loaded, 2).ok().expect("tokenizer is usable");
    let owned = |inputs: &[&str]| inputs.iter().map(|text| (*text).to_owned()).collect();
    assert_eq!(strict.encode(&Vec::new()).expect("no text fails").len(), 0);
    let encodings = strict.encode(&owned(&["red", "block arm"])).expect("known words encode");
    assert_eq!(encodings[0].get_ids(), &[2, 9]);
    assert_eq!(encodings[1].get_ids(), &[3, 5]);
    assert_eq!(
        strict.encode(&owned(&["red", "zebra"])).unwrap_err(),
        "WordLevel error: Missing [UNK] token from the vocabulary"
    );
    let embedder = OnnxTextEmbedder::load(config(2, "1", "0"), strict).ok().expect("must load");
    let failure = match embedder.prepare_text_embedding_batch(texts(&["zebra"])) {
        Err(TextEmbeddingOperationError::Inference(failure)) => failure,
        _ => panic!("an unknown word must fail"),
    };
    assert_eq!(
        failure.message(),
        "tokenizing text batch: WordLevel error: Missing [UNK] token from the vocabulary"
    );
}

#[test]
fn unknown_token_ids_are_rejected() {
    let fixed = fixed("null", 2);
    let rejection =
        prepare_token_id_batch(&fixed, &vec![vec![2], vec![3, 3, 77], vec![78]]).unwrap_err();
    assert_eq!(
        rejection,
        TextEmbeddingRequestRejection::UnknownTokenId {
            input_index: 1,
            token_id: 77
        }
    );
    let error = embedder("null", 2)
        .prepare_text_embedding_batch(TextEmbeddingBatch::TokenIds(vec![vec![0]]))
        .unwrap_err();
    assert!(matches!(
        error,
        TextEmbeddingOperationError::Rejected(TextEmbeddingRequestRejection::UnknownTokenId {
            input_index: 0,
            token_id: 0
        })
    ));
}

#[test]
fn tokenizers_without_the_pad_token_are_rejected() {
    let rejection = FixedLengthTokenizer::configure(tokenizer(BERT, "[PAD]"), 1).err().unwrap();
    assert_eq!(rejection, TokenizerRejection::MissingPadToken);
    assert_eq!(
        rejection.message(),
        "SigLIP 2 tokenizer does not define required pad token \"<pad>\""
    );
    let mut unpadded = tokenizer("null", "[PAD]");
    assert_eq!(
        configure_fixed_length_tokenizer(&mut unpadded, 4),
        Err(TokenizerRejection::MissingPadToken)
    );
    let mut crowded = tokenizer(BERT, "[PAD]");
    assert_eq!(
        configure_fixed_length_tokenizer(&mut crowded, 1),
        Err(TokenizerRejection::MissingPadToken)
    );
    assert!(unpadded.get_padding().is_none());
    assert!(unpadded.get_truncation().is_none());
}

#[test]
fn special_tokens_must_fit_the_fixed_length() {
    let rejection = FixedLengthTokenizer::configure(tokenizer(BERT, "<pad>"), 1).err().unwrap();
    assert_eq!(
        rejection,
        TokenizerRejection::SpecialTokensTooLong {
            added_count: 2,
            token_length: 1
        }
    );
    assert_eq!(
        rejection.message(),
        "SigLIP 2 tokenizer adds 2 special tokens, more than the fixed length 1"
    );
}

#[test]
fn configuration_sets_both_rules_of_the_tokenizer() {
    let mut tokenizer = tokenizer(BERT, "<pad>");
    assert_eq!(configure_fixed_length_tokenizer(&mut tokenizer, 5), Ok(9));
    let truncation = tokenizer.get_truncation().expect("truncation must be set");
    assert_eq!(truncation.max_length, 5);
    assert_eq!(truncation.stride, 0);
    assert_eq!(truncation.strategy, tokenizers::TruncationStrategy::LongestFirst);
    assert_eq!(truncation.direction, tokenizers::TruncationDirection::Right);
    let padding = tokenizer.get_padding().expect("padding must be set");
    assert!(matches!(padding.strategy, tokenizers::PaddingStrategy::Fixed(5)));
    assert!(matches!(padding.direction, tokenizers::PaddingDirection::Right));
    assert_eq!(padding.pad_to_multiple_of, None);
    assert_eq!((padding.pad_id, padding.pad_type_id), (9, 0));
    assert_eq!(padding.pad_token, "<pad>");
    let configured = fixed(BERT, 5);
    assert_eq!(configured.token_length(), 5);
    assert_eq!(configured.pad_token_id(), 9);
    assert!(configured.knows(2));
    assert!(!configured.knows(8));
}

#[test]
fn encodings_of_another_length_are_reported() {
    let encodings = vec![encoding(&[2, 3]), encoding(&[4]), encoding(&[])];
    let mismatch = prepare_encoded_batch(&encodings, 2).unwrap_err();
    assert_eq!(
        mismatch,
        EncodingLengthMismatch {
            field: EncodingField::TokenIds,
            actual_count: 1,
            input_index: 1,
            expected_count: 2
        }
    );
    assert_eq!(
        mismatch.message(),
        "SigLIP 2 tokenizer produced 1 token IDs for input 1, expected 2"
    );
    assert_eq!(
        flatten_attention_masks(&encodings, 1).unwrap_err().message(),
        "SigLIP 2 tokenizer produced 2 attention masks for input 0, expected 1"
    );
    let fitting = vec![encoding(&[2, 3]), encoding(&[4, 5])];
    assert_eq!(flatten_token_ids(&fitting, 2), Ok(vec![2, 3, 4, 5]));
    assert_eq!(flatten_attention_masks(&fitting, 2), Ok(vec![1, 1, 1, 1]));
    assert_eq!(count_unpadded_tokens(&fitting), 4);
    assert_eq!(count_unpadded_tokens(&Vec::new()), 0);
}

#[test]
fn startup_loads_every_session_and_checks_the_first() {
    assert_eq!(
        next_startup_step(0, 2),
        StartupStep::LoadSession {
            session_number: 1,
            validate_graph: true
        }
    );
    assert_eq!(
        next_startup_step(1, 2),
        StartupStep::LoadSession {
            session_number: 2,
            validate_graph: false
        }
    );
    assert_eq!(next_startup_step(2, 2), StartupStep::Probe);
    let probe = embedder("null", 2).startup_probe().expect("the probe is within the limit");
    assert!(matches!(probe, TextEmbeddingBatch::Texts(texts) if texts == vec![STARTUP_PROBE]));
}

#[test]
fn a_service_without_free_slots_is_saturated() {
    let embedder = embedder("null", 2);
    let permit = embedder.take_slot().ok().expect("one slot must be free");
    assert!(matches!(
        embedder.take_slot(),
        Err(TextEmbeddingExecutionError::Saturated)
    ));
    drop(permit);
    assert!(embedder.take_slot().is_ok());
}

#[test]
fn a_service_without_a_capacity_does_not_load() {
    let config = config(2, &usize::MAX.to_string(), "1");
    assert!(OnnxTextEmbedder::load(config, fixed("null", 2)).is_err());
}

#[test]
fn health_tells_the_model_and_the_limits() {
    let embedder = embedder("null", 2);
    let response = health(embedder.config());
    assert_eq!(response.status, "ok");
    assert_eq!(response.model_id, "organization/siglip-model");
    assert_eq!(response.revision, "0123456789abcdef0123456789abcdef01234567");
    assert_eq!(response.dim, 2);
    assert_eq!(response.device, "cpu");
    assert_eq!(response.modalities, ["text"]);
    assert_eq!(response.session_count, 1);
    assert_eq!(response.intra_operation_threads_per_session, 1);
    assert_eq!(response.maximum_pending_requests, 0);
}

fn request(inputs: &[&str], model: &str) -> OpenAiEmbeddingRequest {
    OpenAiEmbeddingRequest {
        input: OpenAiEmbeddingInput::TextBatch(
            inputs.iter().map(|text| (*text).to_owned()).collect(),
        ),
        model: Some(model.to_owned()),
        encoding_format: OpenAiEmbeddingEncodingFormat::Base64,
        dimensions: Some(2),
    }
}

#[test]
fn requests_are_held_to_the_served_model() {
    let embedder = embedder("null", 2);
    let accepted = embedder
        .accept_request(Ok(request(&["a", "b"], "organization/siglip-model")))
        .expect("request must be valid");
    assert_eq!(accepted.encoding_format, OpenAiEmbeddingEncodingFormat::Base64);
    assert!(matches!(
        accepted.text_batch,
        TextEmbeddingBatch::Texts(texts) if texts == vec!["a", "b"]
    ));
    let code = |request| embedder.accept_request(request).unwrap_err().into_response().code;
    assert_eq!(code(Ok(request(&["a"], "other"))), 422);
    assert_eq!(code(Ok(request(&[], "organization/siglip-model"))), 400);
    assert_eq!(code(Ok(request(&["a", "b", "c"], "organization/siglip-model"))), 413);
    assert_eq!(code(Err("no JSON".to_owned())), 422);
}

#[test]
fn requests_are_answered_with_vectors_or_with_their_failure() {
    let embedder = embedder("null", 2);
    let output = TextEmbeddingBatchOutput {
        embeddings: vec![vec![0.6_f32.to_bits(), 0.8_f32.to_bits()]],
        input_token_count: 3,
    };
    let response = embedder
        .answer_request(Ok(output), OpenAiEmbeddingEncodingFormat::Float)
        .expect("vectors must be returned");
    assert_eq!(response.object, "list");
    assert_eq!(response.model, "organization/siglip-model");
    assert_eq!(response.usage.total_tokens, 3);
    assert!(matches!(
        &response.data[0].embedding,
        OpenAiEmbeddingValues::Float(values)
            if *values == vec![0.6_f32.to_bits(), 0.8_f32.to_bits()]
    ));
    let failure = embedder
        .answer_request(
            Err(TextEmbeddingExecutionError::Saturated),
            OpenAiEmbeddingEncodingFormat::Float,
        )
        .unwrap_err();
    assert_eq!(failure.into_response().code, 429);
}
