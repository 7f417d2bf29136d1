use std::mem::size_of;

use base64::Engine as _;
use base64::engine::general_purpose::STANDARD as BASE64_STANDARD;
use siglip_onnx_server::admission::{
    AdmissionCapacityOverflow, InferenceAdmission, InferenceAdmissionController,
    InferenceAdmissionPermit,
};
use siglip_onnx_server::batch::{TextEmbeddingBatch, TextEmbeddingRequestRejection};
use siglip_onnx_server::failure::{
    InferenceFailure, OpenAiEmbeddingErrorResponse, OpenAiEmbeddingHttpError,
    TextEmbeddingExecutionError, TextEmbeddingOperationError,
};
use siglip_onnx_server::graph::validate_graph_contract;
use siglip_onnx_server::request::{
    OpenAiEmbeddingEncodingFormat, OpenAiEmbeddingInput, OpenAiEmbeddingRequest,
    OpenAiEmbeddingRequestRejection,
};
use siglip_onnx_server::response::{
    OpenAiEmbeddingResponse, OpenAiEmbeddingValues, TextEmbeddingBatchOutput,
    base64_embedding_fits, encode_openai_embedding,
};
use siglip_onnx_server::session_pool::{CheckoutStep, OnnxSessionLease, OnnxSessionPool};
use siglip_onnx_server::vectors::{
    EmbeddingNorm, EmbeddingOutputRejection, check_embedding, check_embedding_batch,
    component_is_finite, split_embedding_batch,
};

const MODEL: &str = "google/siglip2-so400m-patch16-384";

fn expect_admitted(admission: InferenceAdmission) -> InferenceAdmissionPermit {
    match admission {
        InferenceAdmission::Admitted(admission_permit) => admission_permit,
        InferenceAdmission::Saturated => panic!("expected inference capacity to be available"),
    }
}

fn request_from_json(request_json: &str) -> OpenAiEmbeddingRequest {
    let value: serde_json::Value =
        serde_json::from_str(request_json).expect("request must be JSON");
    let token_ids = |sequence: &serde_json::Value| -> Option<Vec<u32>> {
        serde_json::from_value(sequence.clone()).ok()
    };
    let input = &value["input"];
    let input = if let Some(text) = input.as_str() {
        OpenAiEmbeddingInput::SingleText(text.to_owned())
    } else if let Ok(texts) = serde_json::from_value::<Vec<String>>(input.clone()) {
        OpenAiEmbeddingInput::TextBatch(texts)
    } else if let Some(token_ids) = token_ids(input) {
        OpenAiEmbeddingInput::SingleTokenSequence(token_ids)
    } else {
        OpenAiEmbeddingInput::TokenSequenceBatch(
            serde_json::from_value(input.clone()).expect("input must have a known shape"),
        )
    };
    let encoding_format = match value["encoding_format"].as_str() {
        Some("base64") => OpenAiEmbeddingEncodingFormat::Base64,
        Some("float") => OpenAiEmbeddingEncodingFormat::Float,
        _ => OpenAiEmbeddingEncodingFormat::default(),
    };
    OpenAiEmbeddingRequest {
        input,
        model: value["model"].as_str().map(str::to_owned),
        encoding_format,
        dimensions: value["dimensions"].as_u64().map(|dimension| dimension as usize),
    }
}

fn bits(components: &[f32]) -> Vec<u32> {
    components.iter().map(|component| component.to_bits()).collect()
}

fn norm_of(embedding: &[u32]) -> EmbeddingNorm {
    let norm = embedding
        .iter()
        .map(|component| f32::from_bits(*component))
        .fold(0.0_f32, |total, component| total + component * component)
        .sqrt();
    EmbeddingNorm {
        bits: norm.to_bits(),
        text: norm.to_string(),
    }
}

fn normalize_embedding_batch(
    flat_embeddings: &[f32],
    expected_count: usize,
    embedding_dimension: usize,
) -> Result<Vec<Vec<f32>>, EmbeddingOutputRejection> {
    let embeddings =
        split_embedding_batch(&bits(flat_embeddings), expected_count, embedding_dimension)?;
    let norms: Vec<EmbeddingNorm> = embeddings.iter().map(|row| norm_of(row)).collect();
    check_embedding_batch(&embeddings, &norms)?;
    Ok(embeddings
        .iter()
        .zip(&norms)
        .map(|(row, norm)| {
            row.iter()
                .map(|component| f32::from_bits(*component) / f32::from_bits(norm.bits))
                .collect()
        })
        .collect())
}

#[test]
fn inference_admission_bounds_active_and_pending_requests() {
    let admission_controller =
        InferenceAdmissionController::new(2, 1).expect("capacity must be representable");
    let first_permit = expect_admitted(admission_controller.try_admit());
    let _second_permit = expect_admitted(admission_controller.try_admit());
    let _pending_permit = expect_admitted(admission_controller.try_admit());

    assert!(matches!(
        admission_controller.try_admit(),
        InferenceAdmission::Saturated
    ));

    drop(first_permit);
    let _replacement_permit = expect_admitted(admission_controller.try_admit());
}

#[test]
fn admission_capacity_must_be_representable() {
    let overflow = match InferenceAdmissionController::new(usize::MAX, 1) {
        Ok(_) => panic!("the capacity has no representation"),
        Err(overflow) => overflow,
    };
    assert_eq!(overflow, AdmissionCapacityOverflow);
    assert_eq!(
        overflow.message(),
        "session and pending-request counts overflow"
    );
    let closed = InferenceAdmissionController::new(0, 0).expect("zero is representable");
    assert!(matches!(closed.try_admit(), InferenceAdmission::Saturated));
    assert!(matches!(
        InferenceAdmission::from_request_slot(None),
        InferenceAdmission::Saturated
    ));
    let slots = std::sync::Arc::new(tokio::sync::Semaphore::new(1));
    let slot = std::sync::Arc::clone(&slots).try_acquire_owned().ok();
    let permit = expect_admitted(InferenceAdmission::from_request_slot(slot));
    assert_eq!(slots.available_permits(), 0);
    drop(permit);
    assert_eq!(slots.available_permits(), 1);
}

#[test]
fn openai_saturation_uses_the_tei_overloaded_response() {
    let response =
        OpenAiEmbeddingHttpError::from(TextEmbeddingExecutionError::Saturated).into_response();

    assert_eq!(response.code, 429);
    assert_eq!(response.retry_after.unwrap(), "1");
    assert_eq!(response.error_type, "overloaded");
    assert_eq!(
        response.message,
        "SigLIP 2 text inference capacity is saturated; retry later"
    );
}

#[test]
fn empty_text_batch_is_rejected_at_the_http_boundary() {
    let rejection = TextEmbeddingBatch::from_texts(Vec::new(), 32)
        .expect_err("empty text batches cannot be inferred");

    assert!(matches!(
        rejection,
        TextEmbeddingRequestRejection::EmptyBatch
    ));
    assert_eq!(rejection.message(), "embedding input must not be empty");
}

#[test]
fn oversized_text_batch_is_rejected_at_the_http_boundary() {
    let rejection = TextEmbeddingBatch::from_texts(vec!["one".to_owned(), "two".to_owned()], 1)
        .expect_err("batch limit must protect the CPU runtime");

    assert!(matches!(
        rejection,
        TextEmbeddingRequestRejection::BatchTooLarge {
            actual_count: 2,
            maximum_count: 1,
        }
    ));
    assert_eq!(
        rejection.message(),
        "text batch has 2 inputs, but SIGLIP_MAX_TEXT_BATCH_SIZE is 1"
    );
}

#[test]
fn the_first_empty_token_sequence_is_reported() {
    let rejection = TextEmbeddingBatch::from_token_ids(vec![vec![1], vec![], vec![]], 3)
        .expect_err("empty token sequences cannot be inferred");
    assert_eq!(
        rejection,
        TextEmbeddingRequestRejection::EmptyTokenSequence { input_index: 1 }
    );
    assert_eq!(
        rejection.message(),
        "token input at index 1 must not be empty"
    );
    assert_eq!(
        TextEmbeddingBatch::from_token_ids(vec![vec![], vec![]], 1).unwrap_err(),
        TextEmbeddingRequestRejection::BatchTooLarge {
            actual_count: 2,
            maximum_count: 1
        }
    );
    assert_eq!(
        TextEmbeddingBatch::from_token_ids(Vec::new(), 1).unwrap_err(),
        TextEmbeddingRequestRejection::EmptyBatch
    );
}

#[test]
fn openai_text_batch_is_parsed_without_changing_input_order() {
    let request = request_from_json(
        r#"{
            "model": "google/siglip2-so400m-patch16-384",
            "input": ["first query", "second query"]
        }"#,
    );

    let validated_request = request
        .into_validated_request("google/siglip2-so400m-patch16-384", 1152, 32)
        .expect("matching model and dimension must be accepted");

    match validated_request.text_batch {
        TextEmbeddingBatch::Texts(texts) => {
            assert_eq!(texts, vec!["first query", "second query"]);
        }
        TextEmbeddingBatch::TokenIds(_) => panic!("text input must remain text"),
    }
    assert_eq!(
        validated_request.encoding_format,
        OpenAiEmbeddingEncodingFormat::Float
    );
}

#[test]
fn openai_token_id_batches_are_a_distinct_valid_input_variant() {
    let request = request_from_json(
        r#"{
            "input": [[1, 2, 3], [4, 5]],
            "encoding_format": "base64"
        }"#,
    );

    let validated_request = request
        .into_validated_request("google/siglip2-so400m-patch16-384", 1152, 32)
        .expect("non-empty token ID batches must be accepted at the HTTP boundary");

    assert!(matches!(
        validated_request.text_batch,
        TextEmbeddingBatch::TokenIds(token_sequences)
            if token_sequences == vec![vec![1, 2, 3], vec![4, 5]]
    ));
    assert!(matches!(
        validated_request.encoding_format,
        OpenAiEmbeddingEncodingFormat::Base64
    ));
}

#[test]
fn openai_request_rejects_a_different_embedding_model() {
    let request = OpenAiEmbeddingRequest {
        input: OpenAiEmbeddingInput::SingleText("query".to_owned()),
        model: Some("different/model".to_owned()),
        encoding_format: OpenAiEmbeddingEncodingFormat::Float,
        dimensions: None,
    };

    let rejection = request
        .into_validated_request("google/siglip2-so400m-patch16-384", 1152, 32)
        .expect_err("cross-model requests must fail closed");

    assert!(matches!(
        &rejection,
        OpenAiEmbeddingRequestRejection::ModelMismatch { .. }
    ));
    assert_eq!(
        rejection.message(),
        "requested model \"different/model\" does not match served model \"google/siglip2-so400m-patch16-384\""
    );
}

#[test]
fn openai_request_rejects_dimension_changes() {
    let request = OpenAiEmbeddingRequest {
        input: OpenAiEmbeddingInput::SingleText("query".to_owned()),
        model: None,
        encoding_format: OpenAiEmbeddingEncodingFormat::Float,
        dimensions: Some(256),
    };

    let rejection = request
        .into_validated_request("google/siglip2-so400m-patch16-384", 1152, 32)
        .expect_err("SigLIP 2 does not support output-dimension projection");

    assert!(matches!(
        rejection,
        OpenAiEmbeddingRequestRejection::UnsupportedDimension {
            requested_dimension: 256,
            embedding_dimension: 1152,
        }
    ));
    assert_eq!(
        rejection.message(),
        "requested embedding dimension 256 is unsupported; this model returns 1152 dimensions"
    );
}

#[test]
fn a_single_input_is_a_batch_of_one() {
    let text = request_from_json(r#"{"input": "query", "dimensions": 1152}"#)
        .into_validated_request(MODEL, 1152, 1)
        .unwrap();
    assert!(matches!(
        text.text_batch,
        TextEmbeddingBatch::Texts(texts) if texts == vec!["query"]
    ));
    let tokens = request_from_json(r#"{"input": [7, 8]}"#)
        .into_validated_request(MODEL, 1152, 1)
        .unwrap();
    assert!(matches!(
        tokens.text_batch,
        TextEmbeddingBatch::TokenIds(sequences) if sequences == vec![vec![7, 8]]
    ));
}

#[test]
fn the_model_is_checked_before_the_dimension_and_the_input() {
    let request = |model: Option<&str>, dimensions| OpenAiEmbeddingRequest {
        input: OpenAiEmbeddingInput::TextBatch(Vec::new()),
        model: model.map(str::to_owned),
        encoding_format: OpenAiEmbeddingEncodingFormat::Float,
        dimensions,
    };
    assert!(matches!(
        request(Some("other"), Some(1)).into_validated_request(MODEL, 2, 3),
        Err(OpenAiEmbeddingRequestRejection::ModelMismatch { .. })
    ));
    assert!(matches!(
        request(Some(MODEL), Some(1)).into_validated_request(MODEL, 2, 3),
        Err(OpenAiEmbeddingRequestRejection::UnsupportedDimension { .. })
    ));
    assert!(matches!(
        request(Some(MODEL), Some(2)).into_validated_request(MODEL, 2, 3),
        Err(OpenAiEmbeddingRequestRejection::InvalidInput(
            TextEmbeddingRequestRejection::EmptyBatch
        ))
    ));
}

#[test]
fn openai_base64_response_preserves_little_endian_f32_values_and_usage() {
    let response = OpenAiEmbeddingResponse::from_embedding_batch(
        TextEmbeddingBatchOutput {
            embeddings: vec![bits(&[0.0, -0.0, 1.25])],
            input_token_count: 7,
        },
        OpenAiEmbeddingEncodingFormat::Base64,
        "google/siglip2-so400m-patch16-384",
    );

    assert_eq!(response.object, "list");
    assert_eq!(response.model, "google/siglip2-so400m-patch16-384");
    assert_eq!(response.usage.prompt_tokens, 7);
    assert_eq!(response.usage.total_tokens, 7);
    assert_eq!(response.data[0].index, 0);
    let OpenAiEmbeddingValues::Base64(encoded_embedding) = &response.data[0].embedding else {
        panic!("base64 encoding must return a base64 string");
    };
    let embedding_bytes = BASE64_STANDARD
        .decode(encoded_embedding)
        .expect("response must contain valid base64");
    let returned_values: Vec<f32> = embedding_bytes
        .chunks_exact(size_of::<f32>())
        .map(|component_bytes| {
            f32::from_le_bytes(
                component_bytes
                    .try_into()
                    .expect("each encoded component is exactly four bytes"),
            )
        })
        .collect();

    assert_eq!(
        returned_values
            .into_iter()
            .map(f32::to_bits)
            .collect::<Vec<_>>(),
        [0.0_f32, -0.0, 1.25]
            .into_iter()
            .map(f32::to_bits)
            .collect::<Vec<_>>()
    );
}

#[test]
fn base64_texts_are_exact() {
    for (components, text) in [
        (vec![], ""),
        (bits(&[1.25]), "AACgPw=="),
        (bits(&[1.25, -1.0]), "AACgPwAAgL8="),
        (vec![0xfbff_fefb, 0x0010_83fb, 0xffff_ffff], "+/7/+/uDEAD/////"),
    ] {
        let values = encode_openai_embedding(components, OpenAiEmbeddingEncodingFormat::Base64);
        assert!(matches!(values, OpenAiEmbeddingValues::Base64(encoded) if encoded == text));
    }
    assert!(base64_embedding_fits(1152));
    assert!(!base64_embedding_fits(usize::MAX));
}

#[test]
fn responses_keep_the_order_of_the_vectors() {
    let response = OpenAiEmbeddingResponse::from_embedding_batch(
        TextEmbeddingBatchOutput {
            embeddings: vec![bits(&[0.5]), bits(&[0.25]), bits(&[0.125])],
            input_token_count: 3,
        },
        OpenAiEmbeddingEncodingFormat::Float,
        MODEL,
    );
    assert_eq!(response.data.len(), 3);
    for (position, component) in [0.5_f32, 0.25, 0.125].into_iter().enumerate() {
        let entry = &response.data[position];
        assert_eq!(entry.object, "embedding");
        assert_eq!(entry.index, position);
        assert!(matches!(
            &entry.embedding,
            OpenAiEmbeddingValues::Float(values) if *values == vec![component.to_bits()]
        ));
    }
}

#[test]
fn normalized_embeddings_have_unit_norm() {
    let normalized_embeddings =
        normalize_embedding_batch(&[3.0, 4.0], 1, 2).expect("finite nonzero vector is valid");

    assert_eq!(normalized_embeddings, vec![vec![0.6, 0.8]]);
}

#[test]
fn zero_vector_is_rejected() {
    let error = normalize_embedding_batch(&[0.0, 0.0], 1, 2)
        .expect_err("zero embedding cannot satisfy the service contract");

    assert!(error.message().contains("invalid L2 norm"));
    assert_eq!(
        error.message(),
        "ONNX output embedding 0 has invalid L2 norm 0"
    );
}

#[test]
fn output_dimension_mismatch_is_rejected() {
    let error = normalize_embedding_batch(&[1.0, 2.0], 1, 3)
        .expect_err("unexpected ONNX output shape must fail closed");

    assert!(
        error
            .message()
            .contains("expected 1 vectors of dimension 3")
    );
    assert_eq!(
        error.message(),
        "ONNX output has 2 values, expected 1 vectors of dimension 3"
    );
}

#[test]
fn outputs_without_a_length_are_rejected() {
    let error = split_embedding_batch(&Vec::new(), usize::MAX, 2).unwrap_err();
    assert!(matches!(error, EmbeddingOutputRejection::CountOverflow));
    assert_eq!(error.message(), "embedding count and dimension overflow");
}

#[test]
fn finiteness_of_bits_is_finiteness_of_numbers() {
    for component in [
        0.0_f32,
        -0.0,
        1.0,
        -1.0,
        f32::MIN,
        f32::MAX,
        f32::MIN_POSITIVE,
        f32::from_bits(1),
        f32::INFINITY,
        f32::NEG_INFINITY,
        f32::NAN,
        -f32::NAN,
    ] {
        assert_eq!(component_is_finite(component.to_bits()), component.is_finite());
        let norm = EmbeddingNorm {
            bits: component.to_bits(),
            text: component.to_string(),
        };
        assert_eq!(
            check_embedding(&bits(&[1.0]), &norm, 0).is_ok(),
            component.is_finite() && component > 0.0
        );
    }
}

#[test]
fn the_first_unservable_vector_is_reported() {
    let error = normalize_embedding_batch(&[1.0, 2.0, 1.0, f32::NAN, 0.0, 0.0], 3, 2).unwrap_err();
    assert_eq!(
        error.message(),
        "ONNX output embedding 1 contains a non-finite component"
    );
    let error = normalize_embedding_batch(&[0.0, 0.0, f32::INFINITY, 1.0], 2, 2).unwrap_err();
    assert_eq!(
        error.message(),
        "ONNX output embedding 0 has invalid L2 norm 0"
    );
    let error = normalize_embedding_batch(&[f32::MAX, f32::MAX], 1, 2).unwrap_err();
    assert_eq!(
        error.message(),
        "ONNX output embedding 0 has invalid L2 norm inf"
    );
    assert_eq!(
        normalize_embedding_batch(&[0.0, 2.0, 5.0, 0.0], 2, 2).unwrap(),
        vec![vec![0.0, 1.0], vec![1.0, 0.0]]
    );
}

fn answer_to(rejection: OpenAiEmbeddingRequestRejection) -> OpenAiEmbeddingErrorResponse {
    OpenAiEmbeddingHttpError::from(rejection).into_response()
}

#[test]
fn rejections_are_answered_with_their_status() {
    let empty = answer_to(OpenAiEmbeddingRequestRejection::InvalidInput(
        TextEmbeddingRequestRejection::EmptyBatch,
    ));
    assert_eq!((empty.code, empty.error_type), (400, "empty"));
    assert_eq!(empty.retry_after, None);

    let too_large = answer_to(OpenAiEmbeddingRequestRejection::InvalidInput(
        TextEmbeddingRequestRejection::BatchTooLarge {
            actual_count: 33,
            maximum_count: 32,
        },
    ));
    assert_eq!((too_large.code, too_large.error_type), (413, "validation"));
    assert_eq!(
        too_large.message,
        "text batch has 33 inputs, but SIGLIP_MAX_TEXT_BATCH_SIZE is 32"
    );

    let dimension = answer_to(OpenAiEmbeddingRequestRejection::UnsupportedDimension {
        requested_dimension: 1,
        embedding_dimension: 2,
    });
    assert_eq!((dimension.code, dimension.error_type), (422, "validation"));

    let body = OpenAiEmbeddingHttpError::invalid_json("no JSON".to_owned()).into_response();
    assert_eq!((body.code, body.error_type), (422, "validation"));
    assert_eq!(body.message, "no JSON");

    let unknown = OpenAiEmbeddingHttpError::from(TextEmbeddingExecutionError::from(
        TextEmbeddingOperationError::Rejected(TextEmbeddingRequestRejection::UnknownTokenId {
            input_index: 4,
            token_id: u32::MAX,
        }),
    ))
    .into_response();
    assert_eq!((unknown.code, unknown.error_type), (422, "validation"));
    assert_eq!(
        unknown.message,
        "token input at index 4 contains unknown token id 4294967295"
    );
}

#[test]
fn backend_failures_are_answered_alike() {
    for failure in [
        InferenceFailure::Tokenization("secret".to_owned()),
        InferenceFailure::Runtime("running the graph: secret".to_owned()),
        InferenceFailure::Output(EmbeddingOutputRejection::CountOverflow),
    ] {
        let error = TextEmbeddingExecutionError::from(TextEmbeddingOperationError::Inference(failure));
        assert!(matches!(error, TextEmbeddingExecutionError::Internal(_)));
        let response = OpenAiEmbeddingHttpError::from(error).into_response();
        assert_eq!((response.code, response.error_type), (424, "backend"));
        assert_eq!(response.message, "SigLIP 2 text inference failed");
        assert_eq!(response.retry_after, None);
    }
    assert_eq!(
        InferenceFailure::Tokenization("bad bytes".to_owned()).message(),
        "tokenizing text batch: bad bytes"
    );
    assert_eq!(InferenceFailure::Runtime("gone".to_owned()).message(), "gone");
}

fn lease(pool: &mut OnnxSessionPool<&'static str>) -> Option<OnnxSessionLease<&'static str>> {
    match pool.checkout(false) {
        CheckoutStep::Run(lease) => Some(lease),
        CheckoutStep::Wait => None,
        CheckoutStep::Fail(failure) => panic!("{}", failure.message()),
    }
}

fn leased(lease: &mut OnnxSessionLease<&'static str>) -> &'static str {
    *lease.session_mut().expect("the lease must own a session")
}

#[test]
fn sessions_return_to_the_pool() {
    let mut pool = OnnxSessionPool::new(vec!["first", "second"]);
    let mut second = lease(&mut pool).expect("a session must be available");
    assert_eq!(leased(&mut second), "second");
    let mut first = lease(&mut pool).expect("a session must be available");
    assert_eq!(leased(&mut first), "first");
    assert!(lease(&mut pool).is_none());
    assert!(second.give_back(&mut pool));
    let mut again = lease(&mut pool).expect("a session must be available");
    assert_eq!(leased(&mut again), "second");
    assert!(again.give_back(&mut pool));
    assert!(first.give_back(&mut pool));
    let mut last = lease(&mut pool).expect("a session must be available");
    assert_eq!(leased(&mut last), "first");
}

#[test]
fn leases_are_given_back_once() {
    let mut pool = OnnxSessionPool::new(vec!["only"]);
    let mut ended = lease(&mut pool).expect("a session must be available");
    *ended.session_mut().expect("the lease must own a session") = "used";
    assert!(ended.give_back(&mut pool));
    assert!(!ended.give_back(&mut pool));
    assert_eq!(
        ended.session_mut().unwrap_err().message(),
        "ONNX session lease no longer owns a session"
    );
    let mut next = lease(&mut pool).expect("a session must be available");
    assert_eq!(leased(&mut next), "used");
    assert!(lease(&mut pool).is_none());
}

#[test]
fn poisoned_pools_lease_nothing() {
    let mut pool = OnnxSessionPool::new(vec!["only"]);
    match pool.checkout(true) {
        CheckoutStep::Fail(failure) => {
            assert_eq!(failure.message(), "ONNX session pool mutex was poisoned");
        }
        _ => panic!("a poisoned pool must lease nothing"),
    }
    assert!(lease(&mut pool).is_some());
    assert!(matches!(pool.checkout(true), CheckoutStep::Fail(_)));
}

fn names(texts: &[&str]) -> Vec<String> {
    texts.iter().map(|text| (*text).to_owned()).collect()
}

#[test]
fn graphs_must_offer_the_contract() {
    let inputs = names(&["attention_mask", "input_ids"]);
    let outputs = names(&["pooled", "text_embeds"]);
    assert!(validate_graph_contract(&inputs, &outputs, "text_embeds").is_ok());
    assert_eq!(
        validate_graph_contract(&names(&["attention_mask"]), &outputs, "text_embeds")
            .unwrap_err()
            .message(),
        "SigLIP 2 text ONNX graph is missing required input \"input_ids\"; found [\"attention_mask\"]"
    );
    assert_eq!(
        validate_graph_contract(&names(&["a\"b", "input_ids"]), &outputs, "text_embeds")
            .unwrap_err()
            .message(),
        "SigLIP 2 text ONNX graph is missing required input \"attention_mask\"; found [\"a\\\"b\", \"input_ids\"]"
    );
    assert_eq!(
        validate_graph_contract(&inputs, &names(&[]), "text_embeds")
            .unwrap_err()
            .message(),
        "SigLIP 2 text ONNX graph is missing configured output \"text_embeds\"; found []"
    );
    assert_eq!(
        validate_graph_contract(&names(&[]), &outputs, "missing").unwrap_err().message(),
        "SigLIP 2 text ONNX graph is missing required input \"input_ids\"; found []"
    );
}
