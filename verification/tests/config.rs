use siglip_onnx_server::config::{
    ConfigError, Environment, ExistingFilePath, FileVariable, ManifestReading, ModelContract,
    ModelIdentifier, ModelManifestDocument, ModelRevision, NonNegativeCount, OnnxOutputName,
    PositiveCount, ServiceConfig, ServicePort, SettingError, read_nonempty,
};

const VALID_MODEL_MANIFEST: &str = r#"{
    "repository": "organization/siglip-model",
    "revision": "0123456789abcdef0123456789abcdef01234567",
    "index_model_id": "siglip/organization/siglip-model",
    "embedding_dimension": 1152,
    "text_max_token_length": 64
}"#;

fn manifest_document(manifest_json: &str) -> ModelManifestDocument {
    let value: serde_json::Value =
        serde_json::from_str(manifest_json).expect("manifest must be JSON");
    let text = |field: &str| {
        value[field]
            .as_str()
            .expect("field must be a string")
            .to_owned()
    };
    let count = |field: &str| value[field].as_u64().expect("field must be a count") as usize;
    ModelManifestDocument {
        repository: text("repository"),
        revision: text("revision"),
        embedding_dimension: count("embedding_dimension"),
        text_max_token_length: count("text_max_token_length"),
    }
}

fn file(path: &str) -> FileVariable {
    FileVariable {
        value: Some(path.to_owned()),
        is_file: true,
    }
}

fn minimal_environment() -> Environment {
    Environment {
        model_manifest_path: file("/models/contract.json"),
        manifest: ManifestReading::Document(manifest_document(VALID_MODEL_MANIFEST)),
        port: None,
        onnx_model_path: file(" /models/text_model.onnx "),
        tokenizer_path: file("/models/tokenizer.json"),
        ort_library_path: file("/opt/onnxruntime/lib/libonnxruntime.so"),
        onnx_output_name: None,
        max_text_batch_size: None,
        ort_session_count: None,
        ort_intra_op_threads: None,
        max_pending_text_requests: None,
    }
}

fn setting(text: &str) -> Option<String> {
    Some(text.to_owned())
}

fn configuration_error(environment: Environment) -> String {
    ServiceConfig::from_environment(environment)
        .expect_err("environment must be invalid")
        .message()
}

#[test]
fn model_manifest_produces_a_complete_validated_contract() {
    let model_contract = ModelContract::from_document(manifest_document(VALID_MODEL_MANIFEST))
        .expect("valid manifest must parse");

    assert_eq!(model_contract.model_id(), "organization/siglip-model");
    assert_eq!(
        model_contract.model_revision(),
        "0123456789abcdef0123456789abcdef01234567"
    );
    assert_eq!(model_contract.embedding_dimension(), 1152);
    assert_eq!(model_contract.text_max_token_length(), 64);
}

#[test]
fn mutable_model_revision_is_rejected() {
    let mutable_revision_manifest =
        VALID_MODEL_MANIFEST.replace("0123456789abcdef0123456789abcdef01234567", "main");

    let error = ModelContract::from_document(manifest_document(&mutable_revision_manifest))
        .expect_err("a mutable model revision must fail closed");

    assert!(error.message().contains("commit SHA"));
}

#[test]
fn zero_embedding_dimension_is_rejected() {
    let zero_dimension_manifest = VALID_MODEL_MANIFEST.replace(
        "\"embedding_dimension\": 1152",
        "\"embedding_dimension\": 0",
    );

    let error = ModelContract::from_document(manifest_document(&zero_dimension_manifest))
        .expect_err("zero-dimensional embeddings cannot be served");

    assert!(error.message().contains("greater than zero"));
    assert_eq!(
        error.message(),
        "model manifest embedding_dimension must be greater than zero"
    );
}

#[test]
fn zero_port_is_rejected() {
    let error = ServicePort::parse("SIGLIP_PORT", "0").expect_err("port zero must be invalid");

    assert!(error.message().contains("greater than zero"));
}

#[test]
fn zero_thread_count_is_rejected() {
    let error = PositiveCount::parse("SIGLIP_ORT_INTRA_OP_THREADS", "0")
        .expect_err("zero threads must be invalid");

    assert!(error.message().contains("greater than zero"));
}

#[test]
fn zero_pending_requests_disables_the_waiting_queue() {
    let maximum_pending_requests =
        NonNegativeCount::parse("SIGLIP_MAX_PENDING_TEXT_REQUESTS", "0")
            .expect("zero is a valid pending-request limit");

    assert_eq!(maximum_pending_requests.get(), 0);
}

#[test]
fn ports_are_decimal_numbers_within_sixteen_bits() {
    for (text, port) in [("1", 1_u16), ("+8000", 8000), ("00443", 443), ("65535", 65535)] {
        assert_eq!(ServicePort::parse("SIGLIP_PORT", text).unwrap().get(), port);
    }
    for text in ["", "+", "-1", "++1", " 80", "80 ", "8_0", "0x50", "65536", "\u{0661}"] {
        let error = ServicePort::parse("SIGLIP_PORT", text).unwrap_err();
        assert!(matches!(&error, SettingError::NotATcpPort { .. }));
        assert_eq!(error.message(), "SIGLIP_PORT must be a TCP port");
    }
}

#[test]
fn counts_are_decimal_numbers_within_the_machine_word() {
    let largest = usize::MAX.to_string();
    assert_eq!(PositiveCount::parse("X", &largest).unwrap().get(), usize::MAX);
    assert_eq!(NonNegativeCount::parse("X", "+007").unwrap().get(), 7);
    let beyond = format!("{largest}0");
    assert_eq!(
        PositiveCount::parse("X", &beyond).unwrap_err().message(),
        "X must be a positive integer"
    );
    assert_eq!(
        NonNegativeCount::parse("X", "-0").unwrap_err().message(),
        "X must be a non-negative integer"
    );
}

#[test]
fn variables_are_trimmed_and_blank_ones_are_unset() {
    assert_eq!(read_nonempty(&setting("\t 12\u{3000}\n")), setting("12"));
    assert_eq!(read_nonempty(&setting("a b")), setting("a b"));
    assert_eq!(read_nonempty(&setting(" \u{a0}\u{2003}\u{85}\r\n")), None);
    assert_eq!(read_nonempty(&setting("\u{200b}")), setting("\u{200b}"));
    assert_eq!(read_nonempty(&setting("")), None);
    assert_eq!(read_nonempty(&None), None);
}

#[test]
fn defaults_are_used_for_blank_variables() {
    let port = ServicePort::from_environment("SIGLIP_PORT", &setting("  "), 8000).unwrap();
    assert_eq!(port.get(), 8000);
    let threads = PositiveCount::from_environment("X", &None, 3).unwrap();
    assert_eq!(threads.get(), 3);
    let pending = NonNegativeCount::from_environment("X", &None, 0).unwrap();
    assert_eq!(pending.get(), 0);
    let pending = NonNegativeCount::from_environment("X", &setting(" 5"), 0).unwrap();
    assert_eq!(pending.get(), 5);
    let name = OnnxOutputName::from_environment("X", &setting(" pooled "), "text_embeds").unwrap();
    assert_eq!(name.as_str(), "pooled");
    assert_eq!(
        OnnxOutputName::parse("X", String::new()).unwrap_err().message(),
        "X must be a non-empty ONNX output name"
    );
    assert_eq!(
        PositiveCount::from_environment("X", &None, 0).unwrap_err().message(),
        "X must be greater than zero"
    );
}

#[test]
fn artifact_paths_are_required_files() {
    let missing = FileVariable {
        value: setting(" "),
        is_file: true,
    };
    assert_eq!(
        ExistingFilePath::from_environment("P", &missing).unwrap_err().message(),
        "P is required"
    );
    let absent = FileVariable {
        value: setting(" /nowhere "),
        is_file: false,
    };
    assert_eq!(
        ExistingFilePath::from_environment("P", &absent).unwrap_err().message(),
        "P must name a readable file, got /nowhere"
    );
    let present = ExistingFilePath::from_environment("P", &file(" /here ")).unwrap();
    assert_eq!(present.as_path(), "/here");
}

#[test]
fn model_identities_are_trimmed_and_checked() {
    assert_eq!(ModelIdentifier::parse(" a/b\n".to_owned()).unwrap().as_str(), "a/b");
    assert_eq!(
        ModelIdentifier::parse(" \t".to_owned()).unwrap_err().message(),
        "model manifest repository must be non-empty"
    );
    let mixed = "0123456789ABCDEFabcdef0123456789abcdefAB";
    assert_eq!(ModelRevision::parse(format!(" {mixed} ")).unwrap().as_str(), mixed);
    for invalid in [
        "main".to_owned(),
        mixed[1..].to_owned(),
        format!("{mixed}0"),
        mixed.replace('A', "G"),
        mixed.replace('A', "\u{ff21}"),
        "\u{e9}".repeat(20),
        "\u{e9}".repeat(40),
    ] {
        assert_eq!(
            ModelRevision::parse(invalid).unwrap_err().message(),
            "model manifest revision must be a 40-character hexadecimal commit SHA"
        );
    }
}

#[test]
fn a_minimal_environment_gives_the_defaults() {
    let config = ServiceConfig::from_environment(minimal_environment()).unwrap().clone();
    assert_eq!(config.port(), 8000);
    assert_eq!(config.model_path(), "/models/text_model.onnx");
    assert_eq!(config.tokenizer_path(), "/models/tokenizer.json");
    assert_eq!(
        config.onnx_runtime_library_path(),
        "/opt/onnxruntime/lib/libonnxruntime.so"
    );
    assert_eq!(config.output_name(), "text_embeds");
    assert_eq!(config.maximum_batch_size(), 32);
    assert_eq!(config.session_count(), 1);
    assert_eq!(config.intra_operation_threads(), 1);
    assert_eq!(config.maximum_pending_requests(), 32);
    assert_eq!(config.model_id(), "organization/siglip-model");
    assert_eq!(
        config.model_revision(),
        "0123456789abcdef0123456789abcdef01234567"
    );
    assert_eq!(config.embedding_dimension(), 1152);
    assert_eq!(config.text_max_token_length(), 64);
}

#[test]
fn every_variable_reaches_its_setting() {
    let mut environment = minimal_environment();
    environment.port = setting(" 9001 ");
    environment.onnx_output_name = setting("pooled");
    environment.max_text_batch_size = setting("16");
    environment.ort_session_count = setting("3");
    environment.ort_intra_op_threads = setting("4");
    environment.max_pending_text_requests = setting("0");
    let config = ServiceConfig::from_environment(environment).unwrap();
    assert_eq!(config.port(), 9001);
    assert_eq!(config.output_name(), "pooled");
    assert_eq!(config.maximum_batch_size(), 16);
    assert_eq!(config.session_count(), 3);
    assert_eq!(config.intra_operation_threads(), 4);
    assert_eq!(config.maximum_pending_requests(), 0);
}

#[test]
fn the_first_invalid_setting_decides_the_error() {
    let mut environment = minimal_environment();
    environment.port = setting("http");
    environment.ort_session_count = setting("none");
    assert_eq!(configuration_error(environment), "SIGLIP_PORT must be a TCP port");

    let mut environment = minimal_environment();
    environment.model_manifest_path.value = None;
    environment.port = setting("http");
    assert_eq!(
        configuration_error(environment),
        "SIGLIP_MODEL_MANIFEST_PATH is required"
    );

    let mut environment = minimal_environment();
    environment.tokenizer_path.is_file = false;
    environment.max_text_batch_size = setting("0");
    assert_eq!(
        configuration_error(environment),
        "SIGLIP_TOKENIZER_PATH must name a readable file, got /models/tokenizer.json"
    );

    let mut environment = minimal_environment();
    environment.max_text_batch_size = setting("0");
    assert_eq!(
        configuration_error(environment),
        "SIGLIP_MAX_TEXT_BATCH_SIZE must be greater than zero"
    );
}

#[test]
fn manifest_failures_name_the_manifest() {
    let mut environment = minimal_environment();
    environment.manifest = ManifestReading::Unreadable;
    assert_eq!(
        configuration_error(environment),
        "reading model manifest /models/contract.json"
    );

    let mut environment = minimal_environment();
    environment.manifest = ManifestReading::Malformed;
    let error = ServiceConfig::from_environment(environment).unwrap_err();
    assert_eq!(error.message(), "validating model manifest /models/contract.json");
    let ConfigError::InvalidManifest { cause, .. } = error else {
        panic!("a malformed manifest is an invalid manifest");
    };
    assert_eq!(cause.message(), "parsing model manifest JSON");

    let mut document = manifest_document(VALID_MODEL_MANIFEST);
    document.text_max_token_length = 0;
    let mut environment = minimal_environment();
    environment.manifest = ManifestReading::Document(document);
    let error = ServiceConfig::from_environment(environment).unwrap_err();
    let ConfigError::InvalidManifest { cause, .. } = error else {
        panic!("a zero length is an invalid manifest");
    };
    assert_eq!(
        cause.message(),
        "model manifest text_max_token_length must be greater than zero"
    );
}
