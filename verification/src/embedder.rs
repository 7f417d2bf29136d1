//! The loaded service: from a request to the graph and from the graph to the
//! response. Running the graph itself happens outside.
use tokenizers::Encoding;
use vstd::prelude::*;

use crate::admission::{
    most_permits, permit_limit, AdmissionCapacityOverflow, InferenceAdmission,
    InferenceAdmissionController, InferenceAdmissionPermit,
};
use crate::batch::{
    admitted_batches_are_bounded, first_empty_at, has_empty, TextEmbeddingBatch,
    TextEmbeddingBatchView, TextEmbeddingRequestRejection,
};
use crate::config::{ServiceConfig, ServiceConfigView};
use crate::failure::{
    error_for_execution, error_for_rejection, HttpErrorView, InferenceFailure,
    OpenAiEmbeddingHttpError, OpenAiEmbeddingHttpErrorKind, TextEmbeddingExecutionError,
    TextEmbeddingOperationError,
};
use crate::prepared::{
    all_fit, encoded_rows, encoded_rows_hold_their_encoding, first_unknown, joined,
    knows_sequences, knows_tokens, mask_rows, padded_rows, prepare_encoded_batch,
    prepare_token_id_batch, retained, token_rows_hold_their_sequence,
    used_tokens_are_the_attended_ones, EncodingField, EncodingLengthMismatch,
    PreparedTextEmbeddingBatch,
};
use crate::request::{
    OpenAiEmbeddingEncodingFormat, OpenAiEmbeddingInput, OpenAiEmbeddingRequest,
    ValidatedOpenAiEmbeddingRequest,
};
use crate::response::{
    base64_bytes, base64_reads_back, base64_responses_preserve_vectors, base64_text,
    embedding_bytes, embedding_of_bytes, fits_base64, OpenAiEmbeddingResponse,
    OpenAiEmbeddingValues, TextEmbeddingBatchOutput,
};
use crate::tokenizer::{
    encoding_ids, encoding_mask, known_tokens, may_encode, may_fail, string_texts,
    FixedLengthTokenizer,
};

verus! {

/// The text that is embedded once before the service listens.
pub const STARTUP_PROBE: &'static str = "siglip startup contract probe";

/// What happens next while the service starts.
#[derive(Clone, Copy, Debug, PartialEq, Eq, Structural)]
pub enum StartupStep {
    /// Load one more session; the first one's graph is held to the contract.
    LoadSession { session_number: usize, validate_graph: bool },
    /// All sessions are there: run one inference.
    Probe,
}

/// The step after `loaded_sessions` of `session_count` sessions are loaded.
pub fn next_startup_step(loaded_sessions: usize, session_count: usize) -> (step: StartupStep)
    ensures
        step == if loaded_sessions < session_count {
            StartupStep::LoadSession {
                session_number: (loaded_sessions + 1) as usize,
                validate_graph: loaded_sessions == 0,
            }
        } else {
            StartupStep::Probe
        },
{
    if loaded_sessions < session_count {
        StartupStep::LoadSession {
            session_number: loaded_sessions + 1,
            validate_graph: loaded_sessions == 0,
        }
    } else {
        StartupStep::Probe
    }
}

/// What an admission attempt means for a request.
pub fn settle_admission(admission: InferenceAdmission) -> (result: Result<
    InferenceAdmissionPermit,
    TextEmbeddingExecutionError,
>)
    ensures
        result == match admission {
            InferenceAdmission::Admitted(permit) => Ok::<_, TextEmbeddingExecutionError>(permit),
            InferenceAdmission::Saturated => Err(TextEmbeddingExecutionError::Saturated),
        },
{
    match admission {
        InferenceAdmission::Admitted(permit) => Ok(permit),
        InferenceAdmission::Saturated => Err(TextEmbeddingExecutionError::Saturated),
    }
}

/// That the tokenizer may encode the texts as these encodings, one each and in
/// their order.
pub open spec fn encodes_texts(
    tokenizer: FixedLengthTokenizer,
    texts: Seq<String>,
    encodings: Seq<Encoding>,
) -> bool {
    &&& encodings.len() == texts.len()
    &&& forall|i: int|
        0 <= i < texts.len() ==> may_encode(
            tokenizer.inner(),
            texts[i]@,
            true,
            Ok((encoding_ids(#[trigger] encodings[i]), encoding_mask(encodings[i]))),
        )
}

/// That a prepared batch lays these encodings out.
pub open spec fn lays_out(
    prepared: PreparedTextEmbeddingBatch,
    encodings: Seq<Encoding>,
    token_length: usize,
) -> bool {
    &&& prepared.batch_size == encodings.len()
    &&& all_fit(encodings, EncodingField::TokenIds, token_length)
    &&& all_fit(encodings, EncodingField::AttentionMasks, token_length)
    &&& prepared.input_ids@ == joined(encoded_rows(encodings, EncodingField::TokenIds))
    &&& prepared.attention_mask@ == joined(encoded_rows(encodings, EncodingField::AttentionMasks))
}

/// That the first encoding of the wrong length is the mismatch: token IDs are
/// looked at before masks.
pub open spec fn misfits(
    mismatch: EncodingLengthMismatch,
    encodings: Seq<Encoding>,
    token_length: usize,
) -> bool {
    ||| mismatch.is_first_in(encodings, EncodingField::TokenIds, token_length)
    ||| {
        &&& all_fit(encodings, EncodingField::TokenIds, token_length)
        &&& mismatch.is_first_in(encodings, EncodingField::AttentionMasks, token_length)
    }
}

/// The loaded tokenizer and the limits of the service.
pub struct OnnxTextEmbedder {
    config: ServiceConfig,
    tokenizer: FixedLengthTokenizer,
    admission_controller: InferenceAdmissionController,
}

impl OnnxTextEmbedder {
    #[verifier::type_invariant]
    spec fn consistent(self) -> bool {
        &&& self.tokenizer.spec_token_length() == self.config@.model_contract.text_max_token_length
        &&& self.admission_controller.capacity() == self.config@.session_count
            + self.config@.maximum_pending_requests
    }

    pub closed spec fn settings(self) -> ServiceConfigView {
        self.config@
    }

    pub closed spec fn spec_tokenizer(self) -> FixedLengthTokenizer {
        self.tokenizer
    }

    pub closed spec fn spec_admission_controller(self) -> InferenceAdmissionController {
        self.admission_controller
    }

    /// A service with this configuration, whose tokenizer is set up for the
    /// length that the model takes.
    pub fn load(config: ServiceConfig, tokenizer: FixedLengthTokenizer) -> (result: Result<
        OnnxTextEmbedder,
        AdmissionCapacityOverflow,
    >)
        requires
            tokenizer.spec_token_length() == config@.model_contract.text_max_token_length,
            config@.session_count + config@.maximum_pending_requests <= most_permits()
                || config@.session_count + config@.maximum_pending_requests > usize::MAX,
        ensures
            match result {
                Ok(embedder) => {
                    &&& embedder.settings() == config@
                    &&& embedder.spec_tokenizer() == tokenizer
                    &&& config@.session_count + config@.maximum_pending_requests <= usize::MAX
                    &&& embedder.spec_admission_controller().capacity() == config@.session_count
                        + config@.maximum_pending_requests
                },
                Err(_) => config@.session_count + config@.maximum_pending_requests > usize::MAX,
            },
    {
        match InferenceAdmissionController::new(
            config.session_count(),
            config.maximum_pending_requests(),
        ) {
            Ok(admission_controller) => Ok(
                OnnxTextEmbedder { config, tokenizer, admission_controller },
            ),
            Err(overflow) => Err(overflow),
        }
    }

    pub fn config(&self) -> (config: &ServiceConfig)
        ensures
            config@ == self.settings(),
    {
        &self.config
    }

    /// The batch that is embedded once before the service listens. It is always
    /// within the limit.
    pub fn startup_probe(&self) -> (result: Result<
        TextEmbeddingBatch,
        TextEmbeddingRequestRejection,
    >)
        ensures
            result matches Ok(TextEmbeddingBatch::Texts(texts)) && texts@.len() == 1
                && texts@[0]@ == STARTUP_PROBE@,
    {
        TextEmbeddingBatch::from_texts(
            vec![STARTUP_PROBE.to_owned()],
            self.config.maximum_batch_size(),
        )
    }

    /// Takes a slot for one request, or reports saturation. It is reported only
    /// where the semaphore refused a slot in this very attempt.
    pub fn take_slot(&self) -> (result: Result<InferenceAdmissionPermit, TextEmbeddingExecutionError>)
        ensures
            match result {
                Ok(permit) => {
                    &&& permit.source() == self.spec_admission_controller().slots()
                    &&& self.spec_admission_controller().answered(Some(permit.request_slot()))
                },
                Err(error) => {
                    &&& error is Saturated
                    &&& self.spec_admission_controller().answered(None)
                },
            },
            exists|admission: InferenceAdmission| #[trigger]
                call_ensures(
                    InferenceAdmissionController::try_admit,
                    (&self.spec_admission_controller(),),
                    admission,
                ) && match admission {
                    InferenceAdmission::Admitted(permit) => result == Ok::<
                        _,
                        TextEmbeddingExecutionError,
                    >(permit),
                    InferenceAdmission::Saturated => result == Err::<InferenceAdmissionPermit, _>(
                        TextEmbeddingExecutionError::Saturated,
                    ),
                },
    {
        settle_admission(self.admission_controller.try_admit())
    }

    /// Holds what came over HTTP to the served model. `request` is the request,
    /// or the words for a body that is none.
    pub fn accept_request(&self, request: Result<OpenAiEmbeddingRequest, String>) -> (result: Result<
        ValidatedOpenAiEmbeddingRequest,
        OpenAiEmbeddingHttpError,
    >)
        ensures
            match request {
                Err(body_text) => result matches Err(error) && error@ == HttpErrorView::Validation(
                    body_text@,
                ),
                Ok(request) => match request.validated(
                    self.settings().model_contract.model_id,
                    self.settings().model_contract.embedding_dimension,
                    self.settings().maximum_batch_size,
                ) {
                    Ok(batch) => result matches Ok(validated) && validated.text_batch@ == batch
                        && validated.encoding_format == request.encoding_format,
                    Err(rejection) => result matches Err(error) && error@ == error_for_rejection(
                        rejection,
                    ),
                },
            },
    {
        let request = match request {
            Ok(request) => request,
            Err(body_text) => return Err(OpenAiEmbeddingHttpError::invalid_json(body_text)),
        };
        match request.into_validated_request(
            self.config.model_id(),
            self.config.embedding_dimension(),
            self.config.maximum_batch_size(),
        ) {
            Ok(validated) => Ok(validated),
            Err(rejection) => Err(OpenAiEmbeddingHttpError::from(rejection)),
        }
    }

    /// Lays a batch out for the graph. Texts are tokenized first.
    pub fn prepare_text_embedding_batch(&self, text_batch: TextEmbeddingBatch) -> (result: Result<
        PreparedTextEmbeddingBatch,
        TextEmbeddingOperationError,
    >)
        ensures
            result matches Ok(prepared) ==> {
                &&& prepared.batch_size == text_batch@.size()
                &&& prepared.fills(self.settings().model_contract.text_max_token_length)
            },
            text_batch matches TextEmbeddingBatch::Texts(texts) ==> match result {
                Ok(prepared) => exists|encodings: Seq<Encoding>| #[trigger]
                    encodes_texts(self.spec_tokenizer(), texts@, encodings) && lays_out(
                        prepared,
                        encodings,
                        self.settings().model_contract.text_max_token_length,
                    ),
                Err(
                    TextEmbeddingOperationError::Inference(InferenceFailure::Tokenization(detail)),
                ) => may_fail(
                    self.spec_tokenizer().inner(),
                    string_texts(texts@),
                    true,
                    detail@,
                ),
                Err(
                    TextEmbeddingOperationError::Inference(InferenceFailure::EncodingLength(mismatch)),
                ) => exists|encodings: Seq<Encoding>| #[trigger]
                    encodes_texts(self.spec_tokenizer(), texts@, encodings) && misfits(
                        mismatch,
                        encodings,
                        self.settings().model_contract.text_max_token_length,
                    ),
                Err(_) => false,
            },
            text_batch matches TextEmbeddingBatch::TokenIds(token_sequences) ==> {
                let known = known_tokens(self.spec_tokenizer().inner());
                let token_length = self.settings().model_contract.text_max_token_length;
                match result {
                    Ok(prepared) => {
                        &&& knows_sequences(known, token_sequences@, token_sequences@.len() as int)
                        &&& prepared.input_ids@ == joined(
                            padded_rows(
                                token_sequences@,
                                token_length,
                                self.spec_tokenizer().spec_pad_token_id(),
                            ),
                        )
                        &&& prepared.attention_mask@ == joined(
                            mask_rows(token_sequences@, token_length),
                        )
                        &&& prepared.input_token_count == retained(token_sequences@, token_length)
                    },
                    Err(
                        TextEmbeddingOperationError::Rejected(
                            TextEmbeddingRequestRejection::UnknownTokenId { input_index, token_id },
                        ),
                    ) => first_unknown(known, token_sequences@, input_index as int, token_id),
                    Err(_) => false,
                }
            },
    {
        proof {
            use_type_invariant(self);
        }
        match text_batch {
            TextEmbeddingBatch::Texts(texts) => {
                let encodings = match self.tokenizer.encode(&texts) {
                    Ok(encodings) => encodings,
                    Err(detail) => return Err(
                        TextEmbeddingOperationError::Inference(
                            InferenceFailure::Tokenization(detail),
                        ),
                    ),
                };
                let token_length: usize = self.config.text_max_token_length();
                assert(encodes_texts(self.spec_tokenizer(), texts@, encodings@));
                match prepare_encoded_batch(&encodings, token_length) {
                    Ok(prepared) => {
                        assert(lays_out(prepared, encodings@, token_length));
                        Ok(prepared)
                    },
                    Err(mismatch) => {
                        assert(misfits(mismatch, encodings@, token_length));
                        Err(
                            TextEmbeddingOperationError::Inference(
                                InferenceFailure::EncodingLength(mismatch),
                            ),
                        )
                    },
                }
            },
            TextEmbeddingBatch::TokenIds(token_sequences) => {
                match prepare_token_id_batch(&self.tokenizer, &token_sequences) {
                    Ok(prepared) => Ok(prepared),
                    Err(rejection) => Err(TextEmbeddingOperationError::Rejected(rejection)),
                }
            },
        }
    }

    /// Answers a valid request, given what became of its batch.
    pub fn answer_request(
        &self,
        outcome: Result<TextEmbeddingBatchOutput, TextEmbeddingExecutionError>,
        encoding_format: OpenAiEmbeddingEncodingFormat,
    ) -> (result: Result<OpenAiEmbeddingResponse, OpenAiEmbeddingHttpError>)
        requires
            outcome matches Ok(output) ==> encoding_format is Base64 ==> forall|i: int|
                0 <= i < output.embeddings@.len() ==> fits_base64(
                    (#[trigger] output.embeddings@[i])@.len(),
                ),
        ensures
            match outcome {
                Err(failure) => result matches Err(error) && error@ == error_for_execution(failure),
                Ok(output) => result matches Ok(response) && {
                    &&& response.object@ == "list"@
                    &&& response.model@ == self.settings().model_contract.model_id
                    &&& response.usage.prompt_tokens == output.input_token_count
                    &&& response.usage.total_tokens == output.input_token_count
                    &&& response.data@.len() == output.embeddings@.len()
                    &&& forall|i: int|
                        0 <= i < response.data@.len() ==> {
                            &&& (#[trigger] response.data@[i]).index == i
                            &&& response.data@[i].object@ == "embedding"@
                            &&& response.data@[i].embedding.encodes(
                                output.embeddings@[i]@,
                                encoding_format,
                            )
                        }
                },
            },
    {
        match outcome {
            Ok(output) => Ok(
                OpenAiEmbeddingResponse::from_embedding_batch(
                    output,
                    encoding_format,
                    self.config.model_id(),
                ),
            ),
            Err(failure) => Err(OpenAiEmbeddingHttpError::from(failure)),
        }
    }
}

/// A request gets a slot, or is reported as one too many, as its attempt to be
/// admitted came out: nothing else turns it away.
pub proof fn requests_are_turned_away_only_by_admission(
    embedder: &OnnxTextEmbedder,
    result: Result<InferenceAdmissionPermit, TextEmbeddingExecutionError>,
)
    requires
        call_ensures(OnnxTextEmbedder::take_slot, (embedder,), result),
    ensures
        exists|admission: InferenceAdmission| #[trigger]
            call_ensures(
                InferenceAdmissionController::try_admit,
                (&embedder.spec_admission_controller(),),
                admission,
            ) && match (admission, result) {
                (InferenceAdmission::Admitted(permit), Ok(granted)) => granted == permit,
                (InferenceAdmission::Saturated, Err(error)) => error is Saturated,
                _ => false,
            },
{
}

/// Every session is loaded in its turn, only the first one's graph is held to the
/// contract, and the probe comes when all are there.
pub proof fn sessions_are_loaded_in_turn(
    loaded_sessions: usize,
    session_count: usize,
    step: StartupStep,
)
    requires
        call_ensures(next_startup_step, (loaded_sessions, session_count), step),
    ensures
        step is Probe <==> loaded_sessions >= session_count,
        step matches StartupStep::LoadSession { session_number, validate_graph } ==> {
            &&& session_number == loaded_sessions + 1
            &&& validate_graph <==> session_number == 1
        },
{
}

/// A service runs with the configuration and the tokenizer that it is given, and
/// has a slot for each session and each request that may wait.
pub proof fn services_run_as_configured(
    config: ServiceConfig,
    tokenizer: FixedLengthTokenizer,
    result: Result<OnnxTextEmbedder, AdmissionCapacityOverflow>,
)
    requires
        call_ensures(OnnxTextEmbedder::load, (config, tokenizer), result),
    ensures
        result is Ok <==> config@.session_count + config@.maximum_pending_requests <= usize::MAX,
        result matches Ok(embedder) ==> {
            &&& embedder.settings() == config@
            &&& embedder.spec_tokenizer() == tokenizer
            &&& permit_limit(embedder.spec_admission_controller().slots())
                == config@.session_count + config@.maximum_pending_requests
        },
{
}

/// The first thing that a service embeds is one text of its own.
pub proof fn services_probe_themselves(
    embedder: &OnnxTextEmbedder,
    result: Result<TextEmbeddingBatch, TextEmbeddingRequestRejection>,
)
    requires
        call_ensures(OnnxTextEmbedder::startup_probe, (embedder,), result),
    ensures
        result matches Ok(TextEmbeddingBatch::Texts(texts)) && texts@.len() == 1 && texts@[0]@
            == "siglip startup contract probe"@,
{
}

/// Texts are laid out as the tokenizer encodes them: row `i` holds the token IDs
/// and the mask of an encoding that text `i` may have, special tokens included, and
/// the tokens used are those that are attended to.
pub proof fn texts_are_laid_out_as_encoded(
    embedder: &OnnxTextEmbedder,
    texts: Vec<String>,
    prepared: PreparedTextEmbeddingBatch,
)
    requires
        call_ensures(
            OnnxTextEmbedder::prepare_text_embedding_batch,
            (embedder, TextEmbeddingBatch::Texts(texts)),
            Ok(prepared),
        ),
    ensures
        ({
            let token_length = embedder.settings().model_contract.text_max_token_length;
            &&& prepared.batch_size == texts@.len()
            &&& prepared.input_ids@.len() == texts@.len() * token_length
            &&& prepared.attention_mask@.len() == texts@.len() * token_length
            &&& prepared.input_token_count == prepared.attention_mask@.filter(
                |value: i64| value != 0,
            ).len()
            &&& exists|encodings: Seq<Encoding>|
                {
                    &&& #[trigger] encodings.len() == texts@.len()
                    &&& forall|i: int|
                        0 <= i < texts@.len() ==> {
                            &&& #[trigger] may_encode(
                                embedder.spec_tokenizer().inner(),
                                texts@[i]@,
                                true,
                                Ok((encoding_ids(encodings[i]), encoding_mask(encodings[i]))),
                            )
                            &&& encoding_ids(encodings[i]).len() == token_length
                            &&& encoding_mask(encodings[i]).len() == token_length
                        }
                    &&& forall|i: int, j: int|
                        #![trigger prepared.input_ids@[i * token_length + j]]
                        #![trigger prepared.attention_mask@[i * token_length + j]]
                        0 <= i < texts@.len() && 0 <= j < token_length ==> {
                            let place = i * token_length + j;
                            &&& prepared.input_ids@[place] == encoding_ids(encodings[i])[j]
                            &&& prepared.attention_mask@[place] == encoding_mask(encodings[i])[j]
                        }
                }
        }),
{
    let token_length = embedder.settings().model_contract.text_max_token_length;
    let tokenizer = embedder.spec_tokenizer();
    let encodings = choose|encodings: Seq<Encoding>| #[trigger]
        encodes_texts(tokenizer, texts@, encodings) && lays_out(prepared, encodings, token_length);
    assert(encodes_texts(tokenizer, texts@, encodings) && lays_out(
        prepared,
        encodings,
        token_length,
    ));
    assert forall|i: int| 0 <= i < texts@.len() implies {
        &&& #[trigger] may_encode(
            tokenizer.inner(),
            texts@[i]@,
            true,
            Ok((encoding_ids(encodings[i]), encoding_mask(encodings[i]))),
        )
        &&& encoding_ids(encodings[i]).len() == token_length
        &&& encoding_mask(encodings[i]).len() == token_length
    } by {
        assert(EncodingField::TokenIds.of(encodings[i]).len() == token_length);
        assert(EncodingField::AttentionMasks.of(encodings[i]).len() == token_length);
    }
    assert forall|i: int, j: int|
        #![trigger prepared.input_ids@[i * token_length + j]]
        #![trigger prepared.attention_mask@[i * token_length + j]]
        0 <= i < texts@.len() && 0 <= j < token_length implies ({
        let place = i * token_length + j;
        &&& prepared.input_ids@[place] == encoding_ids(encodings[i])[j]
        &&& prepared.attention_mask@[place] == encoding_mask(encodings[i])[j]
    }) by {
        encoded_rows_hold_their_encoding(encodings, EncodingField::TokenIds, token_length, i, j);
        encoded_rows_hold_their_encoding(
            encodings,
            EncodingField::AttentionMasks,
            token_length,
            i,
            j,
        );
    }
    used_tokens_are_the_attended_ones(prepared.attention_mask@);
}

/// Token sequences are laid out as they are, whatever the tokenizer would make of
/// a text: row `i` holds the first tokens of sequence `i`, all known, and then the
/// pad token.
pub proof fn token_sequences_are_laid_out_as_given(
    embedder: &OnnxTextEmbedder,
    token_sequences: Vec<Vec<u32>>,
    prepared: PreparedTextEmbeddingBatch,
)
    requires
        call_ensures(
            OnnxTextEmbedder::prepare_text_embedding_batch,
            (embedder, TextEmbeddingBatch::TokenIds(token_sequences)),
            Ok(prepared),
        ),
    ensures
        ({
            let token_length = embedder.settings().model_contract.text_max_token_length;
            &&& prepared.batch_size == token_sequences@.len()
            &&& prepared.input_ids@.len() == token_sequences@.len() * token_length
            &&& prepared.attention_mask@.len() == token_sequences@.len() * token_length
            &&& prepared.input_token_count == prepared.attention_mask@.filter(
                |value: i64| value != 0,
            ).len()
            &&& forall|i: int, j: int|
                0 <= i < token_sequences@.len() && 0 <= j < token_sequences@[i]@.len()
                    ==> known_tokens(embedder.spec_tokenizer().inner()).contains_key(
                    #[trigger] token_sequences@[i]@[j],
                )
            &&& forall|i: int, j: int|
                #![trigger prepared.input_ids@[i * token_length + j]]
                #![trigger prepared.attention_mask@[i * token_length + j]]
                0 <= i < token_sequences@.len() && 0 <= j < token_length ==> {
                    let place = i * token_length + j;
                    if j < token_sequences@[i]@.len() {
                        &&& prepared.input_ids@[place] == token_sequences@[i]@[j]
                        &&& prepared.attention_mask@[place] == 1
                    } else {
                        &&& prepared.input_ids@[place]
                            == embedder.spec_tokenizer().spec_pad_token_id()
                        &&& prepared.attention_mask@[place] == 0
                    }
                }
        }),
{
    let token_length = embedder.settings().model_contract.text_max_token_length;
    let pad_token_id = embedder.spec_tokenizer().spec_pad_token_id();
    let known = known_tokens(embedder.spec_tokenizer().inner());
    assert forall|i: int, j: int|
        0 <= i < token_sequences@.len() && 0 <= j < token_sequences@[i]@.len() implies known.contains_key(
    #[trigger] token_sequences@[i]@[j]) by {
        assert(knows_tokens(known, token_sequences@[i]@, token_sequences@[i]@.len() as int));
    }
    assert forall|i: int, j: int|
        #![trigger prepared.input_ids@[i * token_length + j]]
        #![trigger prepared.attention_mask@[i * token_length + j]]
        0 <= i < token_sequences@.len() && 0 <= j < token_length implies ({
        let place = i * token_length + j;
        if j < token_sequences@[i]@.len() {
            &&& prepared.input_ids@[place] == token_sequences@[i]@[j]
            &&& prepared.attention_mask@[place] == 1
        } else {
            &&& prepared.input_ids@[place] == pad_token_id
            &&& prepared.attention_mask@[place] == 0
        }
    }) by {
        token_rows_hold_their_sequence(token_sequences@, token_length, pad_token_id, i, j);
    }
    used_tokens_are_the_attended_ones(prepared.attention_mask@);
}

/// A batch that cannot be laid out fails for a reason: texts where the tokenizer
/// fails on one or gives an encoding of another length, token sequences for the
/// first token that is not known.
pub proof fn batches_fail_for_a_reason(
    embedder: &OnnxTextEmbedder,
    text_batch: TextEmbeddingBatch,
    error: TextEmbeddingOperationError,
)
    requires
        call_ensures(
            OnnxTextEmbedder::prepare_text_embedding_batch,
            (embedder, text_batch),
            Err(error),
        ),
    ensures
        ({
            let tokenizer = embedder.spec_tokenizer().inner();
            let token_length = embedder.settings().model_contract.text_max_token_length;
            match (text_batch, error) {
                (
                    TextEmbeddingBatch::Texts(texts),
                    TextEmbeddingOperationError::Inference(InferenceFailure::Tokenization(detail)),
                ) => exists|i: int|
                    0 <= i < texts@.len() && may_encode(
                        tokenizer,
                        (#[trigger] texts@[i])@,
                        true,
                        Err(detail@),
                    ),
                (
                    TextEmbeddingBatch::Texts(texts),
                    TextEmbeddingOperationError::Inference(
                        InferenceFailure::EncodingLength(mismatch),
                    ),
                ) => {
                    &&& mismatch.input_index < texts@.len()
                    &&& mismatch.expected_count == token_length
                    &&& mismatch.actual_count != token_length
                    &&& exists|ids: Seq<u32>, mask: Seq<u32>|
                        {
                            &&& #[trigger] may_encode(
                                tokenizer,
                                texts@[mismatch.input_index as int]@,
                                true,
                                Ok((ids, mask)),
                            )
                            &&& mismatch.actual_count == match mismatch.field {
                                EncodingField::TokenIds => ids.len(),
                                EncodingField::AttentionMasks => mask.len(),
                            }
                        }
                },
                (
                    TextEmbeddingBatch::TokenIds(token_sequences),
                    TextEmbeddingOperationError::Rejected(
                        TextEmbeddingRequestRejection::UnknownTokenId { input_index, token_id },
                    ),
                ) => {
                    &&& input_index < token_sequences@.len()
                    &&& !known_tokens(tokenizer).contains_key(token_id)
                    &&& token_sequences@[input_index as int]@.contains(token_id)
                    &&& forall|i: int, j: int|
                        0 <= i < input_index && 0 <= j < token_sequences@[i]@.len()
                            ==> known_tokens(tokenizer).contains_key(
                            #[trigger] token_sequences@[i]@[j],
                        )
                },
                _ => false,
            }
        }),
{
    let tokenizer = embedder.spec_tokenizer();
    let token_length = embedder.settings().model_contract.text_max_token_length;
    match (text_batch, error) {
        (
            TextEmbeddingBatch::Texts(texts),
            TextEmbeddingOperationError::Inference(InferenceFailure::Tokenization(detail)),
        ) => {
            let views = string_texts(texts@);
            let i = choose|i: int|
                0 <= i < views.len() && may_encode(
                    tokenizer.inner(),
                    #[trigger] views[i],
                    true,
                    Err(detail@),
                );
            assert(views[i] == texts@[i]@);
        },
        (
            TextEmbeddingBatch::Texts(texts),
            TextEmbeddingOperationError::Inference(InferenceFailure::EncodingLength(mismatch)),
        ) => {
            let encodings = choose|encodings: Seq<Encoding>| #[trigger]
                encodes_texts(tokenizer, texts@, encodings) && misfits(
                    mismatch,
                    encodings,
                    token_length,
                );
            assert(encodes_texts(tokenizer, texts@, encodings) && misfits(
                mismatch,
                encodings,
                token_length,
            ));
            let encoding = encodings[mismatch.input_index as int];
            assert(may_encode(
                tokenizer.inner(),
                texts@[mismatch.input_index as int]@,
                true,
                Ok((encoding_ids(encoding), encoding_mask(encoding))),
            ));
        },
        (
            TextEmbeddingBatch::TokenIds(token_sequences),
            TextEmbeddingOperationError::Rejected(
                TextEmbeddingRequestRejection::UnknownTokenId { input_index, token_id },
            ),
        ) => {
            let known = known_tokens(tokenizer.inner());
            assert forall|i: int, j: int|
                0 <= i < input_index && 0 <= j < token_sequences@[i]@.len() implies known.contains_key(
            #[trigger] token_sequences@[i]@[j]) by {
                assert(knows_tokens(
                    known,
                    token_sequences@[i]@,
                    token_sequences@[i]@.len() as int,
                ));
            }
        },
        _ => {},
    }
}

/// A body that is no request is answered with its fault, and a request goes on, or
/// is answered with its rejection, as it fares with the served model, its own
/// dimension and the batch limit of the service.
pub proof fn requests_are_held_to_the_service(
    embedder: &OnnxTextEmbedder,
    request: Result<OpenAiEmbeddingRequest, String>,
    result: Result<ValidatedOpenAiEmbeddingRequest, OpenAiEmbeddingHttpError>,
)
    requires
        call_ensures(OnnxTextEmbedder::accept_request, (embedder, request), result),
    ensures
        match (request, result) {
            (Err(body_text), Err(error)) => error.0 matches OpenAiEmbeddingHttpErrorKind::Validation(
                message,
            ) && message@ == body_text@,
            (Err(_), Ok(_)) => false,
            (Ok(asked), Ok(validated)) => {
                let contract = embedder.settings().model_contract;
                let limit = embedder.settings().maximum_batch_size;
                &&& asked.model matches Some(model) ==> model@ == contract.model_id
                &&& asked.dimensions matches Some(dimension) ==> dimension
                    == contract.embedding_dimension
                &&& validated.encoding_format == asked.encoding_format
                &&& match (asked.input, validated.text_batch) {
                    (OpenAiEmbeddingInput::SingleText(text), TextEmbeddingBatch::Texts(taken)) =>
                        taken@ == seq![text],
                    (OpenAiEmbeddingInput::TextBatch(texts), TextEmbeddingBatch::Texts(taken)) => {
                        &&& taken@ == texts@
                        &&& 1 <= texts@.len() <= limit
                    },
                    (
                        OpenAiEmbeddingInput::SingleTokenSequence(token_ids),
                        TextEmbeddingBatch::TokenIds(taken),
                    ) => taken@ == seq![token_ids] && token_ids@.len() > 0,
                    (
                        OpenAiEmbeddingInput::TokenSequenceBatch(token_sequences),
                        TextEmbeddingBatch::TokenIds(taken),
                    ) => {
                        &&& taken@ == token_sequences@
                        &&& 1 <= token_sequences@.len() <= limit
                        &&& forall|i: int|
                            0 <= i < token_sequences@.len() ==> (
                            #[trigger] token_sequences@[i])@.len() > 0
                    },
                    _ => false,
                }
            },
            (Ok(asked), Err(error)) => {
                let contract = embedder.settings().model_contract;
                let limit = embedder.settings().maximum_batch_size;
                match error.0 {
                    OpenAiEmbeddingHttpErrorKind::Empty(_) => match asked.input {
                        OpenAiEmbeddingInput::TextBatch(texts) => texts@.len() == 0,
                        OpenAiEmbeddingInput::TokenSequenceBatch(token_sequences) =>
                            token_sequences@.len() == 0,
                        _ => false,
                    },
                    OpenAiEmbeddingHttpErrorKind::BatchTooLarge(_) => match asked.input {
                        OpenAiEmbeddingInput::TextBatch(texts) => texts@.len() > limit,
                        OpenAiEmbeddingInput::TokenSequenceBatch(token_sequences) =>
                            token_sequences@.len() > limit,
                        _ => limit < 1,
                    },
                    OpenAiEmbeddingHttpErrorKind::Validation(_) => {
                        ||| asked.model is Some && asked.model->0@ != contract.model_id
                        ||| asked.dimensions is Some && asked.dimensions->0
                            != contract.embedding_dimension
                        ||| match asked.input {
                            OpenAiEmbeddingInput::SingleTokenSequence(token_ids) => token_ids@.len()
                                == 0,
                            OpenAiEmbeddingInput::TokenSequenceBatch(token_sequences) =>
                                exists|i: int|
                                0 <= i < token_sequences@.len() && (
                                #[trigger] token_sequences@[i])@.len() == 0,
                            _ => false,
                        }
                    },
                    _ => false,
                }
            },
        },
{
    if let Ok(asked) = request {
        let limit = embedder.settings().maximum_batch_size;
        admitted_batches_are_bounded(asked.input@, limit);
        if let OpenAiEmbeddingInput::SingleTokenSequence(token_ids) = asked.input {
            assert(seq![token_ids][0] == token_ids);
        }
        if let TextEmbeddingBatchView::TokenIds(token_sequences) = asked.input@ {
            if has_empty(token_sequences) {
                let first = choose|index: int| first_empty_at(token_sequences, index);
                assert(token_sequences[first]@.len() == 0);
            }
        }
    }
}

/// A request whose batch was embedded is answered with every vector in its order,
/// under the served model; one whose batch was not, with the error for its failure.
pub proof fn outcomes_are_answered(
    embedder: &OnnxTextEmbedder,
    outcome: Result<TextEmbeddingBatchOutput, TextEmbeddingExecutionError>,
    encoding_format: OpenAiEmbeddingEncodingFormat,
    result: Result<OpenAiEmbeddingResponse, OpenAiEmbeddingHttpError>,
)
    requires
        call_ensures(
            OnnxTextEmbedder::answer_request,
            (embedder, outcome, encoding_format),
            result,
        ),
    ensures
        match (outcome, result) {
            (Ok(output), Ok(response)) => {
                &&& response.object@ == "list"@
                &&& response.model@ == embedder.settings().model_contract.model_id
                &&& response.usage.prompt_tokens == output.input_token_count
                &&& response.usage.total_tokens == output.input_token_count
                &&& response.data@.len() == output.embeddings@.len()
                &&& forall|i: int|
                    0 <= i < response.data@.len() ==> {
                        let entry = #[trigger] response.data@[i];
                        let embedding = output.embeddings@[i]@;
                        &&& entry.index == i
                        &&& entry.object@ == "embedding"@
                        &&& match entry.embedding {
                            OpenAiEmbeddingValues::Float(components) => {
                                &&& encoding_format is Float
                                &&& components@ == embedding
                            },
                            OpenAiEmbeddingValues::Base64(text) => {
                                &&& encoding_format is Base64
                                &&& embedding_of_bytes(base64_bytes(text@)) == embedding
                                &&& text@ == base64_text(base64_bytes(text@))
                            },
                        }
                    }
            },
            (Err(failure), Err(error)) => match (failure, error.0) {
                (
                    TextEmbeddingExecutionError::Saturated,
                    OpenAiEmbeddingHttpErrorKind::Overloaded,
                ) => true,
                (
                    TextEmbeddingExecutionError::Rejected(rejection),
                    OpenAiEmbeddingHttpErrorKind::Validation(message),
                ) => forall|text: String| #[trigger]
                    call_ensures(TextEmbeddingRequestRejection::message, (&rejection,), text)
                        ==> message@ == text@,
                (
                    TextEmbeddingExecutionError::Internal(cause),
                    OpenAiEmbeddingHttpErrorKind::Backend(kept),
                ) => kept == cause,
                _ => false,
            },
            _ => false,
        },
{
    if let (Ok(output), Ok(response)) = (outcome, result) {
        assert forall|i: int| 0 <= i < response.data@.len() implies ({
            let entry = #[trigger] response.data@[i];
            let embedding = output.embeddings@[i]@;
            &&& entry.index == i
            &&& entry.object@ == "embedding"@
            &&& match entry.embedding {
                OpenAiEmbeddingValues::Float(components) => {
                    &&& encoding_format is Float
                    &&& components@ == embedding
                },
                OpenAiEmbeddingValues::Base64(text) => {
                    &&& encoding_format is Base64
                    &&& embedding_of_bytes(base64_bytes(text@)) == embedding
                    &&& text@ == base64_text(base64_bytes(text@))
                },
            }
        }) by {
            let embedding = output.embeddings@[i]@;
            assert(response.data@[i].embedding.encodes(embedding, encoding_format));
            base64_responses_preserve_vectors(embedding);
            base64_reads_back(embedding_bytes(embedding));
        }
    }
}

/// An admitted request keeps its permit, and one that is not admitted is one too
/// many.
pub proof fn admissions_are_settled(
    admission: InferenceAdmission,
    result: Result<InferenceAdmissionPermit, TextEmbeddingExecutionError>,
)
    requires
        call_ensures(settle_admission, (admission,), result),
    ensures
        match (admission, result) {
            (InferenceAdmission::Admitted(permit), Ok(granted)) => granted == permit,
            (InferenceAdmission::Saturated, Err(error)) => error is Saturated,
            _ => false,
        },
{
}

} // verus!
