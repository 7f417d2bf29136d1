//! Embedding requests and what makes one valid.
use vstd::prelude::*;
use vstd::string::StringExecFns;

use crate::batch::{
    admitted_batches_are_bounded, empty_sequences_are_reported, first_empty_at, has_empty,
    TextEmbeddingBatch, TextEmbeddingBatchView, TextEmbeddingRequestRejection,
};
use crate::text::{decimal, quote, quoted, usize_to_string};

verus! {

/// How vectors are written in a response.
#[derive(Clone, Copy, Debug, PartialEq, Eq, Structural)]
pub enum OpenAiEmbeddingEncodingFormat {
    Float,
    Base64,
}

impl Default for OpenAiEmbeddingEncodingFormat {
    /// Requests that name no format get numbers.
    fn default() -> (format: OpenAiEmbeddingEncodingFormat)
        ensures
            format == OpenAiEmbeddingEncodingFormat::Float,
    {
        OpenAiEmbeddingEncodingFormat::Float
    }
}

/// The four shapes that an input may have.
#[derive(Debug)]
pub enum OpenAiEmbeddingInput {
    SingleText(String),
    TextBatch(Vec<String>),
    SingleTokenSequence(Vec<u32>),
    TokenSequenceBatch(Vec<Vec<u32>>),
}

impl View for OpenAiEmbeddingInput {
    type V = TextEmbeddingBatchView;

    /// The batch that an input stands for: a single one is a batch of one.
    open spec fn view(&self) -> TextEmbeddingBatchView {
        match self {
            OpenAiEmbeddingInput::SingleText(text) => TextEmbeddingBatchView::Texts(seq![*text]),
            OpenAiEmbeddingInput::TextBatch(texts) => TextEmbeddingBatchView::Texts(texts@),
            OpenAiEmbeddingInput::SingleTokenSequence(token_ids) =>
                TextEmbeddingBatchView::TokenIds(seq![*token_ids]),
            OpenAiEmbeddingInput::TokenSequenceBatch(token_sequences) =>
                TextEmbeddingBatchView::TokenIds(token_sequences@),
        }
    }
}

#[derive(Debug)]
pub struct OpenAiEmbeddingRequest {
    pub input: OpenAiEmbeddingInput,
    pub model: Option<String>,
    pub encoding_format: OpenAiEmbeddingEncodingFormat,
    pub dimensions: Option<usize>,
}

/// A request that the served model can answer.
#[derive(Debug)]
pub struct ValidatedOpenAiEmbeddingRequest {
    pub text_batch: TextEmbeddingBatch,
    pub encoding_format: OpenAiEmbeddingEncodingFormat,
}

/// Why a request is not answered with vectors.
#[derive(Debug)]
pub enum OpenAiEmbeddingRequestRejection {
    InvalidInput(TextEmbeddingRequestRejection),
    ModelMismatch { requested_model_id: String, served_model_id: String },
    UnsupportedDimension { requested_dimension: usize, embedding_dimension: usize },
}

/// A request rejection as a mathematical value.
pub enum RequestRejectionView {
    InvalidInput(TextEmbeddingRequestRejection),
    ModelMismatch { requested_model_id: Seq<char>, served_model_id: Seq<char> },
    UnsupportedDimension { requested_dimension: usize, embedding_dimension: usize },
}

impl View for OpenAiEmbeddingRequestRejection {
    type V = RequestRejectionView;

    open spec fn view(&self) -> RequestRejectionView {
        match self {
            OpenAiEmbeddingRequestRejection::InvalidInput(rejection) =>
                RequestRejectionView::InvalidInput(*rejection),
            OpenAiEmbeddingRequestRejection::ModelMismatch {
                requested_model_id,
                served_model_id,
            } => RequestRejectionView::ModelMismatch {
                requested_model_id: requested_model_id@,
                served_model_id: served_model_id@,
            },
            OpenAiEmbeddingRequestRejection::UnsupportedDimension {
                requested_dimension,
                embedding_dimension,
            } => RequestRejectionView::UnsupportedDimension {
                requested_dimension: *requested_dimension,
                embedding_dimension: *embedding_dimension,
            },
        }
    }
}

impl RequestRejectionView {
    pub open spec fn message(self) -> Seq<char> {
        match self {
            RequestRejectionView::InvalidInput(rejection) => rejection.spec_message(),
            RequestRejectionView::ModelMismatch { requested_model_id, served_model_id } =>
                "requested model "@ + quoted(requested_model_id) + " does not match served model "@
                    + quoted(served_model_id),
            RequestRejectionView::UnsupportedDimension {
                requested_dimension,
                embedding_dimension,
            } => "requested embedding dimension "@ + decimal(requested_dimension as nat)
                + " is unsupported; this model returns "@ + decimal(embedding_dimension as nat)
                + " dimensions"@,
        }
    }
}

impl OpenAiEmbeddingRequestRejection {
    /// The rejection in words.
    pub fn message(&self) -> (text: String)
        ensures
            text@ == self@.message(),
    {
        match self {
            OpenAiEmbeddingRequestRejection::InvalidInput(rejection) => rejection.message(),
            OpenAiEmbeddingRequestRejection::ModelMismatch {
                requested_model_id,
                served_model_id,
            } => {
                let mut text = "requested model ".to_owned();
                text.append(quote(requested_model_id.as_str()).as_str());
                text.append(" does not match served model ");
                text.append(quote(served_model_id.as_str()).as_str());
                text
            },
            OpenAiEmbeddingRequestRejection::UnsupportedDimension {
                requested_dimension,
                embedding_dimension,
            } => {
                let mut text = "requested embedding dimension ".to_owned();
                text.append(usize_to_string(*requested_dimension).as_str());
                text.append(" is unsupported; this model returns ");
                text.append(usize_to_string(*embedding_dimension).as_str());
                text.append(" dimensions");
                text
            },
        }
    }
}

impl OpenAiEmbeddingRequest {
    /// What the served model makes of the request: the batch to embed, or the
    /// first rule that it breaks.
    pub open spec fn validated(
        self,
        served_model_id: Seq<char>,
        embedding_dimension: usize,
        maximum_batch_size: usize,
    ) -> Result<TextEmbeddingBatchView, RequestRejectionView> {
        if self.model is Some && self.model->0@ != served_model_id {
            Err(
                RequestRejectionView::ModelMismatch {
                    requested_model_id: self.model->0@,
                    served_model_id,
                },
            )
        } else if self.dimensions is Some && self.dimensions->0 != embedding_dimension {
            Err(
                RequestRejectionView::UnsupportedDimension {
                    requested_dimension: self.dimensions->0,
                    embedding_dimension,
                },
            )
        } else {
            match self.input@.admitted(maximum_batch_size) {
                Ok(batch) => Ok(batch),
                Err(rejection) => Err(RequestRejectionView::InvalidInput(rejection)),
            }
        }
    }

    /// Holds the request to the served model.
    pub fn into_validated_request(
        self,
        served_model_id: &str,
        embedding_dimension: usize,
        maximum_batch_size: usize,
    ) -> (result: Result<ValidatedOpenAiEmbeddingRequest, OpenAiEmbeddingRequestRejection>)
        ensures
            self.validated(served_model_id@, embedding_dimension, maximum_batch_size)
                == match result {
                Ok(validated) => Ok(validated.text_batch@),
                Err(rejection) => Err(rejection@),
            },
            result matches Ok(validated) ==> validated.encoding_format == self.encoding_format,
    {
        if let Some(requested_model_id) = self.model {
            let served_model_id = served_model_id.to_owned();
            if !(requested_model_id == served_model_id) {
                return Err(
                    OpenAiEmbeddingRequestRejection::ModelMismatch {
                        requested_model_id,
                        served_model_id,
                    },
                );
            }
        }
        if let Some(requested_dimension) = self.dimensions {
            if requested_dimension != embedding_dimension {
                return Err(
                    OpenAiEmbeddingRequestRejection::UnsupportedDimension {
                        requested_dimension,
                        embedding_dimension,
                    },
                );
            }
        }
        let accepted = match self.input {
            OpenAiEmbeddingInput::SingleText(text) => {
                let texts = vec![text];
                assert(texts@ =~= seq![text]);
                TextEmbeddingBatch::from_texts(texts, maximum_batch_size)
            },
            OpenAiEmbeddingInput::TextBatch(texts) => {
                TextEmbeddingBatch::from_texts(texts, maximum_batch_size)
            },
            OpenAiEmbeddingInput::SingleTokenSequence(token_ids) => {
                let token_sequences = vec![token_ids];
                assert(token_sequences@ =~= seq![token_ids]);
                TextEmbeddingBatch::from_token_ids(token_sequences, maximum_batch_size)
            },
            OpenAiEmbeddingInput::TokenSequenceBatch(token_sequences) => {
                TextEmbeddingBatch::from_token_ids(token_sequences, maximum_batch_size)
            },
        };
        match accepted {
            Ok(text_batch) => Ok(
                ValidatedOpenAiEmbeddingRequest {
                    text_batch,
                    encoding_format: self.encoding_format,
                },
            ),
            Err(rejection) => Err(OpenAiEmbeddingRequestRejection::InvalidInput(rejection)),
        }
    }
}

/// Naming the served model and its own dimension changes nothing: such a
/// request is answered as one that names neither.
pub proof fn naming_the_served_model_changes_nothing(
    request: OpenAiEmbeddingRequest,
    plain: OpenAiEmbeddingRequest,
    served_model_id: Seq<char>,
    embedding_dimension: usize,
    maximum_batch_size: usize,
)
    requires
        request.model matches Some(model) ==> model@ == served_model_id,
        request.dimensions matches Some(dimension) ==> dimension == embedding_dimension,
        plain.model is None,
        plain.dimensions is None,
        plain.input == request.input,
    ensures
        request.validated(served_model_id, embedding_dimension, maximum_batch_size)
            == plain.validated(served_model_id, embedding_dimension, maximum_batch_size),
{
}

/// A valid request goes on with the inputs it came with, in their order.
pub proof fn valid_requests_keep_their_inputs(
    request: OpenAiEmbeddingRequest,
    served_model_id: Seq<char>,
    embedding_dimension: usize,
    maximum_batch_size: usize,
)
    ensures
        request.validated(served_model_id, embedding_dimension, maximum_batch_size) matches Ok(
            batch,
        ) ==> batch == request.input@,
{
}

/// A valid request names no other model than the served one and no other
/// dimension than its own, and it goes on with the inputs it came with, a single
/// one as a batch of one, and with the format it asked for.
pub proof fn valid_requests_fit_the_served_model(
    request: OpenAiEmbeddingRequest,
    served_model_id: &str,
    embedding_dimension: usize,
    maximum_batch_size: usize,
    validated: ValidatedOpenAiEmbeddingRequest,
)
    requires
        call_ensures(
            OpenAiEmbeddingRequest::into_validated_request,
            (request, served_model_id, embedding_dimension, maximum_batch_size),
            Ok(validated),
        ),
    ensures
        request.model matches Some(model) ==> model@ == served_model_id@,
        request.dimensions matches Some(dimension) ==> dimension == embedding_dimension,
        validated.encoding_format == request.encoding_format,
        match (request.input, validated.text_batch) {
            (OpenAiEmbeddingInput::SingleText(text), TextEmbeddingBatch::Texts(taken)) => {
                &&& taken@ == seq![text]
                &&& maximum_batch_size >= 1
            },
            (OpenAiEmbeddingInput::TextBatch(texts), TextEmbeddingBatch::Texts(taken)) => {
                &&& taken@ == texts@
                &&& 1 <= texts@.len() <= maximum_batch_size
            },
            (
                OpenAiEmbeddingInput::SingleTokenSequence(token_ids),
                TextEmbeddingBatch::TokenIds(taken),
            ) => {
                &&& taken@ == seq![token_ids]
                &&& token_ids@.len() > 0
                &&& maximum_batch_size >= 1
            },
            (
                OpenAiEmbeddingInput::TokenSequenceBatch(token_sequences),
                TextEmbeddingBatch::TokenIds(taken),
            ) => {
                &&& taken@ == token_sequences@
                &&& 1 <= token_sequences@.len() <= maximum_batch_size
                &&& forall|i: int|
                    0 <= i < token_sequences@.len() ==> (#[trigger] token_sequences@[i])@.len() > 0
            },
            _ => false,
        },
{
    admitted_batches_are_bounded(request.input@, maximum_batch_size);
    if let OpenAiEmbeddingInput::SingleTokenSequence(token_ids) = request.input {
        assert(seq![token_ids][0] == token_ids);
    }
}

/// A request is turned away only for a reason: it names another model, or else
/// another dimension, or else its inputs are none, too many or hold an empty token
/// sequence. The rejection tells which.
pub proof fn rejections_are_owed(
    request: OpenAiEmbeddingRequest,
    served_model_id: &str,
    embedding_dimension: usize,
    maximum_batch_size: usize,
    rejection: OpenAiEmbeddingRequestRejection,
)
    requires
        call_ensures(
            OpenAiEmbeddingRequest::into_validated_request,
            (request, served_model_id, embedding_dimension, maximum_batch_size),
            Err(rejection),
        ),
        request.input matches OpenAiEmbeddingInput::TextBatch(texts) ==> texts@.len()
            <= usize::MAX,
        request.input matches OpenAiEmbeddingInput::TokenSequenceBatch(token_sequences)
            ==> token_sequences@.len() <= usize::MAX,
    ensures
        rejection is ModelMismatch <==> (request.model is Some && request.model->0@
            != served_model_id@),
        rejection is UnsupportedDimension <==> {
            &&& !(rejection is ModelMismatch)
            &&& request.dimensions is Some
            &&& request.dimensions->0 != embedding_dimension
        },
        match rejection {
            OpenAiEmbeddingRequestRejection::ModelMismatch {
                requested_model_id,
                served_model_id: served,
            } => requested_model_id@ == request.model->0@ && served@ == served_model_id@,
            OpenAiEmbeddingRequestRejection::UnsupportedDimension {
                requested_dimension,
                embedding_dimension: served,
            } => requested_dimension == request.dimensions->0 && served == embedding_dimension,
            OpenAiEmbeddingRequestRejection::InvalidInput(cause) => {
                let size = match request.input {
                    OpenAiEmbeddingInput::TextBatch(texts) => texts@.len(),
                    OpenAiEmbeddingInput::TokenSequenceBatch(token_sequences) =>
                        token_sequences@.len(),
                    _ => 1,
                };
                match cause {
                    TextEmbeddingRequestRejection::EmptyBatch => size == 0,
                    TextEmbeddingRequestRejection::BatchTooLarge { actual_count, maximum_count } => {
                        &&& actual_count == size
                        &&& maximum_count == maximum_batch_size
                        &&& size > maximum_batch_size
                    },
                    TextEmbeddingRequestRejection::EmptyTokenSequence { input_index } => {
                        &&& 1 <= size <= maximum_batch_size
                        &&& match request.input {
                            OpenAiEmbeddingInput::SingleTokenSequence(token_ids) => {
                                &&& token_ids@.len() == 0
                                &&& input_index == 0
                            },
                            OpenAiEmbeddingInput::TokenSequenceBatch(token_sequences) => {
                                &&& input_index < size
                                &&& token_sequences@[input_index as int]@.len() == 0
                                &&& forall|i: int|
                                    0 <= i < input_index ==> (
                                    #[trigger] token_sequences@[i])@.len() > 0
                            },
                            _ => false,
                        }
                    },
                    TextEmbeddingRequestRejection::UnknownTokenId { .. } => false,
                }
            },
        },
{
    if let TextEmbeddingBatchView::TokenIds(token_sequences) = request.input@ {
        if has_empty(token_sequences) {
            let first = choose|index: int| first_empty_at(token_sequences, index);
            assert(token_sequences[first]@.len() == 0);
            if token_sequences.len() <= maximum_batch_size {
                empty_sequences_are_reported(token_sequences, first, maximum_batch_size);
            }
        }
    }
}

/// The words of a rejection name what was asked for and what is served.
pub proof fn request_rejections_name_what_is_wrong(
    rejection: &OpenAiEmbeddingRequestRejection,
    text: String,
)
    requires
        call_ensures(OpenAiEmbeddingRequestRejection::message, (rejection,), text),
    ensures
        match *rejection {
            OpenAiEmbeddingRequestRejection::InvalidInput(cause) => forall|inner: String|
                #[trigger] call_ensures(TextEmbeddingRequestRejection::message, (&cause,), inner)
                    ==> text@ == inner@,
            OpenAiEmbeddingRequestRejection::ModelMismatch {
                requested_model_id,
                served_model_id,
            } => text@ == "requested model "@ + quoted(requested_model_id@)
                + " does not match served model "@ + quoted(served_model_id@),
            OpenAiEmbeddingRequestRejection::UnsupportedDimension {
                requested_dimension,
                embedding_dimension,
            } => text@ == "requested embedding dimension "@ + decimal(requested_dimension as nat)
                + " is unsupported; this model returns "@ + decimal(embedding_dimension as nat)
                + " dimensions"@,
        },
{
}

/// A request that names no format is answered with numbers.
pub proof fn numbers_are_the_default(format: OpenAiEmbeddingEncodingFormat)
    requires
        call_ensures(<OpenAiEmbeddingEncodingFormat as Default>::default, (), format),
    ensures
        format is Float,
{
}

} // verus!
