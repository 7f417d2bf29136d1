//! Failures, and what each is answered over HTTP.
use vstd::prelude::*;
use vstd::string::StringExecFns;

use crate::batch::TextEmbeddingRequestRejection;
use crate::prepared::EncodingLengthMismatch;
use crate::request::{OpenAiEmbeddingRequestRejection, RequestRejectionView};
use crate::vectors::EmbeddingOutputRejection;

verus! {

/// Why an admitted request got no vectors although nothing was wrong with it.
#[derive(Debug)]
pub enum InferenceFailure {
    /// The tokenizer failed, in its own words.
    Tokenization(String),
    EncodingLength(EncodingLengthMismatch),
    Output(EmbeddingOutputRejection),
    /// The runtime failed, in words that name the step.
    Runtime(String),
}

impl InferenceFailure {
    pub open spec fn spec_message(self) -> Seq<char> {
        match self {
            InferenceFailure::Tokenization(detail) => "tokenizing text batch: "@ + detail@,
            InferenceFailure::EncodingLength(mismatch) => mismatch.spec_message(),
            InferenceFailure::Output(rejection) => rejection.spec_message(),
            InferenceFailure::Runtime(detail) => detail@,
        }
    }

    /// The failure in words.
    pub fn message(&self) -> (text: String)
        ensures
            text@ == self.spec_message(),
    {
        match self {
            InferenceFailure::Tokenization(detail) => {
                let mut text = "tokenizing text batch: ".to_owned();
                text.append(detail.as_str());
                text
            },
            InferenceFailure::EncodingLength(mismatch) => mismatch.message(),
            InferenceFailure::Output(rejection) => rejection.message(),
            InferenceFailure::Runtime(detail) => detail.clone(),
        }
    }
}

/// How embedding one admitted batch fails.
#[derive(Debug)]
pub enum TextEmbeddingOperationError {
    Rejected(TextEmbeddingRequestRejection),
    Inference(InferenceFailure),
}

/// How a valid request fails.
#[derive(Debug)]
pub enum TextEmbeddingExecutionError {
    Saturated,
    Rejected(TextEmbeddingRequestRejection),
    Internal(InferenceFailure),
}

impl From<TextEmbeddingOperationError> for TextEmbeddingExecutionError {
    fn from(error: TextEmbeddingOperationError) -> (failure: TextEmbeddingExecutionError) {
        match error {
            TextEmbeddingOperationError::Rejected(rejection) => {
                TextEmbeddingExecutionError::Rejected(rejection)
            },
            TextEmbeddingOperationError::Inference(failure) => {
                TextEmbeddingExecutionError::Internal(failure)
            },
        }
    }
}

impl vstd::std_specs::convert::FromSpecImpl<TextEmbeddingOperationError> for TextEmbeddingExecutionError {
    open spec fn obeys_from_spec() -> bool {
        true
    }

    open spec fn from_spec(error: TextEmbeddingOperationError) -> TextEmbeddingExecutionError {
        match error {
            TextEmbeddingOperationError::Rejected(rejection) =>
                TextEmbeddingExecutionError::Rejected(rejection),
            TextEmbeddingOperationError::Inference(failure) =>
                TextEmbeddingExecutionError::Internal(failure),
        }
    }
}

/// What is wrong, as HTTP tells failures apart.
#[derive(Debug)]
pub enum OpenAiEmbeddingHttpErrorKind {
    Empty(String),
    Validation(String),
    BatchTooLarge(String),
    Overloaded,
    Backend(InferenceFailure),
}

#[derive(Debug)]
pub struct OpenAiEmbeddingHttpError(pub OpenAiEmbeddingHttpErrorKind);

/// An HTTP error as a mathematical value.
pub enum HttpErrorView {
    Empty(Seq<char>),
    Validation(Seq<char>),
    BatchTooLarge(Seq<char>),
    Overloaded,
    Backend(InferenceFailure),
}

impl View for OpenAiEmbeddingHttpError {
    type V = HttpErrorView;

    open spec fn view(&self) -> HttpErrorView {
        match self.0 {
            OpenAiEmbeddingHttpErrorKind::Empty(message) => HttpErrorView::Empty(message@),
            OpenAiEmbeddingHttpErrorKind::Validation(message) => HttpErrorView::Validation(
                message@,
            ),
            OpenAiEmbeddingHttpErrorKind::BatchTooLarge(message) => HttpErrorView::BatchTooLarge(
                message@,
            ),
            OpenAiEmbeddingHttpErrorKind::Overloaded => HttpErrorView::Overloaded,
            OpenAiEmbeddingHttpErrorKind::Backend(failure) => HttpErrorView::Backend(failure),
        }
    }
}

/// The error that a rejected request is answered with.
pub open spec fn error_for_rejection(rejection: RequestRejectionView) -> HttpErrorView {
    match rejection {
        RequestRejectionView::InvalidInput(TextEmbeddingRequestRejection::EmptyBatch) =>
            HttpErrorView::Empty(rejection.message()),
        RequestRejectionView::InvalidInput(TextEmbeddingRequestRejection::BatchTooLarge { .. }) =>
            HttpErrorView::BatchTooLarge(rejection.message()),
        _ => HttpErrorView::Validation(rejection.message()),
    }
}

/// The error that a valid request is answered with when it fails.
pub open spec fn error_for_execution(error: TextEmbeddingExecutionError) -> HttpErrorView {
    match error {
        TextEmbeddingExecutionError::Saturated => HttpErrorView::Overloaded,
        TextEmbeddingExecutionError::Rejected(rejection) => HttpErrorView::Validation(
            rejection.spec_message(),
        ),
        TextEmbeddingExecutionError::Internal(failure) => HttpErrorView::Backend(failure),
    }
}

impl OpenAiEmbeddingHttpError {
    /// The error for a body that is no request, described by `body_text`.
    pub fn invalid_json(body_text: String) -> (error: OpenAiEmbeddingHttpError)
        ensures
            error@ == HttpErrorView::Validation(body_text@),
    {
        OpenAiEmbeddingHttpError(OpenAiEmbeddingHttpErrorKind::Validation(body_text))
    }
}

impl From<OpenAiEmbeddingRequestRejection> for OpenAiEmbeddingHttpError {
    fn from(rejection: OpenAiEmbeddingRequestRejection) -> (error: OpenAiEmbeddingHttpError)
        ensures
            error@ == error_for_rejection(rejection@),
    {
        let message = rejection.message();
        match rejection {
            OpenAiEmbeddingRequestRejection::InvalidInput(
                TextEmbeddingRequestRejection::EmptyBatch,
            ) => OpenAiEmbeddingHttpError(OpenAiEmbeddingHttpErrorKind::Empty(message)),
            OpenAiEmbeddingRequestRejection::InvalidInput(
                TextEmbeddingRequestRejection::BatchTooLarge { .. },
            ) => OpenAiEmbeddingHttpError(OpenAiEmbeddingHttpErrorKind::BatchTooLarge(message)),
            _ => OpenAiEmbeddingHttpError(OpenAiEmbeddingHttpErrorKind::Validation(message)),
        }
    }
}

impl vstd::std_specs::convert::FromSpecImpl<OpenAiEmbeddingRequestRejection> for OpenAiEmbeddingHttpError {
    /// Two equal messages may be different strings, so `from` says by views
    /// what comes out.
    open spec fn obeys_from_spec() -> bool {
        false
    }

    open spec fn from_spec(rejection: OpenAiEmbeddingRequestRejection) -> OpenAiEmbeddingHttpError {
        arbitrary()
    }
}

impl From<TextEmbeddingExecutionError> for OpenAiEmbeddingHttpError {
    fn from(error: TextEmbeddingExecutionError) -> (http_error: OpenAiEmbeddingHttpError)
        ensures
            http_error@ == error_for_execution(error),
    {
        match error {
            TextEmbeddingExecutionError::Saturated => OpenAiEmbeddingHttpError(
                OpenAiEmbeddingHttpErrorKind::Overloaded,
            ),
            TextEmbeddingExecutionError::Rejected(rejection) => OpenAiEmbeddingHttpError(
                OpenAiEmbeddingHttpErrorKind::Validation(rejection.message()),
            ),
            TextEmbeddingExecutionError::Internal(failure) => OpenAiEmbeddingHttpError(
                OpenAiEmbeddingHttpErrorKind::Backend(failure),
            ),
        }
    }
}

impl vstd::std_specs::convert::FromSpecImpl<TextEmbeddingExecutionError> for OpenAiEmbeddingHttpError {
    /// Two equal messages may be different strings, so `from` says by views
    /// what comes out.
    open spec fn obeys_from_spec() -> bool {
        false
    }

    open spec fn from_spec(error: TextEmbeddingExecutionError) -> OpenAiEmbeddingHttpError {
        arbitrary()
    }
}

/// An error response: its status, its JSON fields and its `Retry-After` header.
#[derive(Debug)]
pub struct OpenAiEmbeddingErrorResponse {
    pub code: u16,
    pub message: String,
    pub error_type: &'static str,
    pub retry_after: Option<&'static str>,
}

/// An error response as a mathematical value.
pub struct ErrorResponseView {
    pub code: u16,
    pub message: Seq<char>,
    pub error_type: Seq<char>,
    pub retry_after: Option<Seq<char>>,
}

impl View for OpenAiEmbeddingErrorResponse {
    type V = ErrorResponseView;

    open spec fn view(&self) -> ErrorResponseView {
        ErrorResponseView {
            code: self.code,
            message: self.message@,
            error_type: self.error_type@,
            retry_after: match self.retry_after {
                Some(seconds) => Some(seconds@),
                None => None,
            },
        }
    }
}

impl HttpErrorView {
    /// What the error is answered.
    pub open spec fn response(self) -> ErrorResponseView {
        match self {
            HttpErrorView::Empty(message) => ErrorResponseView {
                code: 400,
                message,
                error_type: "empty"@,
                retry_after: None,
            },
            HttpErrorView::Validation(message) => ErrorResponseView {
                code: 422,
                message,
                error_type: "validation"@,
                retry_after: None,
            },
            HttpErrorView::BatchTooLarge(message) => ErrorResponseView {
                code: 413,
                message,
                error_type: "validation"@,
                retry_after: None,
            },
            HttpErrorView::Overloaded => ErrorResponseView {
                code: 429,
                message: "SigLIP 2 text inference capacity is saturated; retry later"@,
                error_type: "overloaded"@,
                retry_after: Some("1"@),
            },
            HttpErrorView::Backend(_) => ErrorResponseView {
                code: 424,
                message: "SigLIP 2 text inference failed"@,
                error_type: "backend"@,
                retry_after: None,
            },
        }
    }
}

impl OpenAiEmbeddingHttpError {
    /// What the error is answered. The cause of a backend failure stays inside.
    pub fn into_response(self) -> (response: OpenAiEmbeddingErrorResponse)
        ensures
            response@ == self@.response(),
    {
        match self.0 {
            OpenAiEmbeddingHttpErrorKind::Empty(message) => OpenAiEmbeddingErrorResponse {
                code: 400,
                message,
                error_type: "empty",
                retry_after: None,
            },
            OpenAiEmbeddingHttpErrorKind::Validation(message) => OpenAiEmbeddingErrorResponse {
                code: 422,
                message,
                error_type: "validation",
                retry_after: None,
            },
            OpenAiEmbeddingHttpErrorKind::BatchTooLarge(message) => OpenAiEmbeddingErrorResponse {
                code: 413,
                message,
                error_type: "validation",
                retry_after: None,
            },
            OpenAiEmbeddingHttpErrorKind::Overloaded => OpenAiEmbeddingErrorResponse {
                code: 429,
                message: "SigLIP 2 text inference capacity is saturated; retry later".to_owned(),
                error_type: "overloaded",
                retry_after: Some("1"),
            },
            OpenAiEmbeddingHttpErrorKind::Backend(_) => OpenAiEmbeddingErrorResponse {
                code: 424,
                message: "SigLIP 2 text inference failed".to_owned(),
                error_type: "backend",
                retry_after: None,
            },
        }
    }
}

/// A request that finds no free slot is answered `429` and asked to retry after
/// one second; no other answer asks to retry.
pub proof fn only_saturation_asks_to_retry(error: HttpErrorView)
    ensures
        error is Overloaded <==> error.response().retry_after is Some,
        error is Overloaded <==> error.response().code == 429,
        error_for_execution(TextEmbeddingExecutionError::Saturated).response().retry_after == Some(
            "1"@,
        ),
{
}

/// A rejected request is answered with a client error and with the words of the
/// rejection: `400` without inputs, `413` with too many, `422` otherwise.
pub proof fn rejected_requests_are_client_errors(rejection: RequestRejectionView)
    ensures
        ({
            let response = error_for_rejection(rejection).response();
            &&& response.message == rejection.message()
            &&& response.code == match rejection {
                RequestRejectionView::InvalidInput(TextEmbeddingRequestRejection::EmptyBatch) =>
                    400u16,
                RequestRejectionView::InvalidInput(
                    TextEmbeddingRequestRejection::BatchTooLarge { .. },
                ) => 413u16,
                _ => 422u16,
            }
        }),
{
}

/// An unknown token, found only while a batch is prepared, is a client error too.
pub proof fn late_rejections_are_client_errors(rejection: TextEmbeddingRequestRejection)
    ensures
        ({
            let response = error_for_execution(
                TextEmbeddingExecutionError::Rejected(rejection),
            ).response();
            &&& response.code == 422
            &&& response.message == rejection.spec_message()
        }),
{
}

/// Backend failures are all answered alike: the cause does not leave the service.
pub proof fn backend_failures_do_not_leak(first: InferenceFailure, second: InferenceFailure)
    ensures
        error_for_execution(TextEmbeddingExecutionError::Internal(first)).response()
            == error_for_execution(TextEmbeddingExecutionError::Internal(second)).response(),
{
}

/// Every error is answered with the status, the type and the words that belong to
/// its kind, and overload alone with a time to retry after.
pub proof fn errors_are_answered_by_their_kind(
    error: OpenAiEmbeddingHttpError,
    response: OpenAiEmbeddingErrorResponse,
)
    requires
        call_ensures(OpenAiEmbeddingHttpError::into_response, (error,), response),
    ensures
        match error.0 {
            OpenAiEmbeddingHttpErrorKind::Empty(message) => {
                &&& response.code == 400
                &&& response.error_type@ == "empty"@
                &&& response.message@ == message@
            },
            OpenAiEmbeddingHttpErrorKind::Validation(message) => {
                &&& response.code == 422
                &&& response.error_type@ == "validation"@
                &&& response.message@ == message@
            },
            OpenAiEmbeddingHttpErrorKind::BatchTooLarge(message) => {
                &&& response.code == 413
                &&& response.error_type@ == "validation"@
                &&& response.message@ == message@
            },
            OpenAiEmbeddingHttpErrorKind::Overloaded => {
                &&& response.code == 429
                &&& response.error_type@ == "overloaded"@
                &&& response.message@
                    == "SigLIP 2 text inference capacity is saturated; retry later"@
                &&& response.retry_after is Some
                &&& response.retry_after->0@ == "1"@
            },
            OpenAiEmbeddingHttpErrorKind::Backend(_) => {
                &&& response.code == 424
                &&& response.error_type@ == "backend"@
                &&& response.message@ == "SigLIP 2 text inference failed"@
            },
        },
        response.retry_after is Some <==> error.0 is Overloaded,
{
    assert(response@.retry_after is Some <==> response.retry_after is Some);
}

/// A rejected request becomes an error in the words of its rejection: one for
/// inputs that are none, one for inputs that are too many, one for the rest.
pub proof fn rejections_become_errors_in_their_words(
    rejection: OpenAiEmbeddingRequestRejection,
    error: OpenAiEmbeddingHttpError,
)
    requires
        call_ensures(
            <OpenAiEmbeddingHttpError as From<OpenAiEmbeddingRequestRejection>>::from,
            (rejection,),
            error,
        ),
    ensures
        match error.0 {
            OpenAiEmbeddingHttpErrorKind::Empty(message) => {
                &&& message@ == "embedding input must not be empty"@
                &&& rejection matches OpenAiEmbeddingRequestRejection::InvalidInput(cause)
                    && cause is EmptyBatch
            },
            OpenAiEmbeddingHttpErrorKind::BatchTooLarge(_) => rejection matches
                OpenAiEmbeddingRequestRejection::InvalidInput(cause) && cause is BatchTooLarge,
            OpenAiEmbeddingHttpErrorKind::Validation(_) => !(rejection matches
                OpenAiEmbeddingRequestRejection::InvalidInput(cause) && (cause is EmptyBatch
                || cause is BatchTooLarge)),
            _ => false,
        },
        forall|text: String| #[trigger]
            call_ensures(OpenAiEmbeddingRequestRejection::message, (&rejection,), text)
                ==> match error.0 {
                OpenAiEmbeddingHttpErrorKind::Empty(message) => message@ == text@,
                OpenAiEmbeddingHttpErrorKind::BatchTooLarge(message) => message@ == text@,
                OpenAiEmbeddingHttpErrorKind::Validation(message) => message@ == text@,
                _ => false,
            },
{
}

/// A request that fails later becomes an error too: overload for want of a slot,
/// the words of the rejection for an unknown token, a backend failure otherwise.
pub proof fn failures_become_errors_of_their_kind(
    failure: TextEmbeddingExecutionError,
    error: OpenAiEmbeddingHttpError,
)
    requires
        call_ensures(
            <OpenAiEmbeddingHttpError as From<TextEmbeddingExecutionError>>::from,
            (failure,),
            error,
        ),
    ensures
        match (failure, error.0) {
            (
                TextEmbeddingExecutionError::Saturated,
                OpenAiEmbeddingHttpErrorKind::Overloaded,
            ) => true,
            (
                TextEmbeddingExecutionError::Rejected(rejection),
                OpenAiEmbeddingHttpErrorKind::Validation(message),
            ) => forall|text: String| #[trigger]
                call_ensures(TextEmbeddingRequestRejection::message, (&rejection,), text)
                    ==> message@ == text@,
            (
                TextEmbeddingExecutionError::Internal(cause),
                OpenAiEmbeddingHttpErrorKind::Backend(kept),
            ) => kept == cause,
            _ => false,
        },
{
}

/// A failed operation fails its request in the same way.
pub proof fn operations_fail_their_request_alike(
    error: TextEmbeddingOperationError,
    failure: TextEmbeddingExecutionError,
)
    requires
        call_ensures(
            <TextEmbeddingExecutionError as From<TextEmbeddingOperationError>>::from,
            (error,),
            failure,
        ),
    ensures
        match (error, failure) {
            (
                TextEmbeddingOperationError::Rejected(rejection),
                TextEmbeddingExecutionError::Rejected(kept),
            ) => kept == rejection,
            (
                TextEmbeddingOperationError::Inference(cause),
                TextEmbeddingExecutionError::Internal(kept),
            ) => kept == cause,
            _ => false,
        },
{
}

/// The words for a failure are those of its cause.
pub proof fn failures_are_told_in_the_words_of_their_cause(failure: &InferenceFailure, text: String)
    requires
        call_ensures(InferenceFailure::message, (failure,), text),
    ensures
        match *failure {
            InferenceFailure::Tokenization(detail) => text@ == "tokenizing text batch: "@ + detail@,
            InferenceFailure::EncodingLength(mismatch) => forall|words: String| #[trigger]
                call_ensures(EncodingLengthMismatch::message, (&mismatch,), words) ==> text@
                    == words@,
            InferenceFailure::Output(rejection) => forall|words: String| #[trigger]
                call_ensures(EmbeddingOutputRejection::message, (&rejection,), words) ==> text@
                    == words@,
            InferenceFailure::Runtime(detail) => text@ == detail@,
        },
{
}

} // verus!
