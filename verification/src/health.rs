//! What the service says of itself.
use vstd::prelude::*;

use crate::config::ServiceConfig;

verus! {

/// The answer to a health request.
#[derive(Debug)]
pub struct HealthResponse {
    pub status: &'static str,
    pub model_id: String,
    pub revision: String,
    pub dim: usize,
    pub device: &'static str,
    pub modalities: [&'static str; 1],
    pub session_count: usize,
    pub intra_operation_threads_per_session: usize,
    pub maximum_pending_requests: usize,
}

/// The health of a running service: its model and its limits.
pub fn health(config: &ServiceConfig) -> (response: HealthResponse)
    ensures
        response.status@ == "ok"@,
        response.model_id@ == config@.model_contract.model_id,
        response.revision@ == config@.model_contract.model_revision,
        response.dim == config@.model_contract.embedding_dimension,
        response.device@ == "cpu"@,
        response.modalities@[0]@ == "text"@,
        response.session_count == config@.session_count,
        response.intra_operation_threads_per_session == config@.intra_operation_threads,
        response.maximum_pending_requests == config@.maximum_pending_requests,
{
    HealthResponse {
        status: "ok",
        model_id: config.model_id().to_owned(),
        revision: config.model_revision().to_owned(),
        dim: config.embedding_dimension(),
        device: "cpu",
        modalities: ["text"],
        session_count: config.session_count(),
        intra_operation_threads_per_session: config.intra_operation_threads(),
        maximum_pending_requests: config.maximum_pending_requests(),
    }
}

/// A running service tells the model, the revision and the dimension that its
/// manifest pins, and the limits that it was configured with.
pub proof fn health_tells_the_configuration(config: &ServiceConfig, response: HealthResponse)
    requires
        call_ensures(health, (config,), response),
    ensures
        response.status@ == "ok"@,
        response.device@ == "cpu"@,
        response.modalities@.len() == 1,
        response.modalities@[0]@ == "text"@,
        response.model_id@ == config@.model_contract.model_id,
        response.revision@ == config@.model_contract.model_revision,
        response.dim == config@.model_contract.embedding_dimension,
        response.session_count == config@.session_count,
        response.intra_operation_threads_per_session == config@.intra_operation_threads,
        response.maximum_pending_requests == config@.maximum_pending_requests,
{
}

} // verus!
