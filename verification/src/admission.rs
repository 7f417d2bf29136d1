//! Admission: how many requests may be active or waiting at once.
use std::sync::Arc;

use tokio::sync::{OwnedSemaphorePermit, Semaphore};
use vstd::prelude::*;

verus! {

#[verifier::external_type_specification]
#[verifier::external_body]
pub struct ExSemaphore(tokio::sync::Semaphore);

#[verifier::external_type_specification]
#[verifier::external_body]
pub struct ExOwnedSemaphorePermit(tokio::sync::OwnedSemaphorePermit);

/// The most permits that a semaphore ever has out at once.
pub uninterp spec fn permit_limit(semaphore: Semaphore) -> nat;

/// The semaphore that a permit was taken from and goes back to.
pub uninterp spec fn permit_source(permit: OwnedSemaphorePermit) -> Semaphore;

/// The most permits that a semaphore can be made with.
pub open spec fn most_permits() -> nat {
    (usize::MAX / 8) as nat
}

/// Trusted: `Semaphore::new` makes a semaphore with the given number of
/// permits, and as none are added to it later, no more are ever out at once. It
/// panics beyond `Semaphore::MAX_PERMITS`.
#[verifier::external_body]
fn new_semaphore(permits: usize) -> (semaphore: Semaphore)
    requires
        permits <= most_permits(),
    ensures
        permit_limit(semaphore) == permits,
{
    Semaphore::new(permits)
}

/// Trusted: `Semaphore::try_acquire_owned` takes one permit of this semaphore
/// without waiting, or none; it takes none of a semaphore without permits. Which
/// of the two comes otherwise depends on the permits that other requests hold at
/// that moment, and is left unsaid.
#[verifier::external_body]
pub(crate) fn try_acquire(semaphore: &Arc<Semaphore>) -> (permit: Option<OwnedSemaphorePermit>)
    ensures
        permit matches Some(taken) ==> {
            &&& permit_source(taken) == **semaphore
            &&& permit_limit(**semaphore) > 0
        },
{
    Arc::clone(semaphore).try_acquire_owned().ok()
}

/// Limits active plus waiting requests before they occupy blocking executor
/// threads. Saturation is an expected outcome rather than hidden queuing.
pub struct InferenceAdmissionController {
    available_request_slots: Arc<Semaphore>,
}

/// The right to run one request. Dropping it frees the slot.
pub struct InferenceAdmissionPermit {
    _request_slot: OwnedSemaphorePermit,
}

pub enum InferenceAdmission {
    Admitted(InferenceAdmissionPermit),
    Saturated,
}

/// The session and pending-request counts have no sum.
#[derive(Clone, Copy, Debug, PartialEq, Eq, Structural)]
pub struct AdmissionCapacityOverflow;

impl AdmissionCapacityOverflow {
    /// The failure in words.
    pub fn message(&self) -> (text: String)
        ensures
            text@ == "session and pending-request counts overflow"@,
    {
        "session and pending-request counts overflow".to_owned()
    }
}

impl InferenceAdmissionPermit {
    /// The slot that the request holds.
    pub closed spec fn request_slot(self) -> OwnedSemaphorePermit {
        self._request_slot
    }

    /// The semaphore that the slot goes back to.
    pub open spec fn source(self) -> Semaphore {
        permit_source(self.request_slot())
    }
}

impl InferenceAdmission {
    /// What an attempt to take a slot means: a request with a slot is admitted,
    /// one without is not.
    pub fn from_request_slot(request_slot: Option<OwnedSemaphorePermit>) -> (admission:
        InferenceAdmission)
        ensures
            match request_slot {
                Some(slot) => admission matches InferenceAdmission::Admitted(permit)
                    && permit.request_slot() == slot,
                None => admission is Saturated,
            },
    {
        match request_slot {
            Some(request_slot) => InferenceAdmission::Admitted(
                InferenceAdmissionPermit { _request_slot: request_slot },
            ),
            None => InferenceAdmission::Saturated,
        }
    }
}

impl InferenceAdmissionController {
    /// The slots that requests share.
    pub closed spec fn slots(self) -> Semaphore {
        *self.available_request_slots
    }

    /// How many requests may be active or waiting at once.
    pub open spec fn capacity(self) -> nat {
        permit_limit(self.slots())
    }

    /// A controller with one slot per session and per request that may wait.
    pub fn new(session_count: usize, maximum_pending_requests: usize) -> (result: Result<
        InferenceAdmissionController,
        AdmissionCapacityOverflow,
    >)
        requires
            session_count + maximum_pending_requests <= most_permits() || session_count
                + maximum_pending_requests > usize::MAX,
        ensures
            match result {
                Ok(controller) => {
                    &&& session_count + maximum_pending_requests <= usize::MAX
                    &&& controller.capacity() == session_count + maximum_pending_requests
                },
                Err(_) => session_count + maximum_pending_requests > usize::MAX,
            },
    {
        match session_count.checked_add(maximum_pending_requests) {
            Some(maximum_admitted_requests) => Ok(
                InferenceAdmissionController {
                    available_request_slots: Arc::new(new_semaphore(maximum_admitted_requests)),
                },
            ),
            None => Err(AdmissionCapacityOverflow),
        }
    }

    /// That an attempt to take one of the slots came out so: with the slot, or
    /// with none where the semaphore refused one.
    pub closed spec fn answered(self, request_slot: Option<OwnedSemaphorePermit>) -> bool {
        call_ensures(try_acquire, (&self.available_request_slots,), request_slot)
    }

    /// Takes a slot without waiting for one. A controller without capacity admits
    /// nothing; otherwise, whether a slot is free depends on the requests that
    /// hold slots at that moment. A request is turned away only where the
    /// semaphore refused a slot in this very attempt.
    pub fn try_admit(&self) -> (admission: InferenceAdmission)
        ensures
            self.capacity() == 0 ==> admission is Saturated,
            admission matches InferenceAdmission::Admitted(permit) ==> permit.source()
                == self.slots(),
            match admission {
                InferenceAdmission::Admitted(permit) => self.answered(Some(permit.request_slot())),
                InferenceAdmission::Saturated => self.answered(None),
            },
    {
        InferenceAdmission::from_request_slot(try_acquire(&self.available_request_slots))
    }
}

/// What a controller answers comes from its semaphore: a request is admitted with
/// a slot that the semaphore gave, and turned away where it refused one.
pub(crate) proof fn admission_follows_the_semaphore(
    controller: &InferenceAdmissionController,
    admission: InferenceAdmission,
)
    requires
        call_ensures(InferenceAdmissionController::try_admit, (controller,), admission),
    ensures
        exists|semaphore: &Arc<Semaphore>, request_slot: Option<OwnedSemaphorePermit>| #[trigger]
            call_ensures(try_acquire, (semaphore,), request_slot) && **semaphore
                == controller.slots() && match admission {
                InferenceAdmission::Admitted(permit) => request_slot == Some(permit.request_slot()),
                InferenceAdmission::Saturated => request_slot is None,
            },
{
    let semaphore = &controller.available_request_slots;
    match admission {
        InferenceAdmission::Admitted(permit) => {
            assert(call_ensures(try_acquire, (semaphore,), Some(permit.request_slot())));
        },
        InferenceAdmission::Saturated => {
            assert(call_ensures(try_acquire, (semaphore,), None));
        },
    }
}

/// The slots of a controller are one per session and one per request that may
/// wait, no more and no fewer.
pub proof fn slots_count_sessions_and_waiting_requests(
    session_count: usize,
    maximum_pending_requests: usize,
    result: Result<InferenceAdmissionController, AdmissionCapacityOverflow>,
)
    requires
        call_ensures(
            InferenceAdmissionController::new,
            (session_count, maximum_pending_requests),
            result,
        ),
    ensures
        result is Ok <==> session_count + maximum_pending_requests <= usize::MAX,
        result matches Ok(controller) ==> permit_limit(controller.slots()) == session_count
            + maximum_pending_requests,
{
}

/// A request with a slot is admitted with that slot, and one without is not.
pub proof fn slots_admit(request_slot: Option<OwnedSemaphorePermit>, admission: InferenceAdmission)
    requires
        call_ensures(InferenceAdmission::from_request_slot, (request_slot,), admission),
    ensures
        admission is Saturated <==> request_slot is None,
        admission matches InferenceAdmission::Admitted(permit) ==> Some(permit.request_slot())
            == request_slot,
{
}

} // verus!
