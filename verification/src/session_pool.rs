//! The sessions that wait for work, and those that requests have leased.
use vstd::multiset::Multiset;
use vstd::prelude::*;

use crate::failure::InferenceFailure;

verus! {

/// Owns the sessions that no request runs. A request takes one out and gives it
/// back, also when its inference fails.
pub struct OnnxSessionPool<S> {
    available_sessions: Vec<S>,
}

/// The right to run one session, until it is given back.
pub struct OnnxSessionLease<S> {
    session: Option<S>,
}

/// What a request does that has asked for a session.
pub enum CheckoutStep<S> {
    /// It runs the session.
    Run(OnnxSessionLease<S>),
    /// It waits until a session is given back, and asks again.
    Wait,
    /// It fails.
    Fail(InferenceFailure),
}

impl<S> View for OnnxSessionPool<S> {
    type V = Seq<S>;

    /// The sessions in the order in which they came.
    closed spec fn view(&self) -> Seq<S> {
        self.available_sessions@
    }
}

impl<S> View for OnnxSessionLease<S> {
    type V = Option<S>;

    /// The session, unless it was given back.
    closed spec fn view(&self) -> Option<S> {
        self.session
    }
}

impl<S> OnnxSessionPool<S> {
    pub fn new(sessions: Vec<S>) -> (pool: OnnxSessionPool<S>)
        requires
            sessions@.len() > 0,
        ensures
            pool@ == sessions@,
    {
        OnnxSessionPool { available_sessions: sessions }
    }

    /// Leases the session that came last. Nothing is leased where the lock of the
    /// pool is poisoned, and a request waits where no session is left.
    pub fn checkout(&mut self, lock_is_poisoned: bool) -> (step: CheckoutStep<S>)
        ensures
            match step {
                CheckoutStep::Run(lease) => {
                    &&& !lock_is_poisoned
                    &&& old(self)@.len() > 0
                    &&& lease@ == Some(old(self)@.last())
                    &&& final(self)@ == old(self)@.drop_last()
                },
                CheckoutStep::Wait => {
                    &&& !lock_is_poisoned
                    &&& old(self)@.len() == 0
                    &&& final(self)@ == old(self)@
                },
                CheckoutStep::Fail(failure) => {
                    &&& lock_is_poisoned
                    &&& failure.spec_message() == "ONNX session pool mutex was poisoned"@
                    &&& final(self)@ == old(self)@
                },
            },
    {
        if lock_is_poisoned {
            return CheckoutStep::Fail(
                InferenceFailure::Runtime("ONNX session pool mutex was poisoned".to_owned()),
            );
        }
        match self.available_sessions.pop() {
            Some(session) => CheckoutStep::Run(OnnxSessionLease { session: Some(session) }),
            None => CheckoutStep::Wait,
        }
    }
}

impl<S> OnnxSessionLease<S> {
    /// The session to run. There is one until it is given back.
    pub fn session_mut(&mut self) -> (result: Result<&mut S, InferenceFailure>)
        ensures
            match result {
                Ok(session) => {
                    &&& old(self)@ == Some(*session)
                    &&& final(self)@ == Some(*final(session))
                },
                Err(failure) => {
                    &&& old(self)@ is None
                    &&& final(self)@ is None
                    &&& failure.spec_message() == "ONNX session lease no longer owns a session"@
                },
            },
    {
        match &mut self.session {
            Some(session) => Ok(session),
            None => Err(
                InferenceFailure::Runtime(
                    "ONNX session lease no longer owns a session".to_owned(),
                ),
            ),
        }
    }

    /// Gives the session back, whatever became of the inference and of the lock
    /// of the pool, and tells whether a request that waits is to be woken.
    pub fn give_back(&mut self, pool: &mut OnnxSessionPool<S>) -> (wake_one: bool)
        ensures
            wake_one == old(self)@ is Some,
            final(self)@ is None,
            final(pool)@ == match old(self)@ {
                Some(session) => old(pool)@.push(session),
                None => old(pool)@,
            },
    {
        match self.session.take() {
            Some(session) => {
                pool.available_sessions.push(session);
                true
            },
            None => false,
        }
    }
}

/// All sessions: those that wait and those that requests have taken.
pub open spec fn all_sessions<S>(waiting: Seq<S>, taken: Multiset<S>) -> Multiset<S> {
    waiting.to_multiset().add(taken)
}

/// Taking a session moves it from the pool to a request and loses none.
pub proof fn checkout_loses_no_session<S>(waiting: Seq<S>, taken: Multiset<S>)
    requires
        waiting.len() > 0,
    ensures
        all_sessions(waiting.drop_last(), taken.insert(waiting.last())) == all_sessions(
            waiting,
            taken,
        ),
{
    broadcast use vstd::seq_lib::group_to_multiset_ensures;

    assert(waiting.drop_last().push(waiting.last()) =~= waiting);
    assert(all_sessions(waiting.drop_last(), taken.insert(waiting.last())) =~= all_sessions(
        waiting,
        taken,
    ));
}

/// Giving a session back, in whatever order the requests end, loses none.
pub proof fn give_back_loses_no_session<S>(waiting: Seq<S>, taken: Multiset<S>, session: S)
    requires
        taken.contains(session),
    ensures
        all_sessions(waiting.push(session), taken.remove(session)) == all_sessions(waiting, taken),
{
    broadcast use vstd::seq_lib::group_to_multiset_ensures;

    assert(all_sessions(waiting.push(session), taken.remove(session)) =~= all_sessions(
        waiting,
        taken,
    ));
}

/// A request that has given its session back leaves the pool as it was.
pub proof fn give_back_undoes_checkout<S>(waiting: Seq<S>)
    requires
        waiting.len() > 0,
    ensures
        waiting.drop_last().push(waiting.last()) == waiting,
{
    assert(waiting.drop_last().push(waiting.last()) =~= waiting);
}

/// Where the sessions are different ones, no session is leased twice, and none
/// that is leased waits.
pub proof fn leases_share_no_session<S>(waiting: Seq<S>, taken: Multiset<S>, session: S)
    requires
        all_sessions(waiting, taken).count(session) <= 1,
        taken.contains(session),
    ensures
        taken.count(session) == 1,
        !waiting.contains(session),
{
    broadcast use vstd::seq_lib::group_to_multiset_ensures;

    if waiting.contains(session) {
        assert(waiting.to_multiset().contains(session));
    }
}

/// A request that asks for a session fails where the lock is poisoned, waits where
/// no session is left, and otherwise leases the one that came last, which then
/// waits no longer. The other sessions stay as they are.
pub proof fn sessions_are_leased_one_at_a_time<S>()
    ensures
        forall|pool: &mut OnnxSessionPool<S>, lock_is_poisoned: bool, step: CheckoutStep<S>|
            #[trigger] call_ensures(
                OnnxSessionPool::<S>::checkout,
                (pool, lock_is_poisoned),
                step,
            ) ==> {
                &&& step is Fail <==> lock_is_poisoned
                &&& step is Wait <==> !lock_is_poisoned && pool@.len() == 0
                &&& step matches CheckoutStep::Run(lease) ==> lease@ is Some && final(pool)@.push(
                    lease@->0,
                ) == pool@
                &&& !(step is Run) ==> final(pool)@ == pool@
                &&& step matches CheckoutStep::Fail(failure) ==> failure.spec_message()
                    == "ONNX session pool mutex was poisoned"@
            },
{
    assert forall|pool: &mut OnnxSessionPool<S>, lock_is_poisoned: bool, step: CheckoutStep<S>|
        #[trigger] call_ensures(
            OnnxSessionPool::<S>::checkout,
            (pool, lock_is_poisoned),
            step,
        ) implies {
        &&& step is Fail <==> lock_is_poisoned
        &&& step is Wait <==> !lock_is_poisoned && pool@.len() == 0
        &&& step matches CheckoutStep::Run(lease) ==> lease@ is Some && final(pool)@.push(lease@->0)
            == pool@
        &&& !(step is Run) ==> final(pool)@ == pool@
        &&& step matches CheckoutStep::Fail(failure) ==> failure.spec_message()
            == "ONNX session pool mutex was poisoned"@
    } by {
        if let CheckoutStep::Run(lease) = step {
            assert(final(pool)@.push(lease@->0) =~= pool@);
        }
    }
}

/// A session that is given back waits behind the others, once, and wakes one
/// request; a lease that has ended gives nothing back and wakes none.
pub proof fn sessions_are_given_back_once<S>()
    ensures
        forall|lease: &mut OnnxSessionLease<S>, pool: &mut OnnxSessionPool<S>, wake_one: bool|
            #[trigger] call_ensures(OnnxSessionLease::<S>::give_back, (lease, pool), wake_one) ==> {
                &&& final(lease)@ is None
                &&& wake_one <==> lease@ is Some
                &&& lease@ matches Some(session) ==> {
                    &&& final(pool)@.len() == pool@.len() + 1
                    &&& final(pool)@.last() == session
                    &&& final(pool)@.drop_last() == pool@
                }
                &&& lease@ is None ==> final(pool)@ == pool@
            },
{
    assert forall|lease: &mut OnnxSessionLease<S>, pool: &mut OnnxSessionPool<S>, wake_one: bool|
        #[trigger] call_ensures(
            OnnxSessionLease::<S>::give_back,
            (lease, pool),
            wake_one,
        ) implies {
        &&& final(lease)@ is None
        &&& wake_one <==> lease@ is Some
        &&& lease@ matches Some(session) ==> {
            &&& final(pool)@.len() == pool@.len() + 1
            &&& final(pool)@.last() == session
            &&& final(pool)@.drop_last() == pool@
        }
        &&& lease@ is None ==> final(pool)@ == pool@
    } by {
        if lease@ is Some {
            assert(final(pool)@.drop_last() =~= pool@);
        }
    }
}

/// A pool starts with all the sessions that it is given.
pub proof fn pools_start_with_all_sessions<S>(sessions: Vec<S>, pool: OnnxSessionPool<S>)
    requires
        call_ensures(OnnxSessionPool::<S>::new, (sessions,), pool),
    ensures
        pool@ == sessions@,
{
}

} // verus!
