//! The Idle/Active state machine that guards the device stream handle.
//!
//! A transition moves the handle out of the state, leaving the `Invalid`
//! placeholder for as long as the transition runs (under the caller's lock),
//! and puts a valid state back before it ends.

use vstd::prelude::*;

verus! {

/// State of a stream: `H` is the device stream handle, `C` the control of a
/// running worker (its cancellation signal and join handle).
pub enum StreamState<H, C> {
    /// A worker owns the handle.
    Active(C),
    /// The state owns the inactive handle; no worker exists.
    Idle(H),
    /// Placeholder while a transition is in progress.
    Invalid,
}

/// What a finished worker hands back: the device handle and the first error
/// it observed, if any.
pub struct WorkerOutcome<H, E> {
    pub handle: H,
    pub result: Result<(), E>,
}

/// State and handle after the first half of `activate`.
pub open spec fn begin_activate_spec<H, C>(s: StreamState<H, C>) -> (StreamState<H, C>, Option<H>) {
    match s {
        StreamState::Idle(h) => (StreamState::Invalid, Some(h)),
        _ => (s, None),
    }
}

/// State after the second half of `activate`, given the worker's control on
/// success or the handle and error on failure.
pub open spec fn end_activate_spec<H, C, E>(outcome: Result<C, (H, E)>) -> StreamState<H, C> {
    match outcome {
        Ok(c) => StreamState::Active(c),
        Err((h, _e)) => StreamState::Idle(h),
    }
}

/// Result of the second half of `activate`.
pub open spec fn end_activate_result<H, C, E>(outcome: Result<C, (H, E)>) -> Result<(), E> {
    match outcome {
        Ok(_c) => Ok(()),
        Err((_h, e)) => Err(e),
    }
}

/// State and control after the first half of `deactivate`.
pub open spec fn begin_deactivate_spec<H, C>(s: StreamState<H, C>) -> (StreamState<H, C>, Option<C>) {
    match s {
        StreamState::Active(c) => (StreamState::Invalid, Some(c)),
        _ => (s, None),
    }
}

/// State after the second half of `deactivate`: the reclaimed handle, idle.
pub open spec fn end_deactivate_spec<H, C, E>(outcome: WorkerOutcome<H, E>) -> StreamState<H, C> {
    StreamState::Idle(outcome.handle)
}

/// A whole `activate`: state and result, where `setup` is what the
/// device's setup and the worker's start give for the handle handed out,
/// when one is.
pub open spec fn activate_spec<H, C, E>(s: StreamState<H, C>, setup: Result<C, (H, E)>) -> (
    StreamState<H, C>,
    Result<(), E>,
) {
    if begin_activate_spec(s).1 is Some {
        (end_activate_spec(setup), end_activate_result(setup))
    } else {
        (s, Ok(()))
    }
}

/// A whole `deactivate`: state and result, where `outcome` is what the
/// worker hands back when there is one to join.
pub open spec fn deactivate_spec<H, C, E>(s: StreamState<H, C>, outcome: WorkerOutcome<H, E>) -> (
    StreamState<H, C>,
    Result<(), E>,
) {
    if begin_deactivate_spec(s).1 is Some {
        (end_deactivate_spec(outcome), outcome.result)
    } else {
        (s, Ok(()))
    }
}

impl<H, C> StreamState<H, C> {
    /// A state that a caller may observe: never the placeholder.
    pub open spec fn wf(&self) -> bool {
        !(self is Invalid)
    }

    /// A new stream state owning an inactive handle.
    pub fn new(handle: H) -> (r: Self)
        ensures
            r == StreamState::<H, C>::Idle(handle),
    {
        StreamState::Idle(handle)
    }

    /// Whether the state may be observed: false only for the placeholder,
    /// which a caller holding the lock never sees unless a transition broke.
    pub fn is_valid(&self) -> (r: bool)
        ensures
            r == self.wf(),
    {
        match self {
            StreamState::Invalid => false,
            _ => true,
        }
    }

    pub fn is_active(&self) -> (r: bool)
        ensures
            r == (*self is Active),
    {
        match self {
            StreamState::Active(_) => true,
            _ => false,
        }
    }

    pub fn is_idle(&self) -> (r: bool)
        ensures
            r == (*self is Idle),
    {
        match self {
            StreamState::Idle(_) => true,
            _ => false,
        }
    }

    /// Moves the current state out, leaving the placeholder behind.
    fn take(&mut self) -> (r: Self)
        ensures
            r == *old(self),
            *final(self) is Invalid,
    {
        let mut taken = StreamState::Invalid;
        core::mem::swap(self, &mut taken);
        taken
    }

    /// First half of `activate`. On an active stream nothing changes and
    /// `None` comes back: the running worker stays the only one. On an idle
    /// stream the handle comes back, for the device's setup, and the state
    /// holds the placeholder until `end_activate`.
    pub fn begin_activate(&mut self) -> (r: Option<H>)
        requires
            old(self).wf(),
        ensures
            (*final(self), r) == begin_activate_spec(*old(self)),
    {
        match self.take() {
            StreamState::Idle(h) => Some(h),
            other => {
                *self = other;
                None
            },
        }
    }

    /// Second half of `activate`: a started worker makes the stream active;
    /// a failed setup puts the handle back, idle, and returns its error.
    pub fn end_activate<E>(&mut self, outcome: Result<C, (H, E)>) -> (r: Result<(), E>)
        requires
            *old(self) is Invalid,
        ensures
            *final(self) == end_activate_spec(outcome),
            r == end_activate_result(outcome),
            final(self).wf(),
    {
        match outcome {
            Ok(c) => {
                *self = StreamState::Active(c);
                Ok(())
            },
            Err((h, e)) => {
                *self = StreamState::Idle(h);
                Err(e)
            },
        }
    }

    /// First half of `deactivate`. On an idle stream nothing changes and
    /// `None` comes back. On an active stream the worker's control comes
    /// back, to signal and join the worker, and the state holds the
    /// placeholder until `end_deactivate`.
    pub fn begin_deactivate(&mut self) -> (r: Option<C>)
        requires
            old(self).wf(),
        ensures
            (*final(self), r) == begin_deactivate_spec(*old(self)),
    {
        match self.take() {
            StreamState::Active(c) => Some(c),
            other => {
                *self = other;
                None
            },
        }
    }

    /// Second half of `deactivate`: the handle that the worker handed back
    /// makes the stream idle, and the worker's result is returned.
    pub fn end_deactivate<E>(&mut self, outcome: WorkerOutcome<H, E>) -> (r: Result<(), E>)
        requires
            *old(self) is Invalid,
        ensures
            *final(self) == end_deactivate_spec::<H, C, E>(outcome),
            r == outcome.result,
            final(self).wf(),
    {
        let WorkerOutcome { handle, result } = outcome;
        *self = StreamState::Idle(handle);
        result
    }
}

/// Activation and deactivation are idempotent: once an `activate` has
/// succeeded, a second one hands out no handle (so starts no second worker),
/// keeps the running worker and succeeds; after a `deactivate` the stream is
/// idle, and a second one changes nothing and succeeds.
pub proof fn lemma_idempotent<H, C, E>(
    s: StreamState<H, C>,
    setup: Result<C, (H, E)>,
    again: Result<C, (H, E)>,
    outcome: WorkerOutcome<H, E>,
    later: WorkerOutcome<H, E>,
)
    requires
        s.wf(),
    ensures
        activate_spec(s, setup).1 is Ok ==> ({
            let t = activate_spec(s, setup).0;
            &&& t is Active
            &&& begin_activate_spec(t).1 is None
            &&& activate_spec(t, again) == (t, Ok::<(), E>(()))
        }),
        ({
            let t = deactivate_spec::<H, C, E>(s, outcome).0;
            &&& t is Idle
            &&& deactivate_spec(t, later) == (t, Ok::<(), E>(()))
        }),
{
}

/// Transitions never leave the placeholder behind, and at most one worker
/// runs: from any observable state a whole `activate` or `deactivate` ends
/// in an observable state, and a handle, which a worker needs, is handed out
/// only by an idle stream, where no worker exists.
pub proof fn lemma_exclusive<H, C, E>(
    s: StreamState<H, C>,
    setup: Result<C, (H, E)>,
    outcome: WorkerOutcome<H, E>,
)
    requires
        s.wf(),
    ensures
        activate_spec(s, setup).0.wf(),
        deactivate_spec::<H, C, E>(s, outcome).0.wf(),
        begin_activate_spec(s).1 is Some ==> s is Idle,
        begin_deactivate_spec(s).1 is Some ==> s is Active,
{
}

/// The handle is never copied nor lost: the one that leaves an idle stream
/// is the one it held, a failed setup puts that very handle back, and a
/// deactivation stores the handle that the worker handed back. At every
/// observable state exactly one side owns it: the state when idle, the
/// worker when active.
pub proof fn lemma_handle_conserved<H, C, E>(h: H, e: E, outcome: WorkerOutcome<H, E>, c: C)
    ensures
        begin_activate_spec(StreamState::<H, C>::Idle(h)) == (StreamState::<H, C>::Invalid, Some(h)),
        activate_spec(StreamState::<H, C>::Idle(h), Err::<C, (H, E)>((h, e))) == (
        StreamState::<H, C>::Idle(h), Err::<(), E>(e)),
        deactivate_spec::<H, C, E>(StreamState::Active(c), outcome).0 == StreamState::<H, C>::Idle(
            outcome.handle,
        ),
        begin_deactivate_spec(StreamState::<H, C>::Active(c)) == (StreamState::<H, C>::Invalid, Some(c)),
{
}

} // verus!
