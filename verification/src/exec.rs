//! The cache execution: a per-request suspendable state machine driving the
//! four-phase caching protocol (lookup, miss, downstream call, store).
//!
//! The machine is pure: it holds the cache key and the not-yet-consumed
//! request, and on each event it decides the next phase and tells its driver
//! what to do — issue the store lookup, forward the request downstream, write
//! the captured body, or finish with a terminal result. The driver performs
//! the awaited operations and reports how each one resolved; a resolution
//! that is not ready yet leaves the machine in its phase.
//!
//! The transition relation guarantees the protocol invariants: the request is
//! handed downstream at most once, and only on a miss; a store write is asked
//! for at most once, and only after a successful downstream call; a
//! downstream failure or an unreadable body finishes the execution without
//! any write; and a finished execution accepts no further event.

use vstd::prelude::*;

verus! {

/// The phase an execution is in, between two events.
#[derive(Clone, Copy, Debug, PartialEq, Eq, Structural)]
pub enum Phase {
    /// Freshly constructed; nothing issued yet.
    Init,
    /// The store lookup for the key has been issued.
    LookupPending,
    /// The request has been forwarded to the downstream handler.
    DownstreamPending,
    /// The downstream body is being captured and written to the store.
    StorePending,
    /// Terminal, success or error; no further transition occurs.
    Done,
}

/// The name printed for each phase in a progress trace.
pub open spec fn phase_label_spec(phase: Phase) -> Seq<char> {
    match phase {
        Phase::Init => "[Init]"@,
        Phase::LookupPending => "[LookupPending]"@,
        Phase::DownstreamPending => "[DownstreamPending]"@,
        Phase::StorePending => "[StorePending]"@,
        Phase::Done => "[Done]"@,
    }
}

impl Phase {
    /// The phase's name, for progress traces.
    pub fn label(&self) -> (name: &'static str)
        ensures
            name@ == phase_label_spec(*self),
    {
        match self {
            Phase::Init => "[Init]",
            Phase::LookupPending => "[LookupPending]",
            Phase::DownstreamPending => "[DownstreamPending]",
            Phase::StorePending => "[StorePending]",
            Phase::Done => "[Done]",
        }
    }
}

/// A typed failure of one execution.
pub enum CacheError<E> {
    /// The downstream handler failed; its error is carried verbatim.
    Downstream(E),
    /// The downstream response body could not be fully read, so nothing was
    /// stored.
    BodyRead,
}

/// How the operation awaited by the current phase resolved.
pub enum Event<E> {
    /// Begin the execution (the first poll).
    Start,
    /// The awaited operation has not resolved yet.
    NotReady,
    /// The store lookup resolved: the stored bytes, or nothing on a miss.
    LookupDone(Option<Vec<u8>>),
    /// The downstream handler produced a response; its body is now held by
    /// the driver, still to be captured.
    DownstreamOk,
    /// The downstream handler failed with this error.
    DownstreamFailed(E),
    /// The captured body was written to the store, which confirmed these
    /// bytes.
    StoreDone(Vec<u8>),
    /// The downstream response body could not be fully read.
    BodyFailed,
}

/// What the machine asks its driver to do next.
pub enum Action<R, E> {
    /// Issue the store lookup for the execution's key.
    Lookup,
    /// Forward this request — the original, not yet consumed — to the
    /// downstream handler.
    Forward(R),
    /// Capture the downstream response body and write it to the store under
    /// the execution's key.
    Store,
    /// The execution is finished with this terminal result.
    Finish(Result<Vec<u8>, CacheError<E>>),
    /// Still suspended; report the next resolution.
    Wait,
}

/// Whether `event` is a resolution the machine can receive in `phase`. A
/// terminal execution accepts no event.
pub open spec fn accepts<E>(phase: Phase, event: Event<E>) -> bool {
    match (phase, event) {
        (Phase::Init, Event::Start) => true,
        (Phase::LookupPending, Event::NotReady) => true,
        (Phase::LookupPending, Event::LookupDone(_)) => true,
        (Phase::DownstreamPending, Event::NotReady) => true,
        (Phase::DownstreamPending, Event::DownstreamOk) => true,
        (Phase::DownstreamPending, Event::DownstreamFailed(_)) => true,
        (Phase::StorePending, Event::NotReady) => true,
        (Phase::StorePending, Event::StoreDone(_)) => true,
        (Phase::StorePending, Event::BodyFailed) => true,
        _ => false,
    }
}

/// One per-request execution of the caching protocol.
pub struct CacheExecution<R> {
    /// The current phase.
    pub phase: Phase,
    /// The cache key derived from the request target.
    pub key: String,
    /// The inbound request; present until it is either dropped with the
    /// finished execution (hit) or forwarded downstream (miss).
    pub request: Option<R>,
}

/// The exact transition relation of the machine: from the pre-state and the
/// event to the post-state and the action handed to the driver.
pub open spec fn step_spec<R, E>(
    pre: CacheExecution<R>,
    event: Event<E>,
    post: CacheExecution<R>,
    action: Action<R, E>,
) -> bool {
    &&& post.key == pre.key
    &&& match (pre.phase, event) {
        (Phase::Init, Event::Start) => {
            &&& post.phase == Phase::LookupPending
            &&& post.request == pre.request
            &&& action == Action::<R, E>::Lookup
        },
        (Phase::LookupPending, Event::NotReady) => post == pre && action == Action::<R, E>::Wait,
        (Phase::LookupPending, Event::LookupDone(found)) => match found {
            // Hit: finish with the cached bytes; the request is never
            // forwarded.
            Some(bytes) => {
                &&& post.phase == Phase::Done
                &&& post.request == pre.request
                &&& action == Action::<R, E>::Finish(Ok(bytes))
            },
            // Miss: hand the original request downstream, exactly once.
            None => {
                &&& post.phase == Phase::DownstreamPending
                &&& post.request is None
                &&& pre.request matches Some(req) && action == Action::<R, E>::Forward(req)
            },
        },
        (Phase::DownstreamPending, Event::NotReady) => post == pre && action == Action::<
            R,
            E,
        >::Wait,
        (Phase::DownstreamPending, Event::DownstreamOk) => {
            &&& post.phase == Phase::StorePending
            &&& post.request == pre.request
            &&& action == Action::<R, E>::Store
        },
        // Downstream failure: forward the error verbatim; no store write.
        (Phase::DownstreamPending, Event::DownstreamFailed(err)) => {
            &&& post.phase == Phase::Done
            &&& post.request == pre.request
            &&& action == Action::<R, E>::Finish(Err(CacheError::Downstream(err)))
        },
        (Phase::StorePending, Event::NotReady) => post == pre && action == Action::<R, E>::Wait,
        (Phase::StorePending, Event::StoreDone(bytes)) => {
            &&& post.phase == Phase::Done
            &&& post.request == pre.request
            &&& action == Action::<R, E>::Finish(Ok(bytes))
        },
        // The body could not be materialized: a typed, recoverable failure;
        // the store is untouched.
        (Phase::StorePending, Event::BodyFailed) => {
            &&& post.phase == Phase::Done
            &&& post.request == pre.request
            &&& action == Action::<R, E>::Finish(Err(CacheError::BodyRead))
        },
        _ => false,
    }
}

impl<R> CacheExecution<R> {
    /// The request must still be at hand until the lookup decides its fate.
    pub open spec fn wf(self) -> bool {
        (self.phase == Phase::Init || self.phase == Phase::LookupPending) ==> self.request is Some
    }

    /// Creates a fresh execution for one inbound request; nothing has been
    /// issued yet.
    pub fn new(key: String, request: R) -> (execution: Self)
        ensures
            execution.phase == Phase::Init,
            execution.key@ == key@,
            execution.request == Some(request),
            execution.wf(),
    {
        CacheExecution { phase: Phase::Init, key, request: Some(request) }
    }

    /// Receives the resolution of the awaited operation, moves to the next
    /// phase, and tells the driver what to do, exactly as `step_spec` says.
    pub fn step<E>(&mut self, event: Event<E>) -> (action: Action<R, E>)
        requires
            old(self).wf(),
            accepts(old(self).phase, event),
        ensures
            final(self).wf(),
            step_spec(*old(self), event, *final(self), action),
    {
        let phase = self.phase;
        match (phase, event) {
            (Phase::Init, Event::Start) => {
                self.phase = Phase::LookupPending;
                Action::Lookup
            },
            (Phase::LookupPending, Event::NotReady) => Action::Wait,
            (Phase::LookupPending, Event::LookupDone(found)) => match found {
                Some(bytes) => {
                    self.phase = Phase::Done;
                    Action::Finish(Ok(bytes))
                },
                None => {
                    let taken = self.request.take();
                    match taken {
                        Some(req) => {
                            self.phase = Phase::DownstreamPending;
                            Action::Forward(req)
                        },
                        None => unreached(),
                    }
                },
            },
            (Phase::DownstreamPending, Event::NotReady) => Action::Wait,
            (Phase::DownstreamPending, Event::DownstreamOk) => {
                self.phase = Phase::StorePending;
                Action::Store
            },
            (Phase::DownstreamPending, Event::DownstreamFailed(err)) => {
                self.phase = Phase::Done;
                Action::Finish(Err(CacheError::Downstream(err)))
            },
            (Phase::StorePending, Event::NotReady) => Action::Wait,
            (Phase::StorePending, Event::StoreDone(bytes)) => {
                self.phase = Phase::Done;
                Action::Finish(Ok(bytes))
            },
            (Phase::StorePending, Event::BodyFailed) => {
                self.phase = Phase::Done;
                Action::Finish(Err(CacheError::BodyRead))
            },
            _ => unreached(),
        }
    }

    /// The phase the execution is in; a driver consults it to pick the next
    /// awaited operation.
    pub fn phase(&self) -> (phase: Phase)
        ensures
            phase == self.phase,
    {
        self.phase
    }
}

/// A finished execution is terminal: it accepts no event at all, so no
/// further phase transition can occur and the result already returned is
/// final.
pub proof fn lemma_done_is_terminal<E>(event: Event<E>)
    ensures
        !accepts(Phase::Done, event),
{
}

/// A run of one execution: step by step, the event received, the state
/// after it, and the action handed back, consecutive states linked by the
/// transition relation.
pub open spec fn run_ok<R, E>(
    start: CacheExecution<R>,
    steps: Seq<(Event<E>, CacheExecution<R>, Action<R, E>)>,
) -> bool
    decreases steps.len(),
{
    if steps.len() == 0 {
        true
    } else {
        let pre = if steps.len() == 1 {
            start
        } else {
            steps[steps.len() - 2].1
        };
        run_ok(start, steps.drop_last()) && step_spec(
            pre,
            steps.last().0,
            steps.last().1,
            steps.last().2,
        )
    }
}

/// How often a run handed the request downstream.
pub open spec fn forward_count<R, E>(steps: Seq<(Event<E>, CacheExecution<R>, Action<R, E>)>) -> nat
    decreases steps.len(),
{
    if steps.len() == 0 {
        0
    } else {
        forward_count(steps.drop_last()) + match steps.last().2 {
            Action::Forward(_) => 1nat,
            _ => 0nat,
        }
    }
}

/// How often a run asked for a store write.
pub open spec fn store_count<R, E>(steps: Seq<(Event<E>, CacheExecution<R>, Action<R, E>)>) -> nat
    decreases steps.len(),
{
    if steps.len() == 0 {
        0
    } else {
        store_count(steps.drop_last()) + match steps.last().2 {
            Action::Store => 1nat,
            _ => 0nat,
        }
    }
}

/// The run's counts, tied to the phase it has reached: before the lookup
/// resolves nothing was forwarded, before the downstream call succeeds
/// nothing was written, and neither happens twice.
proof fn lemma_run_counts<R, E>(
    start: CacheExecution<R>,
    steps: Seq<(Event<E>, CacheExecution<R>, Action<R, E>)>,
)
    requires
        start.phase == Phase::Init,
        run_ok(start, steps),
    ensures
        ({
            let end = if steps.len() == 0 {
                start
            } else {
                steps.last().1
            };
            &&& forward_count(steps) <= 1
            &&& store_count(steps) <= 1
            &&& ((end.phase == Phase::Init || end.phase == Phase::LookupPending) ==> forward_count(
                steps,
            ) == 0)
            &&& ((end.phase == Phase::Init || end.phase == Phase::LookupPending || end.phase
                == Phase::DownstreamPending) ==> store_count(steps) == 0)
        }),
    decreases steps.len(),
{
    if steps.len() > 0 {
        lemma_run_counts(start, steps.drop_last());
        if steps.len() > 1 {
            assert(steps.drop_last().last() == steps[steps.len() - 2]);
        }
    }
}

/// Protocol law: the request goes downstream only on a miss — a step that
/// hands the request out is the resolution of the store lookup with no
/// entry found.
pub proof fn lemma_forward_only_on_miss<R, E>(
    pre: CacheExecution<R>,
    event: Event<E>,
    post: CacheExecution<R>,
    action: Action<R, E>,
    request: R,
)
    requires
        step_spec(pre, event, post, action),
        action == Action::<R, E>::Forward(request),
    ensures
        pre.phase == Phase::LookupPending,
        event == Event::<E>::LookupDone(None),
        post.phase == Phase::DownstreamPending,
{
}

/// Protocol law: a store write is asked for only right after the downstream
/// handler succeeded.
pub proof fn lemma_store_only_after_downstream_ok<R, E>(
    pre: CacheExecution<R>,
    event: Event<E>,
    post: CacheExecution<R>,
    action: Action<R, E>,
)
    requires
        step_spec(pre, event, post, action),
        action == Action::<R, E>::Store,
    ensures
        pre.phase == Phase::DownstreamPending,
        event == Event::<E>::DownstreamOk,
        post.phase == Phase::StorePending,
{
}

/// Protocol law: within one execution started fresh, the request is handed
/// to the downstream handler at most once, and a store write is asked for
/// at most once.
pub proof fn lemma_at_most_once<R, E>(
    start: CacheExecution<R>,
    steps: Seq<(Event<E>, CacheExecution<R>, Action<R, E>)>,
)
    requires
        start.phase == Phase::Init,
        run_ok(start, steps),
    ensures
        forward_count(steps) <= 1,
        store_count(steps) <= 1,
{
    lemma_run_counts(start, steps);
}

} // verus!
