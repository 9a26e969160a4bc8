//! The cache middleware: wraps a downstream handler, owns nothing but that
//! handler, and produces one cache execution per inbound request.
//!
//! `run_cached` is the whole protocol run end to end against a real store,
//! with the downstream handler's contribution given as a value: what it
//! resolved to once called. Its contract is the caching layer's statement —
//! a hit serves the stored bytes and never forwards; a miss forwards exactly
//! once and either stores the fresh body and serves it, or leaves the store
//! untouched and reports the failure.
//!
//! Executions on distinct keys are fully independent. Executions on the
//! identical key have no mutual exclusion: both may miss, both may call
//! downstream, and both may write, the last write winning — the store
//! serializes the individual reads and writes only, and a single-flight
//! guarantee would take a per-key in-flight registry this layer does not
//! have.

use vstd::prelude::*;

use crate::exec::{Action, CacheError, CacheExecution, Event};
use crate::store::CacheStore;

verus! {

/// How the downstream handler's work resolved for one forwarded request.
pub enum DownstreamOutcome<E> {
    /// The handler succeeded and its response body was fully read: these
    /// bytes.
    Body(Vec<u8>),
    /// The handler failed with this error.
    Failed(E),
    /// The handler succeeded but its response body could not be read.
    BodyUnreadable,
}

/// What one finished execution handed back to the pipeline.
pub struct Completion<E> {
    /// The terminal result: the served bytes, or a typed failure.
    pub result: Result<Vec<u8>, CacheError<E>>,
    /// Whether the request was forwarded to the downstream handler.
    pub forwarded: bool,
}

/// Runs one cache execution to completion against `store`: the lookup, then,
/// only on a miss, the downstream call whose resolution is `downstream`, then
/// the store write. The request is consumed exactly once.
pub fn run_cached<R, E>(
    store: &mut CacheStore,
    key: String,
    request: R,
    downstream: DownstreamOutcome<E>,
) -> (completion: Completion<E>)
    ensures
        completion.forwarded == !old(store)@.contains_key(key@),
        old(store)@.contains_key(key@) ==> {
            &&& final(store)@ == old(store)@
            &&& completion.result matches Ok(bytes) && bytes@ == old(store)@[key@]
        },
        !old(store)@.contains_key(key@) ==> match downstream {
            DownstreamOutcome::Body(body) => {
                &&& final(store)@ == old(store)@.insert(key@, body@)
                &&& completion.result matches Ok(bytes) && bytes@ == body@
            },
            DownstreamOutcome::Failed(err) => {
                &&& final(store)@ == old(store)@
                &&& !final(store)@.contains_key(key@)
                &&& completion.result == Err::<Vec<u8>, CacheError<E>>(CacheError::Downstream(err))
            },
            DownstreamOutcome::BodyUnreadable => {
                &&& final(store)@ == old(store)@
                &&& !final(store)@.contains_key(key@)
                &&& completion.result == Err::<Vec<u8>, CacheError<E>>(CacheError::BodyRead)
            },
        },
{
    let mut execution = CacheExecution::new(key.clone(), request);
    let started = execution.step::<E>(Event::Start);
    match started {
        Action::Lookup => {},
        _ => unreached(),
    }
    let found = store.get(&key);
    let looked_up = execution.step::<E>(Event::LookupDone(found));
    match looked_up {
        Action::Finish(result) => {
            // Hit: the stored bytes are served; downstream is never touched.
            Completion { result, forwarded: false }
        },
        Action::Forward(_request) => {
            // Miss: the request went downstream; `downstream` is how that
            // call resolved.
            match downstream {
                DownstreamOutcome::Body(body) => {
                    let stored = execution.step::<E>(Event::DownstreamOk);
                    match stored {
                        Action::Store => {},
                        _ => unreached(),
                    }
                    let confirmed = store.set(key, body);
                    let finished = execution.step::<E>(Event::StoreDone(confirmed));
                    match finished {
                        Action::Finish(result) => Completion { result, forwarded: true },
                        _ => unreached(),
                    }
                },
                DownstreamOutcome::Failed(err) => {
                    let finished = execution.step::<E>(Event::DownstreamFailed(err));
                    match finished {
                        Action::Finish(result) => Completion { result, forwarded: true },
                        _ => unreached(),
                    }
                },
                DownstreamOutcome::BodyUnreadable => {
                    let stored = execution.step::<E>(Event::DownstreamOk);
                    match stored {
                        Action::Store => {},
                        _ => unreached(),
                    }
                    let finished = execution.step::<E>(Event::BodyFailed);
                    match finished {
                        Action::Finish(result) => Completion { result, forwarded: true },
                        _ => unreached(),
                    }
                },
            }
        },
        _ => unreached(),
    }
}

/// The cache middleware: wraps a downstream handler; each call constructs
/// exactly one fresh cache execution for the inbound request.
#[derive(Clone)]
pub struct CacheService<S> {
    /// The wrapped downstream handler.
    pub inner: S,
}

impl<S> CacheService<S> {
    /// Wraps `inner`; readiness and every miss are delegated to it.
    pub fn new(inner: S) -> (service: Self)
        ensures
            service.inner == inner,
    {
        CacheService { inner }
    }
}

/// Builds the cache middleware around a downstream handler.
#[derive(Clone)]
pub struct CacheLayer;

impl CacheLayer {
    /// Wraps `inner` in a [`CacheService`].
    pub fn layer<S>(&self, inner: S) -> (service: CacheService<S>)
        ensures
            service.inner == inner,
    {
        CacheService::new(inner)
    }
}

} // verus!
