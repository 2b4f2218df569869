//! The single-consumer worker behind the bounded mailbox: it gives many
//! concurrent callers single-threaded, ordered access to one underlying
//! service, with optional request batching.
//!
//! The mailbox, timers and task spawning are asynchronous plumbing and live
//! outside the library; this module holds the worker's state machine. The
//! driving loop feeds it one message at a time — in arrival order, which is
//! what makes access single-flight and FIFO — and flushes when the timer
//! elapses.
//!
//! Failure persistence: once the underlying service reports a failure from
//! its readiness check, that failure is captured once and every request —
//! the one that triggered it and every later one — receives the same
//! captured error; the service is never called again by this worker.

use vstd::prelude::*;

use crate::error::ChainError;
use crate::state::{Response, Service};

verus! {

/// What the worker hands to a batch-aware service: one more item, or the
/// order to flush the batch gathered so far.
pub enum BatchControl<R> {
    /// One request to accumulate.
    Item(R),
    /// Flush the accumulated batch now.
    Flush,
}

/// A caller-side view of the worker's captured failure, for reporting why
/// the mailbox closed.
#[derive(Clone, Copy, Debug)]
pub struct Handle {
    error: Option<ChainError>,
}

impl Handle {
    /// The failure this handle carries, if one was captured.
    pub closed spec fn spec_error(&self) -> Option<ChainError> {
        self.error
    }

    /// The error a caller observes after the mailbox closed: the captured
    /// service failure, or `Closed` when the worker exited without failing.
    pub fn get_error_on_closed(&self) -> (r: ChainError)
        ensures
            r == match self.spec_error() {
                Some(e) => e,
                None => ChainError::Closed,
            },
    {
        match self.error {
            Some(e) => e,
            None => ChainError::Closed,
        }
    }
}

/// The state machine of the mailbox worker: the underlying service, the
/// failure captured from it (terminal once set), and the batch bookkeeping.
pub struct Worker<S> {
    service: S,
    failed: Option<ChainError>,
    handle: Handle,
    max_items: usize,
    max_latency_ms: u64,
    pending_items: usize,
    service_calls: Ghost<nat>,
}

impl<S> Worker<S> {
    /// The failure captured from the service's readiness check, if any.
    pub closed spec fn spec_failed(&self) -> Option<ChainError> {
        self.failed
    }

    /// The underlying service.
    pub closed spec fn spec_service(&self) -> S {
        self.service
    }

    /// The caller-side handle as it currently reads.
    pub closed spec fn spec_handle(&self) -> Handle {
        self.handle
    }

    /// Number of items accumulated in the current batch.
    pub closed spec fn spec_pending(&self) -> usize {
        self.pending_items
    }

    /// The batch size bound.
    pub closed spec fn spec_max_items(&self) -> usize {
        self.max_items
    }

    /// How many calls have reached the underlying service.
    pub closed spec fn spec_calls(&self) -> nat {
        self.service_calls@
    }

    /// The handle always reads exactly the captured failure. Established by
    /// `new` and preserved by every method.
    pub open spec fn consistent(&self) -> bool {
        self.spec_handle().spec_error() == self.spec_failed()
    }

    /// Builds a worker around a service, with the batch bounded by
    /// `max_items` items or `max_latency_ms` milliseconds, whichever comes
    /// first. Returns the initial caller-side handle alongside.
    pub fn new(service: S, max_items: usize, max_latency_ms: u64) -> (r: (Handle, Worker<S>))
        requires
            max_items >= 1,
        ensures
            r.1.consistent(),
            r.1.spec_failed() is None,
            r.1.spec_service() == service,
            r.1.spec_pending() == 0,
            r.1.spec_max_items() == max_items,
            r.1.spec_calls() == 0,
            r.0.spec_error() is None,
    {
        let handle = Handle { error: None };
        let worker = Worker {
            service,
            failed: None,
            handle,
            max_items,
            max_latency_ms,
            pending_items: 0,
            service_calls: Ghost(0),
        };
        (handle, worker)
    }

    /// A fresh snapshot of the caller-side handle.
    pub fn handle(&self) -> (r: Handle)
        ensures
            r == self.spec_handle(),
    {
        self.handle
    }

    /// Whether a terminal failure has been captured. The driving loop uses
    /// this to close the mailbox to new senders once the worker has failed.
    pub fn has_failed(&self) -> (r: bool)
        ensures
            r == (self.spec_failed() is Some),
    {
        self.failed.is_some()
    }

    /// Captures the first failure: the handle exposes it, and later requests
    /// will be answered with it. A failure that arrives after one was
    /// already captured is dropped.
    fn failed(&mut self, error: ChainError)
        requires
            old(self).consistent(),
        ensures
            final(self).consistent(),
            final(self).spec_failed() == if old(self).spec_failed() is Some {
                old(self).spec_failed()
            } else {
                Some(error)
            },
            final(self).spec_service() == old(self).spec_service(),
            final(self).spec_calls() == old(self).spec_calls(),
            final(self).spec_pending() == old(self).spec_pending(),
            final(self).spec_max_items() == old(self).spec_max_items(),
    {
        if self.failed.is_some() {
            return ;
        }
        self.handle = Handle { error: Some(error) };
        self.failed = Some(error);
    }
}

impl<S> Worker<S> {
    /// Dispatches one request. An already-failed worker answers the request
    /// with the captured failure and is left byte-for-byte unchanged — so by
    /// induction over the calls that follow a failure, every one of them
    /// receives the identical captured error and none reaches the backing
    /// service. Otherwise the request reaches the service once its readiness
    /// check passes, and a readiness failure is captured as terminal.
    pub fn process_req<R>(&mut self, req: R) -> (r: Result<Response, ChainError>) where
        S: Service<BatchControl<R>>,

        requires
            old(self).consistent(),
        ensures
            final(self).consistent(),
            final(self).spec_pending() == old(self).spec_pending(),
            final(self).spec_max_items() == old(self).spec_max_items(),
            old(self).spec_failed() matches Some(e) ==> r == Err::<Response, ChainError>(e)
                && *final(self) == *old(self),
            old(self).spec_failed() is None ==> (final(self).spec_failed() matches Some(e) ==> r
                == Err::<Response, ChainError>(e)
                && final(self).spec_calls() == old(self).spec_calls()),
            final(self).spec_failed() is None ==> old(self).spec_failed() is None
                && final(self).spec_calls() == old(self).spec_calls() + 1,
    {
        match self.failed {
            Some(e) => Err(e),
            None => {
                match self.service.ready() {
                    Ok(_) => {
                        self.service_calls = Ghost(self.service_calls@ + 1);
                        self.service.call(BatchControl::Item(req))
                    },
                    Err(e) => {
                        self.failed(e);
                        match self.failed {
                            Some(captured) => Err(captured),
                            None => Err(ChainError::Closed),
                        }
                    },
                }
            },
        }
    }

    /// Issues one flush call to the underlying service; a failure of the
    /// readiness check or of the flush itself is captured as terminal. A
    /// worker whose failure is already captured does not touch the service.
    pub fn flush_service<R>(&mut self) where S: Service<BatchControl<R>>
        requires
            old(self).consistent(),
        ensures
            final(self).consistent(),
            final(self).spec_pending() == old(self).spec_pending(),
            final(self).spec_max_items() == old(self).spec_max_items(),
            old(self).spec_failed() matches Some(e) ==> *final(self) == *old(self),
            final(self).spec_failed() is None ==> final(self).spec_calls() == old(self).spec_calls()
                + 1,
    {
        if self.failed.is_some() {
            return ;
        }
        match self.service.ready() {
            Ok(_) => {
                self.service_calls = Ghost(self.service_calls@ + 1);
                match self.service.call(BatchControl::Flush) {
                    Ok(_) => (),
                    Err(e) => self.failed(e),
                }
            },
            Err(e) => self.failed(e),
        }
    }

    /// One step of the worker loop for an arriving message: dispatch the
    /// request, count it against the batch, and flush when the batch bound
    /// is reached. The second result says whether a flush happened, so the
    /// driving loop can stop or restart its latency timer.
    pub fn handle_message<R>(&mut self, req: R) -> (r: (Result<Response, ChainError>, bool)) where
        S: Service<BatchControl<R>>,

        requires
            old(self).consistent(),
            old(self).spec_pending() < old(self).spec_max_items(),
        ensures
            final(self).consistent(),
            r.1 == (old(self).spec_pending() + 1 >= old(self).spec_max_items()),
            r.1 ==> final(self).spec_pending() == 0,
            !r.1 ==> final(self).spec_pending() == old(self).spec_pending() + 1,
            old(self).spec_failed() matches Some(e) ==> r.0 == Err::<Response, ChainError>(e)
                && final(self).spec_failed() == Some(e)
                && final(self).spec_calls() == old(self).spec_calls(),
    {
        let result = self.process_req(req);
        self.pending_items = self.pending_items + 1;
        if self.pending_items >= self.max_items {
            self.flush_service();
            self.pending_items = 0;
            (result, true)
        } else {
            (result, false)
        }
    }

    /// One step of the worker loop for an elapsed latency timer: flush the
    /// batch gathered so far and start a new, empty batch.
    pub fn handle_timer<R>(&mut self) where S: Service<BatchControl<R>>
        requires
            old(self).consistent(),
        ensures
            final(self).consistent(),
            final(self).spec_pending() == 0,
            old(self).spec_failed() matches Some(e) ==> final(self).spec_failed() == Some(e),
    {
        self.flush_service();
        self.pending_items = 0;
    }

    /// The configured latency bound, for the driving loop's timer.
    pub fn max_latency_ms(&self) -> u64 {
        self.max_latency_ms
    }
}

} // verus!
