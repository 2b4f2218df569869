//! Tests for the mailbox worker: failure persistence and batch flushing.

use zebra_headers::error::ChainError;
use zebra_headers::state::{RequestBlockHeader, Response, Service};
use zebra_headers::worker::{BatchControl, Worker};

/// A backing service whose readiness check fails on its n-th call and which
/// panics if the worker ever reaches it after that terminal failure.
struct FailOnNth {
    ready_calls: u32,
    fail_at: u32,
    items: u32,
    flushes: u32,
}

impl FailOnNth {
    fn new(fail_at: u32) -> Self {
        FailOnNth { ready_calls: 0, fail_at, items: 0, flushes: 0 }
    }
}

impl Service<BatchControl<RequestBlockHeader>> for FailOnNth {
    fn ready(&mut self) -> Result<(), ChainError> {
        self.ready_calls += 1;
        if self.ready_calls == self.fail_at {
            Err(ChainError::StoreFailure)
        } else if self.ready_calls > self.fail_at {
            panic!("the backing service was reached after its terminal failure");
        } else {
            Ok(())
        }
    }

    fn call(&mut self, req: BatchControl<RequestBlockHeader>) -> Result<Response, ChainError> {
        match req {
            BatchControl::Item(_) => {
                self.items += 1;
                Ok(Response::Depth(None))
            }
            BatchControl::Flush => {
                self.flushes += 1;
                Ok(Response::Depth(None))
            }
        }
    }
}

/// A backing service that never fails and counts what it sees.
struct Counting {
    items: u32,
    flushes: u32,
}

impl Service<BatchControl<RequestBlockHeader>> for Counting {
    fn ready(&mut self) -> Result<(), ChainError> {
        Ok(())
    }

    fn call(&mut self, req: BatchControl<RequestBlockHeader>) -> Result<Response, ChainError> {
        match req {
            BatchControl::Item(_) => {
                self.items += 1;
                Ok(Response::Depth(None))
            }
            BatchControl::Flush => {
                self.flushes += 1;
                Ok(Response::Depth(None))
            }
        }
    }
}

#[test]
fn worker_failure_is_persistent() {
    // the backing service fails on its 3rd readiness check
    let (initial_handle, mut worker) = Worker::new(FailOnNth::new(3), 100, 1_000);
    assert_eq!(initial_handle.get_error_on_closed(), ChainError::Closed);
    assert!(!worker.has_failed());

    // calls 1 and 2 succeed
    assert!(worker.process_req(RequestBlockHeader::GetTip).is_ok());
    assert!(worker.process_req(RequestBlockHeader::GetTip).is_ok());
    assert!(!worker.has_failed());

    // call 3 triggers the failure, and every later call receives the
    // identical captured error; FailOnNth panics if the worker were to
    // reach the service again.
    for _ in 0..5 {
        assert_eq!(
            worker.process_req(RequestBlockHeader::GetTip),
            Err(ChainError::StoreFailure)
        );
    }

    // callers that find the mailbox closed read the captured failure
    assert!(worker.has_failed());
    assert_eq!(
        worker.handle().get_error_on_closed(),
        ChainError::StoreFailure
    );
}

#[test]
fn worker_flushes_at_batch_bound() {
    let (_handle, mut worker) = Worker::new(Counting { items: 0, flushes: 0 }, 2, 1_000);
    let (r1, flushed1) = worker.handle_message(RequestBlockHeader::GetTip);
    assert!(r1.is_ok());
    assert!(!flushed1);
    let (r2, flushed2) = worker.handle_message(RequestBlockHeader::GetTip);
    assert!(r2.is_ok());
    assert!(flushed2);
    // a timer flush on an empty batch is still issued to the service
    worker.handle_timer::<RequestBlockHeader>();
    assert_eq!(worker.max_latency_ms(), 1_000);
}

#[test]
fn worker_timer_flush_resets_batch() {
    let (_handle, mut worker) = Worker::new(Counting { items: 0, flushes: 0 }, 10, 50);
    let (r, flushed) = worker.handle_message(RequestBlockHeader::GetTip);
    assert!(r.is_ok());
    assert!(!flushed);
    worker.handle_timer::<RequestBlockHeader>();
    // after the timer flush the batch is empty again: the bound is not hit
    // one message earlier
    let (r, flushed) = worker.handle_message(RequestBlockHeader::GetTip);
    assert!(r.is_ok());
    assert!(!flushed);
}
