//! Inference requests: when one may run.
//!
//! A request starts idle. Binding a buffer to one of its named slots makes
//! it bound, and only a bound request may run. A run that succeeds leaves
//! the request idle again, to be bound anew and run again; a run that fails
//! leaves it bound. The native calls are made by the owner of the native
//! handle, who gives their statuses to the request.

use vstd::prelude::*;
use crate::status::{status_result, InferenceError, STATUS_OK};

verus! {

/// The state of a request.
#[derive(Debug, Clone, Copy, PartialEq, Eq, Structural)]
pub enum RequestState {
    /// Nothing has been bound since the request was made or last ran.
    Idle,
    /// A buffer has been bound; the request may run.
    Bound,
}

impl RequestState {
    /// The state after a bind that returned `status`: bound if it
    /// succeeded, else as before.
    pub open spec fn after_bind(self, status: i32) -> RequestState {
        if status == STATUS_OK {
            RequestState::Bound
        } else {
            self
        }
    }

    /// The outcome of asking this request to run: an idle one has not
    /// started.
    pub open spec fn ready(self) -> Result<(), InferenceError> {
        match self {
            RequestState::Idle => Err(InferenceError::InferNotStarted),
            RequestState::Bound => Ok(()),
        }
    }

    /// The outcome of a run whose native call returned `status`. An idle
    /// request does not run, whatever the status.
    pub open spec fn infer_result(self, status: i32) -> Result<(), InferenceError> {
        match self {
            RequestState::Idle => Err(InferenceError::InferNotStarted),
            RequestState::Bound => status_result(status),
        }
    }

    /// The state after a run whose native call returned `status`: idle if
    /// the request ran and succeeded, else as before.
    pub open spec fn after_infer(self, status: i32) -> RequestState {
        if self == RequestState::Bound && status == STATUS_OK {
            RequestState::Idle
        } else {
            self
        }
    }
}

/// One unit of execution of a compiled network.
#[derive(Debug)]
pub struct InferRequest {
    state: RequestState,
}

impl View for InferRequest {
    type V = RequestState;

    closed spec fn view(&self) -> RequestState {
        self.state
    }
}

impl InferRequest {
    /// A request to which nothing is bound.
    pub(crate) fn new() -> (request: InferRequest)
        ensures
            request@ == RequestState::Idle,
    {
        InferRequest { state: RequestState::Idle }
    }

    /// The state of the request.
    pub fn state(&self) -> (s: RequestState)
        ensures
            s == self@,
    {
        self.state
    }

    /// Takes the status with which the native call that binds a buffer to
    /// a slot has returned. The outcome is that of the call; if it
    /// succeeded the request is bound.
    pub fn set_blob(&mut self, status: i32) -> (r: Result<(), InferenceError>)
        ensures
            r == status_result(status),
            final(self)@ == old(self)@.after_bind(status),
    {
        let r = InferenceError::from(status);
        if r.is_ok() {
            self.state = RequestState::Bound;
        }
        r
    }

    /// Whether the request may run: an idle request answers
    /// `InferNotStarted`, and the native call must not be made.
    pub fn ready(&self) -> (r: Result<(), InferenceError>)
        ensures
            r == self@.ready(),
    {
        match self.state {
            RequestState::Idle => Err(InferenceError::InferNotStarted),
            RequestState::Bound => Ok(()),
        }
    }

    /// Takes the status with which the native call that runs the request
    /// has returned. On an idle request the outcome is `InferNotStarted`
    /// and the status is not looked at. On a bound request the outcome is
    /// that of the call; if it succeeded the request is idle again.
    pub fn infer(&mut self, status: i32) -> (r: Result<(), InferenceError>)
        ensures
            r == old(self)@.infer_result(status),
            final(self)@ == old(self)@.after_infer(status),
    {
        match self.state {
            RequestState::Idle => Err(InferenceError::InferNotStarted),
            RequestState::Bound => {
                let r = InferenceError::from(status);
                if r.is_ok() {
                    self.state = RequestState::Idle;
                }
                r
            },
        }
    }
}

} // verus!
