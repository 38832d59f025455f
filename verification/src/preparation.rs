//! How a network is prepared for inference.
//!
//! Preparing a network takes several native calls, each of which may fail.
//! The calls are made one after the other, and the first failure ends the
//! preparation: no later call is made, and that failure is the result.
//! `Preparation` decides which call comes next; its user makes the call and
//! gives back the status.

use vstd::prelude::*;
use crate::status::{
    first_failure,
    leading_successes,
    status_error,
    InferenceError,
    STATUS_OK,
};
use crate::tags::{Layout, Precision, ResizeAlgorithm};

verus! {

/// The side of the network that a tensor is on.
#[derive(Debug, Clone, Copy, PartialEq, Eq, Structural)]
pub enum Side {
    Input,
    Output,
}

/// Something that can be set on a tensor of a network.
#[derive(Debug, Clone, Copy, PartialEq, Eq, Structural)]
pub enum Setting {
    Resize(ResizeAlgorithm),
    Layout(Layout),
    Precision(Precision),
}

/// The number of calls that prepare a network.
pub const PREP_CALLS: usize = 4;

/// The calls that prepare a network, in the order in which they are made:
/// the input is resized bilinearly, laid out as NHWC and read as unsigned
/// bytes; the output is written as 32-bit floating point.
pub open spec fn prep_plan() -> Seq<(Side, Setting)> {
    seq![
        (Side::Input, Setting::Resize(ResizeAlgorithm::Bilinear)),
        (Side::Input, Setting::Layout(Layout::NHWC)),
        (Side::Input, Setting::Precision(Precision::U8)),
        (Side::Output, Setting::Precision(Precision::FP32)),
    ]
}

/// One native call that configures a tensor: which tensor, and what is set
/// on it.
#[derive(Debug, Clone, Copy, PartialEq, Eq)]
pub struct ConfigCall<'a> {
    pub side: Side,
    pub name: &'a str,
    pub setting: Setting,
}

/// A preparation, as mathematics: the two tensor names, how many calls have
/// succeeded, and the failure that ended it, if one did.
pub struct PreparationView {
    pub input: Seq<char>,
    pub output: Seq<char>,
    pub applied: nat,
    pub failure: Option<InferenceError>,
}

impl PreparationView {
    /// A preparation of which no call has been made yet.
    pub open spec fn start(input: Seq<char>, output: Seq<char>) -> PreparationView {
        PreparationView { input, output, applied: 0, failure: None }
    }

    /// Whether a call is still to be made.
    pub open spec fn pending(self) -> bool {
        self.failure is None && self.applied < PREP_CALLS
    }

    /// The name of the tensor on the given side.
    pub open spec fn name(self, side: Side) -> Seq<char> {
        match side {
            Side::Input => self.input,
            Side::Output => self.output,
        }
    }

    /// The preparation after the pending call has returned `status`. Where
    /// no call is pending, nothing changes.
    pub open spec fn record(self, status: i32) -> PreparationView {
        if !self.pending() {
            self
        } else if status == STATUS_OK {
            PreparationView { applied: self.applied + 1, ..self }
        } else {
            PreparationView { failure: status_error(status), ..self }
        }
    }

    /// The result of the preparation, once no call is pending.
    pub open spec fn result(self) -> Option<Result<(), InferenceError>> {
        if self.pending() {
            None
        } else {
            match self.failure {
                Some(e) => Some(Err(e)),
                None => Some(Ok(())),
            }
        }
    }

    /// The preparation after its calls have returned `statuses`, one after
    /// the other.
    pub open spec fn run(self, statuses: Seq<i32>) -> PreparationView
        decreases statuses.len(),
    {
        if statuses.len() == 0 {
            self
        } else {
            self.record(statuses[0]).run(statuses.skip(1))
        }
    }
}

/// The preparation of one input and one output of a network.
#[derive(Debug)]
pub struct Preparation {
    input: String,
    output: String,
    applied: usize,
    failure: Option<InferenceError>,
}

impl View for Preparation {
    type V = PreparationView;

    closed spec fn view(&self) -> PreparationView {
        PreparationView {
            input: self.input@,
            output: self.output@,
            applied: self.applied as nat,
            failure: self.failure,
        }
    }
}

impl Preparation {
    /// Begins the preparation of the input and the output with the given
    /// names. No call has been made yet.
    pub fn new(input_name: &str, output_name: &str) -> (prep: Preparation)
        ensures
            prep@ == PreparationView::start(input_name@, output_name@),
    {
        Preparation {
            input: input_name.to_owned(),
            output: output_name.to_owned(),
            applied: 0,
            failure: None,
        }
    }

    /// The call to make next; `None` once the preparation has ended, be it
    /// with the last call or with a failure.
    pub fn next(&self) -> (call: Option<ConfigCall<'_>>)
        ensures
            call is Some <==> self@.pending(),
            call matches Some(c) ==> {
                &&& (c.side, c.setting) == prep_plan()[self@.applied as int]
                &&& c.name@ == self@.name(c.side)
            },
    {
        if self.failure.is_some() {
            return None;
        }
        if self.applied == 0 {
            Some(
                ConfigCall {
                    side: Side::Input,
                    name: self.input.as_str(),
                    setting: Setting::Resize(ResizeAlgorithm::Bilinear),
                },
            )
        } else if self.applied == 1 {
            Some(
                ConfigCall {
                    side: Side::Input,
                    name: self.input.as_str(),
                    setting: Setting::Layout(Layout::NHWC),
                },
            )
        } else if self.applied == 2 {
            Some(
                ConfigCall {
                    side: Side::Input,
                    name: self.input.as_str(),
                    setting: Setting::Precision(Precision::U8),
                },
            )
        } else if self.applied == 3 {
            Some(
                ConfigCall {
                    side: Side::Output,
                    name: self.output.as_str(),
                    setting: Setting::Precision(Precision::FP32),
                },
            )
        } else {
            None
        }
    }

    /// Takes the status with which the call that `next` named has returned.
    /// Success moves on to the next call; anything else ends the
    /// preparation with that failure. Once the preparation has ended, a
    /// status changes nothing.
    pub fn record(&mut self, status: i32)
        ensures
            final(self)@ == old(self)@.record(status),
    {
        if self.failure.is_some() || self.applied >= PREP_CALLS {
            return ;
        }
        match InferenceError::from(status) {
            Ok(()) => {
                self.applied = self.applied + 1;
            },
            Err(e) => {
                self.failure = Some(e);
            },
        }
    }

    /// The result of the preparation: `None` while a call is pending, then
    /// success if every call succeeded, else the failure of the call that
    /// failed.
    pub fn result(&self) -> (r: Option<Result<(), InferenceError>>)
        ensures
            r == self@.result(),
    {
        match self.failure {
            Some(e) => Some(Err(e)),
            None => {
                if self.applied < PREP_CALLS {
                    None
                } else {
                    Some(Ok(()))
                }
            },
        }
    }
}

/// A preparation reports the first failure, and makes no call after it.
///
/// Let the calls return `statuses`, one after the other. Then as many calls
/// have succeeded as there are successes at the front of the first four
/// statuses, and the failure is that of the first among them that is not a
/// success. Once a status has failed, or all four calls have succeeded, no
/// call is pending; until then one is.
pub proof fn preparation_reports_first_failure(
    input: Seq<char>,
    output: Seq<char>,
    statuses: Seq<i32>,
)
    ensures
        ({
            let done = PreparationView::start(input, output).run(statuses);
            let asked = statuses.take(
                if statuses.len() < PREP_CALLS {
                    statuses.len() as int
                } else {
                    PREP_CALLS as int
                },
            );
            &&& done.input == input && done.output == output
            &&& done.applied == leading_successes(asked)
            &&& done.failure == first_failure(asked)
            &&& done.pending() <==> first_failure(statuses) is None && statuses.len() < PREP_CALLS
            &&& !done.pending() ==> done.result() == Some(
                match first_failure(asked) {
                    Some(e) => Err::<(), InferenceError>(e),
                    None => Ok(()),
                },
            )
        }),
{
    run_from(PreparationView::start(input, output), statuses);
    let asked = statuses.take(
        if statuses.len() < PREP_CALLS {
            statuses.len() as int
        } else {
            PREP_CALLS as int
        },
    );
    failure_in_front(statuses, asked.len() as int);
}

/// What `run` gives from any state without a failure: the statuses that
/// are asked for are the first `PREP_CALLS - applied` of them.
proof fn run_from(from: PreparationView, statuses: Seq<i32>)
    requires
        from.failure is None,
        from.applied <= PREP_CALLS,
    ensures
        ({
            let done = from.run(statuses);
            let room = PREP_CALLS - from.applied;
            let asked = statuses.take(
                if statuses.len() < room {
                    statuses.len() as int
                } else {
                    room
                },
            );
            &&& done.input == from.input && done.output == from.output
            &&& done.applied == from.applied + leading_successes(asked)
            &&& done.applied <= PREP_CALLS
            &&& done.failure == first_failure(asked)
        }),
    decreases statuses.len(),
{
    let room = PREP_CALLS - from.applied;
    let asked = statuses.take(
        if statuses.len() < room {
            statuses.len() as int
        } else {
            room
        },
    );
    if statuses.len() == 0 {
    } else if room == 0 {
        ended_stays(from, statuses);
    } else if statuses[0] != STATUS_OK {
        ended_stays(from.record(statuses[0]), statuses.skip(1));
    } else {
        let next = from.record(statuses[0]);
        let rest = statuses.skip(1);
        run_from(next, rest);
        let room1 = PREP_CALLS - next.applied;
        let asked1 = rest.take(
            if rest.len() < room1 {
                rest.len() as int
            } else {
                room1
            },
        );
        assert(asked.skip(1) =~= asked1);
    }
}

/// Once a preparation has ended, no status changes it.
proof fn ended_stays(from: PreparationView, statuses: Seq<i32>)
    requires
        !from.pending(),
    ensures
        from.run(statuses) == from,
    decreases statuses.len(),
{
    if statuses.len() > 0 {
        ended_stays(from, statuses.skip(1));
    }
}

/// Whether the first `n` statuses hold a failure decides whether all of
/// them do, as long as `n` stops at the first failure or at the end.
proof fn failure_in_front(statuses: Seq<i32>, n: int)
    requires
        0 <= n <= statuses.len(),
    ensures
        first_failure(statuses.take(n)) is Some ==> first_failure(statuses) is Some,
        leading_successes(statuses.take(n)) <= n,
        first_failure(statuses.take(n)) is None <==> leading_successes(statuses.take(n)) == n,
        n == statuses.len() ==> statuses.take(n) == statuses,
        first_failure(statuses) is None ==> first_failure(statuses.take(n)) is None,
    decreases n,
{
    if n == statuses.len() {
        assert(statuses.take(n) =~= statuses);
    }
    if n > 0 {
        let front = statuses.take(n);
        assert(front.skip(1) =~= statuses.skip(1).take(n - 1));
        failure_in_front(statuses.skip(1), n - 1);
    }
}

} // verus!
