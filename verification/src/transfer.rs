//! A sequence of signals on its way to the hardware.
//!
//! A [`Transfer`] holds the signals that are still to be performed. The owner
//! of the hardware asks it for the next step, performs that step, and, where
//! the step can fail, reports the outcome to the [`Pending`] it was given.
//! The first failure ends the transfer: the signals behind it are dropped with
//! the `Pending`, and the error comes back tagged with the port that failed.

use vstd::prelude::*;
use crate::error::{Error, Port};
use crate::signal::{Frame, Signal};

verus! {

/// The signals still to be performed, first one first.
pub struct Transfer {
    signals: Vec<Signal>,
    position: usize,
}

/// A transfer with one signal on the hardware whose outcome is not known yet.
pub struct Pending {
    port: Port,
    rest: Transfer,
}

/// What the owner of the hardware has to do next.
pub enum Step {
    /// Drive `port` high or low, then settle `pending` with the outcome.
    Pin { port: Port, high: bool, pending: Pending },
    /// Write `frame` to `address`, then settle `pending` with the outcome.
    Bus { address: u8, frame: Frame, pending: Pending },
    /// Wait for `ms` milliseconds, then go on with `rest`.
    Hold { ms: u32, rest: Transfer },
    /// Nothing is left to do.
    Done,
}

impl View for Transfer {
    type V = Seq<Signal>;

    closed spec fn view(&self) -> Seq<Signal> {
        self.signals@.skip(self.position as int)
    }
}

impl Transfer {
    #[verifier::type_invariant]
    spec fn in_bounds(self) -> bool {
        self.position <= self.signals.len()
    }

    /// A transfer of `signals`, none of them performed yet.
    pub fn new(signals: Vec<Signal>) -> (transfer: Transfer)
        ensures
            transfer@ == signals@,
    {
        Transfer { signals, position: 0 }
    }

    /// How many signals are still to be performed.
    pub fn remaining(&self) -> (count: usize)
        ensures
            count == self@.len(),
    {
        proof {
            use_type_invariant(self);
        }
        self.signals.len() - self.position
    }

    /// Takes the first signal off the transfer and says what to do with it.
    pub fn advance(self) -> (step: Step)
        ensures
            match step {
                Step::Pin { port, high, pending } => {
                    &&& self@.len() > 0
                    &&& self@[0] == (Signal::Pin { port, high })
                    &&& pending.port() == port
                    &&& pending.rest() == self@.skip(1)
                },
                Step::Bus { address, frame, pending } => {
                    &&& self@.len() > 0
                    &&& self@[0] == (Signal::Bus { address, frame })
                    &&& pending.port() == Port::I2C
                    &&& pending.rest() == self@.skip(1)
                },
                Step::Hold { ms, rest } => {
                    &&& self@.len() > 0
                    &&& self@[0] == (Signal::Hold { ms })
                    &&& rest@ == self@.skip(1)
                },
                Step::Done => self@.len() == 0,
            },
    {
        proof {
            use_type_invariant(&self);
        }
        if self.position >= self.signals.len() {
            return Step::Done;
        }
        let signal: Signal = self.signals[self.position];
        let ghost before: Seq<Signal> = self@;
        let rest = Transfer { signals: self.signals, position: self.position + 1 };
        assert(rest@ =~= before.skip(1));
        match signal {
            Signal::Pin { port, high } => Step::Pin { port, high, pending: Pending { port, rest } },
            Signal::Bus { address, frame } => Step::Bus {
                address,
                frame,
                pending: Pending { port: Port::I2C, rest },
            },
            Signal::Hold { ms } => Step::Hold { ms, rest },
        }
    }
}

/// Whether a failure planned for the signal at index `at` of `plan` can
/// happen: there is such a signal, and it is one that can fail.
pub open spec fn strikes(plan: Seq<Signal>, at: int) -> bool {
    0 <= at < plan.len() && plan[at].port() is Some
}

/// The signals of `plan` that reach the hardware when the signal at index
/// `fault`, if any, fails: all up to and including that one.
pub open spec fn performed(plan: Seq<Signal>, fault: Option<int>) -> Seq<Signal> {
    match fault {
        Some(at) if strikes(plan, at) => plan.take(at + 1),
        _ => plan,
    }
}

/// How a transfer of `plan` ends when the signal at the index in `fault`, if
/// any, fails with the error beside it.
pub open spec fn verdict<E>(plan: Seq<Signal>, fault: Option<(int, E)>) -> Result<(), Error<E>> {
    match fault {
        Some((at, error)) if strikes(plan, at) => Err(
            Error::Io { port: plan[at].port()->Some_0, error },
        ),
        _ => Ok(()),
    }
}

/// The index alone of a planned failure.
pub open spec fn fault_index<E>(fault: Option<(usize, E)>) -> Option<int> {
    match fault {
        Some((at, _)) => Some(at as int),
        None => None,
    }
}

/// A planned failure with its index as a mathematical integer.
pub open spec fn fault_view<E>(fault: Option<(usize, E)>) -> Option<(int, E)> {
    match fault {
        Some((at, error)) => Some((at as int, error)),
        None => None,
    }
}

/// The outcome of the signal at `index` under the planned failure, and the
/// plan for the signals behind it.
fn outcome_at<E>(fault: Option<(usize, E)>, index: usize) -> (split: (
    Result<(), E>,
    Option<(usize, E)>,
))
    ensures
        match fault {
            Some((at, error)) if at == index => split.0 == Err::<(), E>(error),
            _ => split.0 is Ok && split.1 == fault,
        },
{
    match fault {
        Some((at, error)) => {
            if at == index {
                (Err(error), None)
            } else {
                (Ok(()), Some((at, error)))
            }
        },
        None => (Ok(()), None),
    }
}

impl Transfer {
    /// Runs the transfer with no hardware behind it. Every signal succeeds
    /// but the one at the index in `fault`, which fails with the error given
    /// there. Returns the signals that would have reached the hardware, in
    /// order, and the result that the caller would have seen.
    pub fn dry_run<E>(self, fault: Option<(usize, E)>) -> (run: (
        Vec<Signal>,
        Result<(), Error<E>>,
    ))
        ensures
            run.0@ == performed(self@, fault_index(fault)),
            run.1 == verdict(self@, fault_view(fault)),
    {
        let ghost plan: Seq<Signal> = self@;
        let ghost planned: Option<(usize, E)> = fault;
        let total: usize = self.remaining();
        let mut trace: Vec<Signal> = Vec::new();
        let mut transfer: Transfer = self;
        let mut armed: Option<(usize, E)> = fault;
        let mut index: usize = 0;
        loop
            invariant
                index <= plan.len() == total,
                trace@ == plan.take(index as int),
                transfer@ == plan.skip(index as int),
                plan == self@,
                planned == fault,
                armed == planned,
                planned matches Some((at, _)) ==> at < index ==> plan[at as int].port() is None,
            decreases plan.len() - index,
        {
            let step: Step = transfer.advance();
            let outcome: Result<(), E>;
            let pending: Pending;
            let signal: Signal;
            match step {
                Step::Done => {
                    assert(plan.take(index as int) =~= plan);
                    return (trace, Ok(()));
                },
                Step::Hold { ms, rest } => {
                    trace.push(Signal::Hold { ms });
                    assert(trace@ =~= plan.take(index + 1));
                    assert(rest@ =~= plan.skip(index + 1));
                    transfer = rest;
                    index = index + 1;
                    continue ;
                },
                Step::Pin { port, high, pending: waiting } => {
                    signal = Signal::Pin { port, high };
                    pending = waiting;
                },
                Step::Bus { address, frame, pending: waiting } => {
                    signal = Signal::Bus { address, frame };
                    pending = waiting;
                },
            }
            trace.push(signal);
            assert(trace@ =~= plan.take(index + 1));
            assert(pending.rest() =~= plan.skip(index + 1));
            let (outcome, later) = outcome_at(armed, index);
            armed = later;
            match pending.settle(outcome) {
                Ok(rest) => {
                    transfer = rest;
                },
                Err(error) => {
                    return (trace, Err(error));
                },
            }
            index = index + 1;
        }
    }
}

impl Pending {
    /// The port that the signal on the hardware drives.
    pub closed spec fn port(&self) -> Port {
        self.port
    }

    /// The signals that follow the one on the hardware.
    pub closed spec fn rest(&self) -> Seq<Signal> {
        self.rest@
    }

    /// Reports how the signal on the hardware went. After a success the
    /// transfer goes on with the signals that follow. A failure ends it: the
    /// error is tagged with the port, and no signal is handed out any more.
    pub fn settle<E>(self, outcome: Result<(), E>) -> (next: Result<Transfer, Error<E>>)
        ensures
            match outcome {
                Ok(_) => next is Ok && next->Ok_0@ == self.rest(),
                Err(error) => next is Err && next->Err_0 == (Error::Io {
                    port: self.port(),
                    error,
                }),
            },
    {
        match outcome {
            Ok(_) => Ok(self.rest),
            Err(error) => Err(Error::wrap_io(self.port, error)),
        }
    }
}

} // verus!
