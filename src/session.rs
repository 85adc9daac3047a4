use crate::bus::{signals, BusOp, Signal};
use crate::driver::DisplayError;
use vstd::prelude::*;

verus! {

/// What the transport reports of one performed operation.
#[derive(Clone, Copy, Debug, PartialEq, Eq, Structural)]
pub enum Outcome {
    /// The operation completed: for a write, every byte was clocked out.
    Done,
    /// The bus or a control line reported a fault.
    Fault,
}

/// The run of planned traffic through a transport. Operations are handed out
/// strictly in order, one at a time; after a fault nothing more is handed out
/// and the run ends with [`DisplayError::TransportFault`].
pub struct Exchange {
    ops: Vec<BusOp>,
    performed: usize,
    failed: bool,
}

impl Exchange {
    #[verifier::type_invariant]
    spec fn within_plan(&self) -> bool {
        self.performed <= self.ops@.len()
    }

    /// The traffic to be performed, in order.
    pub closed spec fn plan(&self) -> Seq<Signal> {
        signals(self.ops@)
    }

    /// How many operations of the plan have completed.
    pub closed spec fn performed(&self) -> nat {
        self.performed as nat
    }

    /// Whether the transport reported a fault.
    pub closed spec fn failed(&self) -> bool {
        self.failed
    }

    /// Whether an operation is waiting to be performed.
    pub open spec fn pending(&self) -> bool {
        !self.failed() && self.performed() < self.plan().len()
    }

    /// A run of `ops` with nothing performed yet.
    pub fn new(ops: Vec<BusOp>) -> (e: Exchange)
        ensures
            e.plan() == signals(ops@),
            e.performed() == 0,
            !e.failed(),
    {
        Exchange { ops, performed: 0, failed: false }
    }

    /// The operation to perform next; none once the plan is done or a fault
    /// was reported.
    pub fn next_op(&self) -> (op: Option<&BusOp>)
        ensures
            op is Some <==> self.pending(),
            op is Some ==> op->0@ == self.plan()[self.performed() as int],
    {
        proof {
            use_type_invariant(self);
        }
        if self.failed || self.performed >= self.ops.len() {
            None
        } else {
            Some(&self.ops[self.performed])
        }
    }

    /// Records what became of the operation that [`Exchange::next_op`] handed out.
    /// With nothing pending, the outcome is ignored.
    pub fn record(&mut self, outcome: Outcome)
        ensures
            final(self).plan() == old(self).plan(),
            old(self).pending() && outcome == Outcome::Done ==> final(self).performed()
                == old(self).performed() + 1 && !final(self).failed(),
            old(self).pending() && outcome == Outcome::Fault ==> final(self).performed()
                == old(self).performed() && final(self).failed(),
            !old(self).pending() ==> final(self).performed() == old(self).performed()
                && final(self).failed() == old(self).failed(),
    {
        proof {
            use_type_invariant(&*self);
        }
        if !self.failed && self.performed < self.ops.len() {
            match outcome {
                Outcome::Done => {
                    self.performed = self.performed + 1;
                },
                Outcome::Fault => {
                    self.failed = true;
                },
            }
        }
    }

    /// How the run ended: none while operations are pending, success once the
    /// whole plan is performed, a transport fault once one was reported.
    pub fn status(&self) -> (r: Option<Result<(), DisplayError>>)
        ensures
            self.pending() <==> r is None,
            self.failed() ==> r == Some(Err::<(), DisplayError>(DisplayError::TransportFault)),
            !self.failed() && self.performed() == self.plan().len() ==> r == Some(
                Ok::<(), DisplayError>(()),
            ),
    {
        proof {
            use_type_invariant(self);
        }
        if self.failed {
            Some(Err(DisplayError::TransportFault))
        } else if self.performed >= self.ops.len() {
            Some(Ok(()))
        } else {
            None
        }
    }
}

} // verus!
