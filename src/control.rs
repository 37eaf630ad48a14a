use vstd::prelude::*;

use crate::error::Error;

verus! {

/// Where the loop stands between and during `run` / `poll` calls.
#[derive(Clone, Copy, Debug, PartialEq, Eq, Structural)]
pub enum RunState {
    Stopped,
    Running,
    Exiting,
}

/// What must happen to a failure raised inside a callback.
#[derive(Clone, Copy, Debug, PartialEq, Eq, Structural)]
pub enum FailureAction {
    /// The failure sits in the panic cell and is re-raised by the driving call.
    Propagate,
    /// No driving call is waiting: the process must terminate.
    Abort,
}

/// Run state plus the single-slot panic cell of one event loop.
///
/// A failure is identified by an opaque token; the payload itself is kept by
/// whoever caught it.
pub struct LoopControl {
    pub state: RunState,
    pub panic: Option<u64>,
}

impl LoopControl {
    /// The panic cell is only ever occupied while a driving call owns the loop.
    pub open spec fn wf(&self) -> bool {
        self.state == RunState::Stopped ==> self.panic.is_none()
    }

    pub fn new() -> (r: LoopControl)
        ensures
            r.wf(),
            r.state == RunState::Stopped,
            r.panic.is_none(),
    {
        LoopControl { state: RunState::Stopped, panic: None }
    }

    /// Entry of `run` or `poll`: the reentrancy guard.
    pub fn begin(&mut self) -> (r: Result<(), Error>)
        requires
            old(self).wf(),
        ensures
            final(self).wf(),
            old(self).state == RunState::Stopped ==> r.is_ok() && final(self).state
                == RunState::Running && final(self).panic.is_none(),
            old(self).state != RunState::Stopped ==> r == Err::<(), Error>(Error::AlreadyRunning)
                && *final(self) == *old(self),
    {
        match self.state {
            RunState::Stopped => {
                self.state = RunState::Running;
                Ok(())
            },
            _ => Err(Error::AlreadyRunning),
        }
    }

    /// Requests that the driving call return; moot when nothing is running.
    pub fn exit(&mut self)
        requires
            old(self).wf(),
        ensures
            final(self).wf(),
            final(self).panic == old(self).panic,
            final(self).state == exit_spec(old(self).state),
    {
        if self.state == RunState::Running {
            self.state = RunState::Exiting;
        }
    }

    /// Whether the pump may take another native event.
    pub fn is_pumping(&self) -> (r: bool)
        ensures
            r == (self.state == RunState::Running),
    {
        self.state == RunState::Running
    }

    /// A callback failed: store the failure in the panic cell, replacing any
    /// earlier one, and force the loop to stop; or abort when no driving call
    /// is there to re-raise it.
    pub fn capture_failure(&mut self, failure: u64) -> (r: FailureAction)
        requires
            old(self).wf(),
        ensures
            final(self).wf(),
            old(self).state == RunState::Stopped ==> r == FailureAction::Abort && *final(self)
                == *old(self),
            old(self).state != RunState::Stopped ==> r == FailureAction::Propagate
                && final(self).state == RunState::Exiting && final(self).panic == Some(failure),
    {
        if self.state == RunState::Stopped {
            return FailureAction::Abort;
        }
        self.state = RunState::Exiting;
        self.panic = Some(failure);
        FailureAction::Propagate
    }

    /// Exit of `run` or `poll`: releases the guard and hands back any
    /// captured failure to be re-raised.
    pub fn finish(&mut self) -> (r: Result<(), u64>)
        requires
            old(self).wf(),
        ensures
            final(self).wf(),
            final(self).state == RunState::Stopped,
            final(self).panic.is_none(),
            r == (match old(self).panic {
                Some(p) => Err(p),
                None => Ok(()),
            }),
    {
        self.state = RunState::Stopped;
        match self.panic.take() {
            Some(p) => Err(p),
            None => Ok(()),
        }
    }
}

/// The state after an exit request.
pub open spec fn exit_spec(s: RunState) -> RunState {
    if s == RunState::Running {
        RunState::Exiting
    } else {
        s
    }
}

/// How many queued native events a driving call takes when it checks that it
/// is still pumping before each one; `exits[i]` says whether the callback of
/// event `i` called `exit`.
pub open spec fn events_taken(state: RunState, exits: Seq<bool>) -> nat
    decreases exits.len(),
{
    if exits.len() == 0 || state != RunState::Running {
        0
    } else {
        let next = if exits[0] {
            exit_spec(state)
        } else {
            state
        };
        1 + events_taken(next, exits.subrange(1, exits.len() as int))
    }
}

/// `exit` called from inside the callback of queued event `k` ends the run
/// right after that event: none of the events queued after it is taken.
pub proof fn lemma_exit_stops_before_next_event(exits: Seq<bool>, k: int)
    requires
        0 <= k < exits.len(),
        exits[k],
        forall|i: int| 0 <= i < k ==> !exits[i],
    ensures
        events_taken(RunState::Running, exits) == k + 1,
    decreases k,
{
    let rest = exits.subrange(1, exits.len() as int);
    if k == 0 {
        assert(events_taken(RunState::Exiting, rest) == 0);
    } else {
        assert forall|i: int| 0 <= i < k - 1 implies !rest[i] by {
            assert(rest[i] == exits[i + 1]);
        }
        assert(rest[k - 1] == exits[k]);
        lemma_exit_stops_before_next_event(rest, k - 1);
    }
}

} // verus!
