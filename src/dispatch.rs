//! Dispatch of one cycle's commands to the actuation service, one at a time,
//! each awaited under a deadline. The caller performs each send and reports
//! how it ended; this machine decides what comes next.

use vstd::prelude::*;
use crate::sequencer::{AxleCommand, Distances, commands_for, cycle_commands};

verus! {

/// How long a sent command waits for its reply, in milliseconds.
pub const REPLY_TIMEOUT_MS: u64 = 1000;

/// How one send ended.
#[derive(Clone, Copy, Debug, PartialEq, Eq, Structural)]
pub enum DispatchOutcome {
    /// A reply arrived before the deadline.
    Acknowledged,
    /// The service answered with an error.
    ErrorReply,
    /// No reply arrived before the deadline.
    TimedOut,
}

/// What the caller does with the client handle after a send.
#[derive(Clone, Copy, Debug, PartialEq, Eq, Structural)]
pub enum ClientDirective {
    /// Keep the handle that came back with the reply.
    Reuse,
    /// Abandon the pending request and take the handle back from it.
    GiveUp,
}

/// What the caller does next in this cycle.
#[derive(Clone, Copy, Debug, PartialEq, Eq, Structural)]
pub enum DispatchAction {
    /// Send this command and report how it ended.
    Send(AxleCommand),
    /// Every command of the cycle is done: sleep, then sample again.
    Finish,
    /// An unrecoverable error ended the cycle.
    Abort,
}

/// The unrecoverable failure of a dispatch.
#[derive(Clone, Copy, Debug, PartialEq, Eq, Structural)]
pub enum DispatchError {
    /// The service answered this command with an error.
    RemoteRejected(AxleCommand),
}

/// The abstract state of a cycle's dispatch.
pub struct DispatchView {
    pub commands: Seq<AxleCommand>,
    pub next: nat,
    pub failed: bool,
}

pub open spec fn start_view(commands: Seq<AxleCommand>) -> DispatchView {
    DispatchView { commands, next: 0, failed: false }
}

pub open spec fn is_pending(v: DispatchView) -> bool {
    !v.failed && v.next < v.commands.len()
}

pub open spec fn action_of(v: DispatchView) -> DispatchAction {
    if v.failed {
        DispatchAction::Abort
    } else if v.next < v.commands.len() {
        DispatchAction::Send(v.commands[v.next as int])
    } else {
        DispatchAction::Finish
    }
}

/// The state after the pending command ended with `o`: a reply or a timeout
/// moves on to the next command, an error reply fails the cycle.
pub open spec fn step(v: DispatchView, o: DispatchOutcome) -> DispatchView {
    if !is_pending(v) {
        v
    } else {
        match o {
            DispatchOutcome::ErrorReply => DispatchView { failed: true, ..v },
            _ => DispatchView { next: v.next + 1, ..v },
        }
    }
}

/// The commands sent, in order, when the sends end with `outcomes` in turn.
pub open spec fn sent_commands(v: DispatchView, outcomes: Seq<DispatchOutcome>) -> Seq<AxleCommand>
    decreases outcomes.len(),
{
    if outcomes.len() == 0 {
        seq![]
    } else {
        match action_of(v) {
            DispatchAction::Send(c) => seq![c] + sent_commands(step(v, outcomes[0]), outcomes.drop_first()),
            _ => seq![],
        }
    }
}

/// Whatever mix of replies and timeouts the sends meet, the commands still to
/// go are sent in their order, each exactly once.
pub proof fn lemma_sends_remaining_in_order(v: DispatchView, outcomes: Seq<DispatchOutcome>)
    requires
        !v.failed,
        v.next <= v.commands.len(),
        outcomes.len() >= v.commands.len() - v.next,
        forall|i: int| 0 <= i < outcomes.len() ==> outcomes[i] != DispatchOutcome::ErrorReply,
    ensures
        sent_commands(v, outcomes) == v.commands.skip(v.next as int),
    decreases v.commands.len() - v.next,
{
    if v.next == v.commands.len() {
        if outcomes.len() > 0 {
            assert(action_of(v) == DispatchAction::Finish);
        }
        assert(v.commands.skip(v.next as int) =~= Seq::<AxleCommand>::empty());
    } else {
        let w = step(v, outcomes[0]);
        let rest = outcomes.drop_first();
        assert forall|i: int| 0 <= i < rest.len() implies rest[i] != DispatchOutcome::ErrorReply by {
            assert(rest[i] == outcomes[i + 1]);
        }
        lemma_sends_remaining_in_order(w, rest);
        assert(v.commands.skip(v.next as int) =~= seq![v.commands[v.next as int]] + w.commands.skip(w.next as int));
    }
}

/// The commands of a cycle reach the actuation service in the order in which
/// the triggers emitted them (front, then mid, then rear), each once, whether
/// each send is acknowledged or times out.
pub proof fn lemma_dispatch_order(d: Distances, outcomes: Seq<DispatchOutcome>)
    requires
        outcomes.len() >= cycle_commands(d).len(),
        forall|i: int| 0 <= i < outcomes.len() ==> outcomes[i] != DispatchOutcome::ErrorReply,
    ensures
        sent_commands(start_view(cycle_commands(d)), outcomes) == cycle_commands(d),
{
    let v = start_view(cycle_commands(d));
    lemma_sends_remaining_in_order(v, outcomes);
    assert(v.commands.skip(0) =~= v.commands);
}

/// A send that meets no reply before the deadline is dropped: the dispatch
/// goes on with the next command, or ends the cycle, and the dropped command
/// is not sent again.
pub proof fn lemma_timeout_moves_on(v: DispatchView)
    requires
        is_pending(v),
    ensures
        ({
            let w = step(v, DispatchOutcome::TimedOut);
            &&& !w.failed
            &&& w.commands == v.commands
            &&& w.next == v.next + 1
            &&& action_of(w) == if v.next + 1 < v.commands.len() {
                DispatchAction::Send(v.commands[v.next + 1int])
            } else {
                DispatchAction::Finish
            }
        }),
{
}

/// The dispatch of one cycle's commands.
pub struct CycleDispatch {
    commands: Vec<AxleCommand>,
    next: usize,
    failed: bool,
}

impl View for CycleDispatch {
    type V = DispatchView;

    closed spec fn view(&self) -> DispatchView {
        DispatchView { commands: self.commands@, next: self.next as nat, failed: self.failed }
    }
}

impl CycleDispatch {
    pub open spec fn wf(&self) -> bool {
        self@.next <= self@.commands.len()
    }

    pub fn new(commands: Vec<AxleCommand>) -> (r: CycleDispatch)
        ensures
            r@ == start_view(commands@),
            r.wf(),
    {
        CycleDispatch { commands, next: 0, failed: false }
    }

    /// The dispatch of the commands that the samples `d` trigger.
    pub fn for_distances(d: &Distances) -> (r: CycleDispatch)
        ensures
            r@ == start_view(cycle_commands(*d)),
            r.wf(),
    {
        CycleDispatch::new(commands_for(d))
    }

    pub fn next_action(&self) -> (r: DispatchAction)
        requires
            self.wf(),
        ensures
            r == action_of(self@),
    {
        if self.failed {
            DispatchAction::Abort
        } else if self.next < self.commands.len() {
            DispatchAction::Send(self.commands[self.next])
        } else {
            DispatchAction::Finish
        }
    }

    /// Records how the pending send ended, and says what becomes of the
    /// client handle; an error reply is returned as the cycle's failure.
    pub fn record_outcome(&mut self, o: DispatchOutcome) -> (r: Result<ClientDirective, DispatchError>)
        requires
            old(self).wf(),
            is_pending(old(self)@),
        ensures
            final(self).wf(),
            final(self)@ == step(old(self)@, o),
            o == DispatchOutcome::Acknowledged ==> r == Ok::<ClientDirective, DispatchError>(ClientDirective::Reuse),
            o == DispatchOutcome::TimedOut ==> r == Ok::<ClientDirective, DispatchError>(ClientDirective::GiveUp),
            o == DispatchOutcome::ErrorReply ==> r == Err::<ClientDirective, DispatchError>(
                DispatchError::RemoteRejected(old(self)@.commands[old(self)@.next as int]),
            ),
    {
        let count = self.commands.len();
        proof {
            assert(self.next < count);
        }
        match o {
            DispatchOutcome::Acknowledged => {
                self.next = self.next + 1;
                Ok(ClientDirective::Reuse)
            },
            DispatchOutcome::TimedOut => {
                self.next = self.next + 1;
                Ok(ClientDirective::GiveUp)
            },
            DispatchOutcome::ErrorReply => {
                self.failed = true;
                Err(DispatchError::RemoteRejected(self.commands[self.next]))
            },
        }
    }
}

} // verus!
