//! The life of one request on the server, from its arrival to the close
//! signal, as a machine that says at each step what may be sent.

use crate::notification::CloseReason;
use crate::timeout::policy_for;
use vstd::prelude::*;

verus! {

/// How far a request has come.
#[derive(Clone, Copy, Debug, PartialEq, Eq, Structural)]
pub enum Phase {
    /// The id is assigned and the request is decoded.
    Received,
    /// The handler has run.
    HandlerDispatched,
    /// The reply with the id has left.
    Replied,
    /// The notification will close by itself when its delay is over.
    PendingClose,
    /// The notification does not close by itself.
    NeverCloses,
    /// The close signal has left. Nothing follows.
    Closed,
}

/// What the server is about to do for a request.
#[derive(Clone, Copy, Debug, PartialEq, Eq, Structural)]
pub enum Step {
    /// Announce the request's first action as invoked.
    Announce,
    /// Run the handler.
    Dispatch,
    /// Leave the scope that handles the request, which sends the reply.
    Reply,
    /// Start the wait for the auto-close delay.
    Arm,
    /// End that wait and close the notification.
    Expire,
}

/// What the server sends or runs as it takes a step.
#[derive(Clone, Copy, Debug, PartialEq, Eq, Structural)]
pub enum Effect {
    /// The signal that an action of the notification `id` was invoked.
    ActionInvoked(u32),
    /// The handler's run.
    HandlerCalled,
    /// The reply that carries the id.
    Reply(u32),
    /// The signal that the notification `id` was closed, with the reason.
    Closed(u32, CloseReason),
}

/// The state of one request.
#[derive(Clone, Copy, Debug, PartialEq, Eq, Structural)]
pub struct Lifecycle {
    /// The id that the server assigned.
    pub id: u32,
    /// The timeout that the client asked for, in milliseconds.
    pub timeout: i32,
    /// How far the request has come.
    pub phase: Phase,
    /// Whether the first action was announced as invoked.
    pub announced: bool,
}

impl Lifecycle {
    /// The state of a request that has just arrived.
    pub open spec fn initial(id: u32, timeout: i32) -> Lifecycle {
        Lifecycle { id, timeout, phase: Phase::Received, announced: false }
    }

    /// A request waits for its close only where the policy gives a delay,
    /// and is held as never closing only where it gives none.
    pub open spec fn wf(self) -> bool {
        &&& self.phase == Phase::PendingClose ==> policy_for(self.timeout as int).delay() is Some
        &&& self.phase == Phase::NeverCloses ==> policy_for(self.timeout as int).delay() is None
        &&& self.phase == Phase::Closed ==> policy_for(self.timeout as int).delay() is Some
    }

    /// The state after `step` and what the step sends or runs. A step that
    /// is out of turn changes nothing and sends nothing.
    pub open spec fn next(self, step: Step) -> (Lifecycle, Option<Effect>) {
        match (self.phase, step) {
            (Phase::Received, Step::Announce) => if self.announced {
                (self, None)
            } else {
                (Lifecycle { announced: true, ..self }, Some(Effect::ActionInvoked(self.id)))
            },
            (Phase::Received, Step::Dispatch) => (
                Lifecycle { phase: Phase::HandlerDispatched, ..self },
                Some(Effect::HandlerCalled),
            ),
            (Phase::HandlerDispatched, Step::Reply) => (
                Lifecycle { phase: Phase::Replied, ..self },
                Some(Effect::Reply(self.id)),
            ),
            (Phase::Replied, Step::Arm) => if policy_for(self.timeout as int).delay() is Some {
                (Lifecycle { phase: Phase::PendingClose, ..self }, None)
            } else {
                (Lifecycle { phase: Phase::NeverCloses, ..self }, None)
            },
            (Phase::PendingClose, Step::Expire) => (
                Lifecycle { phase: Phase::Closed, ..self },
                Some(Effect::Closed(self.id, CloseReason::Expired)),
            ),
            _ => (self, None),
        }
    }

    /// The state after a sequence of steps.
    pub open spec fn run(self, steps: Seq<Step>) -> Lifecycle
        decreases steps.len(),
    {
        if steps.len() == 0 {
            self
        } else {
            self.run(steps.drop_last()).next(steps.last()).0
        }
    }

    /// What a sequence of steps sends and runs, in order.
    pub open spec fn effects(self, steps: Seq<Step>) -> Seq<Effect>
        decreases steps.len(),
    {
        if steps.len() == 0 {
            Seq::empty()
        } else {
            let before = self.effects(steps.drop_last());
            match self.run(steps.drop_last()).next(steps.last()).1 {
                Some(effect) => before.push(effect),
                None => before,
            }
        }
    }

    /// All that a request in this state has sent and run since it arrived.
    pub open spec fn history(self) -> Seq<Effect> {
        let announced: Seq<Effect> = if self.announced {
            seq![Effect::ActionInvoked(self.id)]
        } else {
            Seq::empty()
        };
        match self.phase {
            Phase::Received => announced,
            Phase::HandlerDispatched => announced.push(Effect::HandlerCalled),
            Phase::Replied | Phase::PendingClose | Phase::NeverCloses => announced.push(
                Effect::HandlerCalled,
            ).push(Effect::Reply(self.id)),
            Phase::Closed => announced.push(Effect::HandlerCalled).push(
                Effect::Reply(self.id),
            ).push(Effect::Closed(self.id, CloseReason::Expired)),
        }
    }

    /// The state of a request that has just arrived.
    pub fn new(id: u32, timeout: i32) -> (lifecycle: Lifecycle)
        ensures
            lifecycle == Lifecycle::initial(id, timeout),
            lifecycle.wf(),
    {
        Lifecycle { id, timeout, phase: Phase::Received, announced: false }
    }

    /// Takes a step. The result is what the server may now send or run:
    /// `None` where the step is out of turn, and then nothing has changed.
    pub fn advance(&mut self, step: Step) -> (effect: Option<Effect>)
        ensures
            (*final(self), effect) == old(self).next(step),
            old(self).wf() ==> final(self).wf(),
    {
        let closes = crate::timeout::timeout_policy(self.timeout).closes();
        match (self.phase, step) {
            (Phase::Received, Step::Announce) => {
                if self.announced {
                    None
                } else {
                    self.announced = true;
                    Some(Effect::ActionInvoked(self.id))
                }
            },
            (Phase::Received, Step::Dispatch) => {
                self.phase = Phase::HandlerDispatched;
                Some(Effect::HandlerCalled)
            },
            (Phase::HandlerDispatched, Step::Reply) => {
                self.phase = Phase::Replied;
                Some(Effect::Reply(self.id))
            },
            (Phase::Replied, Step::Arm) => {
                if closes {
                    self.phase = Phase::PendingClose;
                } else {
                    self.phase = Phase::NeverCloses;
                }
                None
            },
            (Phase::PendingClose, Step::Expire) => {
                self.phase = Phase::Closed;
                Some(Effect::Closed(self.id, CloseReason::Expired))
            },
            _ => None,
        }
    }
}

/// A step keeps the id and the timeout, and keeps a well-formed state
/// well-formed.
pub proof fn lemma_next_keeps(state: Lifecycle, step: Step)
    ensures
        state.next(step).0.id == state.id,
        state.next(step).0.timeout == state.timeout,
        state.wf() ==> state.next(step).0.wf(),
        state.next(step).0.history() == match state.next(step).1 {
            Some(effect) => state.history().push(effect),
            None => state.history(),
        },
{
    let after = state.next(step).0;
    match state.next(step).1 {
        Some(effect) => {
            assert(after.history() =~= state.history().push(effect));
        },
        None => {
            assert(after.history() =~= state.history());
        },
    }
}

/// Whatever steps are tried in whatever order, what a request has sent and
/// run since it arrived is what its state accounts for: at most one
/// announcement of an action, then the handler's run, then the reply, then
/// the close signal, each at most once and none before the one it follows.
pub proof fn lemma_effects_in_order(id: u32, timeout: i32, steps: Seq<Step>)
    ensures
        Lifecycle::initial(id, timeout).effects(steps) == Lifecycle::initial(id, timeout).run(
            steps,
        ).history(),
        Lifecycle::initial(id, timeout).run(steps).id == id,
        Lifecycle::initial(id, timeout).run(steps).timeout == timeout,
        Lifecycle::initial(id, timeout).run(steps).wf(),
    decreases steps.len(),
{
    let start = Lifecycle::initial(id, timeout);
    if steps.len() == 0 {
        assert(start.history() =~= Seq::empty());
    } else {
        lemma_effects_in_order(id, timeout, steps.drop_last());
        lemma_next_keeps(start.run(steps.drop_last()), steps.last());
    }
}

/// The close signal is the last thing a request sends, and it comes after
/// the reply, which comes after the handler's run: in what a request has
/// sent and run, a close signal stands last, a reply stands directly
/// behind the handler's run, and nothing but an announcement stands before
/// that run.
pub proof fn lemma_close_follows_reply(id: u32, timeout: i32, steps: Seq<Step>, k: int)
    requires
        0 <= k < Lifecycle::initial(id, timeout).effects(steps).len(),
    ensures
        ({
            let sent = Lifecycle::initial(id, timeout).effects(steps);
            &&& sent[k] is Closed ==> k == sent.len() - 1 && k >= 2 && sent[k - 1] == Effect::Reply(
                id,
            ) && sent[k] == Effect::Closed(id, CloseReason::Expired)
            &&& sent[k] is Reply ==> k >= 1 && sent[k - 1] == Effect::HandlerCalled && sent[k]
                == Effect::Reply(id)
            &&& sent[k] is HandlerCalled ==> k <= 1
            &&& sent[k] is ActionInvoked ==> k == 0 && sent[k] == Effect::ActionInvoked(id)
        }),
{
    lemma_effects_in_order(id, timeout, steps);
}

/// A request with a timeout of zero never sends a close signal, whatever
/// steps are tried.
pub proof fn lemma_zero_timeout_never_closes(id: u32, steps: Seq<Step>, k: int)
    requires
        0 <= k < Lifecycle::initial(id, 0).effects(steps).len(),
    ensures
        !(Lifecycle::initial(id, 0).effects(steps)[k] is Closed),
        Lifecycle::initial(id, 0).run(steps).phase != Phase::Closed,
        Lifecycle::initial(id, 0).run(steps).phase != Phase::PendingClose,
{
    lemma_effects_in_order(id, 0, steps);
}

/// Once the close signal has left, no step changes the state or sends
/// anything.
pub proof fn lemma_closed_is_final(state: Lifecycle, steps: Seq<Step>)
    requires
        state.phase == Phase::Closed,
    ensures
        state.run(steps) == state,
        state.effects(steps) == Seq::<Effect>::empty(),
    decreases steps.len(),
{
    if steps.len() > 0 {
        lemma_closed_is_final(state, steps.drop_last());
    }
}

/// The steps of a request in their turn take it to its close where the
/// timeout is not zero, and to the state that never closes where it is.
pub proof fn lemma_full_course(id: u32, timeout: i32)
    ensures
        ({
            let end = Lifecycle::initial(id, timeout).next(Step::Dispatch).0.next(
                Step::Reply,
            ).0.next(Step::Arm).0.next(Step::Expire);
            if timeout == 0 {
                end.0.phase == Phase::NeverCloses && end.1 is None
            } else {
                end.0.phase == Phase::Closed && end.1 == Some(
                    Effect::Closed(id, CloseReason::Expired),
                )
            }
        }),
{
}

} // verus!
