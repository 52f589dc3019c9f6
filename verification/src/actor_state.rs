//! The lifecycle of an actor, and the context an actor runs in.

use std::sync::Arc;
use vstd::prelude::*;

use crate::actor::Actor;
use crate::actor::KillSwitch;
use crate::actor::Progress;
use crate::channel::share;
use crate::mailbox::Mailbox;

verus! {

/// Where an actor is in its life.
#[derive(Clone, Copy, Debug, PartialEq, Eq, Structural)]
pub enum ActorState {
    /// It receives commands and messages.
    Running,
    /// It receives commands only.
    Paused,
    /// It has ended, for good.
    Terminated,
}

impl ActorState {
    /// The state after `Pause`: a running actor is paused; nothing else
    /// changes.
    pub open spec fn paused(self) -> ActorState {
        match self {
            ActorState::Running => ActorState::Paused,
            _ => self,
        }
    }

    /// The state after `Resume`: a paused actor runs again; nothing else
    /// changes.
    pub open spec fn resumed(self) -> ActorState {
        match self {
            ActorState::Paused => ActorState::Running,
            _ => self,
        }
    }

    /// Whether ordinary messages are received in this state.
    pub open spec fn receives_messages(self) -> bool {
        self is Running
    }

    /// The state after `Pause`.
    pub fn pause(self) -> (next: ActorState)
        ensures
            next == self.paused(),
    {
        match self {
            ActorState::Running => ActorState::Paused,
            other => other,
        }
    }

    /// The state after `Resume`.
    pub fn resume(self) -> (next: ActorState)
        ensures
            next == self.resumed(),
    {
        match self {
            ActorState::Paused => ActorState::Running,
            other => other,
        }
    }

    /// Whether ordinary messages are received in this state.
    pub fn is_running(self) -> (running: bool)
        ensures
            running == self.receives_messages(),
    {
        match self {
            ActorState::Running => true,
            _ => false,
        }
    }
}

/// What the copies of one actor's context share.
#[verifier::reject_recursive_types(A)]
pub struct ContextInner<A: Actor> {
    self_mailbox: Mailbox<A::Message>,
    kill_switch: KillSwitch,
    progress: Progress,
}

/// The handle an actor is given while it runs: its own mailbox, the kill
/// switch of its group, its heartbeat and its lifecycle state. Copies share
/// everything but the state, which belongs to the actor's loop.
#[verifier::reject_recursive_types(A)]
pub struct ActorContext<A: Actor> {
    inner: Arc<ContextInner<A>>,
    state: ActorState,
}

impl<A: Actor> Clone for ActorContext<A> {
    fn clone(&self) -> (copy: Self)
        ensures
            copy == *self,
    {
        ActorContext { inner: share(&self.inner), state: self.state }
    }
}

impl<A: Actor> ActorContext<A> {
    /// The lifecycle state.
    pub closed spec fn state(&self) -> ActorState {
        self.state
    }

    /// The actor's own mailbox.
    pub closed spec fn self_mailbox(&self) -> Mailbox<A::Message> {
        self.inner.self_mailbox
    }

    /// The kill switch of the actor's group.
    pub closed spec fn group_switch(&self) -> KillSwitch {
        self.inner.kill_switch
    }

    /// The actor's heartbeat.
    pub closed spec fn heartbeat(&self) -> Progress {
        self.inner.progress
    }

    /// What the context shares with its copies.
    pub closed spec fn shared(&self) -> ContextInner<A> {
        *self.inner
    }

    /// Whether two contexts are copies of one another, whatever their state.
    pub open spec fn same_actor(&self, other: &Self) -> bool {
        self.shared() == other.shared()
    }

    /// The context of a running actor with the given mailbox, in the group of
    /// the given kill switch.
    pub fn new(self_mailbox: Mailbox<A::Message>, kill_switch: KillSwitch) -> (ctx: Self)
        ensures
            ctx.state() == ActorState::Running,
            ctx.self_mailbox() == self_mailbox,
            ctx.group_switch() == kill_switch,
    {
        ActorContext {
            inner: Arc::new(ContextInner { self_mailbox, kill_switch, progress: Progress::default() }),
            state: ActorState::Running,
        }
    }

    /// The actor's own mailbox, for sending to itself.
    pub fn mailbox(&self) -> (mailbox: &Mailbox<A::Message>)
        ensures
            *mailbox == self.self_mailbox(),
    {
        &self.inner.self_mailbox
    }

    /// The kill switch of the actor's group.
    pub fn kill_switch(&self) -> (kill_switch: &KillSwitch)
        ensures
            *kill_switch == self.group_switch(),
    {
        &self.inner.kill_switch
    }

    /// The actor's heartbeat.
    pub fn progress(&self) -> (progress: &Progress)
        ensures
            *progress == self.heartbeat(),
    {
        &self.inner.progress
    }

    /// The lifecycle state.
    pub fn get_state(&self) -> (state: ActorState)
        ensures
            state == self.state(),
    {
        self.state
    }

    /// Pauses a running actor.
    pub fn pause(&mut self)
        ensures
            final(self).state() == old(self).state().paused(),
            final(self).same_actor(old(self)),
    {
        self.state = self.state.pause();
    }

    /// Lets a paused actor run again.
    pub fn resume(&mut self)
        ensures
            final(self).state() == old(self).state().resumed(),
            final(self).same_actor(old(self)),
    {
        self.state = self.state.resume();
    }

    /// Marks the actor as ended.
    pub fn terminate(&mut self)
        ensures
            final(self).state() == ActorState::Terminated,
            final(self).same_actor(old(self)),
    {
        self.state = ActorState::Terminated;
    }
}

} // verus!
