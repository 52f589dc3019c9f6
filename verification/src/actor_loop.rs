//! What the two actor loops have in common. A loop, whether it runs an actor
//! cooperatively or on a worker of its own, goes turn by turn: it gets ready,
//! receives, and settles what it received; what it cannot settle itself is a
//! message for the actor's handler. When the actor ends, the loop exits in
//! two steps around the actor's `finalize`.

use tokio::sync::watch::Sender;
use vstd::prelude::*;

use crate::actor::Actor;
use crate::actor::ActorTermination;
use crate::actor_state::ActorContext;
use crate::actor_state::ActorState;
use crate::channel::publish;
use crate::mailbox::Command;
use crate::mailbox::ReceptionResult;

verus! {

/// What a loop has to know before it receives.
pub struct Readiness<M> {
    /// Whether ordinary messages are to be received: the actor is running.
    pub message_enabled: bool,
    /// The message to process if nothing arrives.
    pub default_message: Option<M>,
}

/// What is left to do in a turn once the reception has been settled.
pub enum Turn<M> {
    /// Nothing: go on with the next turn.
    Continue,
    /// The actor ends.
    Exit(ActorTermination),
    /// The message is for the actor's handler.
    Handle(M),
}

/// The lifecycle state in which a turn leaves the actor, given the state
/// before, whether the group was alive after the reception, and what was
/// received.
pub open spec fn state_after<M>(
    state: ActorState,
    alive: bool,
    received: ReceptionResult<M>,
) -> ActorState {
    if !alive {
        state
    } else {
        match received {
            ReceptionResult::Command(Command::Pause) => state.paused(),
            ReceptionResult::Command(Command::Resume) => state.resumed(),
            _ => state,
        }
    }
}

/// How a reception is settled. A dead group ends the actor with `KillSwitch`
/// before anything else is looked at. Otherwise `Stop` ends the actor with
/// `OnDemand`, the other commands let it go on, a message is for the
/// handler, an idle reception ends the actor with `Terminated` if its own
/// mailbox is the last one left, and a disconnect ends it with `Terminated`.
pub open spec fn turn_of<M>(alive: bool, received: ReceptionResult<M>, last_mailbox: bool) -> Turn<
    M,
> {
    if !alive {
        Turn::Exit(ActorTermination::KillSwitch)
    } else {
        match received {
            ReceptionResult::Command(Command::Pause) => Turn::Continue,
            ReceptionResult::Command(Command::Resume) => Turn::Continue,
            ReceptionResult::Command(Command::Stop(_)) => Turn::Exit(ActorTermination::OnDemand),
            ReceptionResult::Command(Command::Observe(_)) => Turn::Continue,
            ReceptionResult::Message(msg) => Turn::Handle(msg),
            ReceptionResult::Idle => if last_mailbox {
                Turn::Exit(ActorTermination::Terminated)
            } else {
                Turn::Continue
            },
            ReceptionResult::Disconnect => Turn::Exit(ActorTermination::Terminated),
        }
    }
}

/// Opens a turn: checks the kill switch, records progress, and asks the
/// actor for its default message. Returns `None` if the group is dead, in
/// which case the actor ends with `KillSwitch`.
pub fn begin_turn<A: Actor>(actor: &A, ctx: &ActorContext<A>) -> (ready: Option<
    Readiness<A::Message>,
>)
    ensures
        ready matches Some(readiness) ==> {
            &&& readiness.message_enabled == ctx.state().receives_messages()
            &&& call_ensures(A::default_message, (actor,), readiness.default_message)
        },
{
    if !ctx.kill_switch().is_alive() {
        return None;
    }
    ctx.progress().record_progress();
    let default_message = actor.default_message();
    ctx.progress().record_progress();
    Some(Readiness { message_enabled: ctx.get_state().is_running(), default_message })
}

/// Settles a reception, given the kill switch as read after it and whether
/// the actor's own mailbox was the last one left.
///
/// `Pause` and `Resume` move the lifecycle state; `Stop` fulfils its sink;
/// `Observe` publishes a snapshot of the observable state and fulfils its
/// sink. Nothing of this happens once the group is dead.
pub fn settle<A: Actor>(
    actor: &A,
    received: ReceptionResult<A::Message>,
    alive: bool,
    last_mailbox: bool,
    ctx: &mut ActorContext<A>,
    state_tx: &Sender<A::ObservableState>,
) -> (turn: Turn<A::Message>)
    ensures
        turn == turn_of(alive, received, last_mailbox),
        final(ctx).state() == state_after(old(ctx).state(), alive, received),
        final(ctx).same_actor(old(ctx)),
{
    if !alive {
        return Turn::Exit(ActorTermination::KillSwitch);
    }
    match received {
        ReceptionResult::Command(cmd) => {
            match cmd {
                Command::Pause => {
                    ctx.pause();
                    Turn::Continue
                },
                Command::Stop(ack) => {
                    let _ = ack.send(());
                    Turn::Exit(ActorTermination::OnDemand)
                },
                Command::Resume => {
                    ctx.resume();
                    Turn::Continue
                },
                Command::Observe(ack) => {
                    let state = actor.observable_state();
                    let _ = publish(state_tx, state);
                    let _ = ack.send(());
                    Turn::Continue
                },
            }
        },
        ReceptionResult::Message(msg) => Turn::Handle(msg),
        ReceptionResult::Idle => {
            if last_mailbox {
                Turn::Exit(ActorTermination::Terminated)
            } else {
                Turn::Continue
            }
        },
        ReceptionResult::Disconnect => Turn::Exit(ActorTermination::Terminated),
    }
}

/// Closes a turn after the reception: records progress, reads the kill
/// switch, looks whether the actor's own mailbox is the last one left if
/// nothing was received, and settles the reception with what it read.
pub fn end_turn<A: Actor>(
    actor: &A,
    received: ReceptionResult<A::Message>,
    ctx: &mut ActorContext<A>,
    state_tx: &Sender<A::ObservableState>,
) -> (turn: Turn<A::Message>)
    ensures
        exists|alive: bool, last_mailbox: bool|
            {
                &&& turn == #[trigger] turn_of(alive, received, last_mailbox)
                &&& final(ctx).state() == state_after(old(ctx).state(), alive, received)
            },
        final(ctx).same_actor(old(ctx)),
        !(received is Message) ==> !(turn is Handle),
        !(received is Message) ==> (turn matches Turn::Exit(termination) ==> !termination.failed()),
{
    ctx.progress().record_progress();
    let alive = ctx.kill_switch().is_alive();
    let last_mailbox = match received {
        ReceptionResult::Idle => ctx.mailbox().is_last_mailbox(),
        _ => false,
    };
    settle(actor, received, alive, last_mailbox, ctx, state_tx)
}

/// The first step of the exit: the actor is marked `Terminated`, a failure
/// kills its group, and a snapshot of the observable state is taken, which
/// is returned. The actor's `finalize` runs after this step.
pub fn begin_exit<A: Actor>(
    actor: &A,
    termination: &ActorTermination,
    ctx: &mut ActorContext<A>,
) -> (final_state: A::ObservableState)
    ensures
        final(ctx).state() == ActorState::Terminated,
        final(ctx).same_actor(old(ctx)),
        call_ensures(A::observable_state, (actor,), final_state),
{
    ctx.terminate();
    if termination.is_failure() {
        ctx.kill_switch().kill();
    }
    actor.observable_state()
}

/// The last step of the exit, after the actor's `finalize`: the snapshot
/// taken in the first step is published, whoever watches or not.
pub fn finish_exit<A: Actor>(final_state: &A::ObservableState, state_tx: &Sender<A::ObservableState>) {
    let _ = publish(state_tx, final_state.clone());
}

/// Kill propagation: once the kill switch of its group is dead, a turn ends
/// the actor with `KillSwitch`, whatever it received, and leaves its
/// lifecycle state alone.
pub proof fn lemma_kill_ends_actor<M>(
    state: ActorState,
    received: ReceptionResult<M>,
    last_mailbox: bool,
)
    ensures
        turn_of(false, received, last_mailbox) == Turn::<M>::Exit(ActorTermination::KillSwitch),
        state_after(state, false, received) == state,
{
}

/// Natural termination: while the group is alive, an actor that receives
/// nothing when its own mailbox is the last one left, or whose inbox is
/// disconnected, ends with `Terminated`; with another mailbox left an idle
/// reception does not end it.
pub proof fn lemma_natural_termination<M>(last_mailbox: bool)
    ensures
        turn_of(true, ReceptionResult::<M>::Idle, true) == Turn::<M>::Exit(
            ActorTermination::Terminated,
        ),
        turn_of(true, ReceptionResult::<M>::Idle, false) == Turn::<M>::Continue,
        turn_of(true, ReceptionResult::<M>::Disconnect, last_mailbox) == Turn::<M>::Exit(
            ActorTermination::Terminated,
        ),
{
}

/// The lifecycle: `Pause` pauses a running actor, `Resume` lets a paused one
/// run again, neither touches an ended one, and no reception but these two
/// moves the state.
pub proof fn lemma_lifecycle<M>(state: ActorState, received: ReceptionResult<M>)
    ensures
        state_after(ActorState::Running, true, ReceptionResult::<M>::Command(Command::Pause))
            == ActorState::Paused,
        state_after(ActorState::Paused, true, ReceptionResult::<M>::Command(Command::Resume))
            == ActorState::Running,
        state_after(ActorState::Terminated, true, received) == ActorState::Terminated,
        !(received matches ReceptionResult::Command(Command::Pause)) && !(
        received matches ReceptionResult::Command(Command::Resume)) ==> state_after(
            state,
            true,
            received,
        ) == state,
{
}

/// A turn hands the handler a message only if one was received, and ends the
/// actor with a failure only through the handler.
pub proof fn lemma_only_messages_reach_the_handler<M>(
    alive: bool,
    received: ReceptionResult<M>,
    last_mailbox: bool,
)
    ensures
        turn_of(alive, received, last_mailbox) is Handle ==> alive && received is Message,
        turn_of(alive, received, last_mailbox) matches Turn::Exit(termination)
            ==> !termination.failed(),
{
}

} // verus!
