//! The loop that drives an actor which may block: what one turn of the loop
//! does, and what happens when the actor ends.

use tokio::sync::watch::Sender;
use vstd::prelude::*;

use crate::actor::Actor;
use crate::actor::ActorTermination;
use crate::actor_loop::begin_exit;
use crate::actor_loop::begin_turn;
use crate::actor_loop::end_turn;
use crate::actor_loop::finish_exit;
use crate::actor_loop::settle;
use crate::actor_loop::state_after;
use crate::actor_loop::turn_of;
use crate::actor_loop::Turn;
use crate::actor_state::ActorContext;
use crate::actor_state::ActorState;
use crate::channel::Polled;
use crate::channel::Waited;
use crate::mailbox::ActorMessage;
use crate::mailbox::Command;
use crate::mailbox::Inbox;
use crate::mailbox::ReceptionResult;

verus! {

/// An actor that runs on a worker of its own. It may block and compute for
/// long.
pub trait SyncActor: Actor + Sized {
    /// Processes a message. An error ends the actor; if the error is a
    /// failure, it ends the whole group.
    fn process_message(&mut self, message: Self::Message, ctx: &ActorContext<Self>) -> Result<
        (),
        ActorTermination,
    >;

    /// Called once when the actor ends, however it ends.
    fn finalize(&mut self, termination: &ActorTermination, ctx: &ActorContext<Self>) -> (finalized:
        Result<(), anyhow::Error>)
        default_ensures
            finalized is Ok,
            *final(self) == *old(self),
    {
        Ok(())
    }
}

/// How the handler's verdict on a message ends the actor: its error, if it
/// returned one, is the termination.
pub open spec fn exit_on(handled: Result<(), ActorTermination>) -> Option<ActorTermination> {
    match handled {
        Ok(_) => None,
        Err(termination) => Some(termination),
    }
}

/// Hands a message to the actor's handler. The handler's error, if it returns
/// one, ends the actor.
pub fn handle<A: SyncActor>(actor: &mut A, message: A::Message, ctx: &ActorContext<A>) -> (exit:
    Option<ActorTermination>)
    ensures
        exists|handler: &mut A|
            {
                &&& *handler == *old(actor)
                &&& *final(handler) == *final(actor)
                &&& #[trigger] handled_by(handler, message, *ctx, exit)
            },
{
    let ghost before = *actor;
    let handled = actor.process_message(message, ctx);
    let exit = match handled {
        Ok(()) => None,
        Err(termination) => Some(termination),
    };
    proof {
        let handler = choose|handler: &mut A|
            {
                &&& *handler == before
                &&& *final(handler) == *actor
                &&& #[trigger] call_ensures(A::process_message, (handler, message, ctx), handled)
            };
        assert(handled_by(handler, message, *ctx, exit));
    }
    exit
}

/// Does what is left of a turn once the reception is settled: a message goes
/// to the handler, whose error ends the actor; otherwise the turn itself
/// says whether the actor ends, and how.
fn finish_turn<A: SyncActor>(actor: &mut A, turn: Turn<A::Message>, ctx: &ActorContext<A>) -> (exit:
    Option<ActorTermination>)
    ensures
        match turn {
            Turn::Continue => exit is None && *final(actor) == *old(actor),
            Turn::Exit(termination) => exit == Some(termination) && *final(actor) == *old(actor),
            Turn::Handle(message) => exists|handler: &mut A|
                {
                    &&& *handler == *old(actor)
                    &&& *final(handler) == *final(actor)
                    &&& #[trigger] handled_by(handler, message, *ctx, exit)
                },
        },
{
    match turn {
        Turn::Continue => None,
        Turn::Exit(termination) => Some(termination),
        Turn::Handle(message) => handle(actor, message, ctx),
    }
}

/// What acting on a reception does without the handler: the reception is
/// settled as `turn_of` and `state_after` say, and unless the turn is a
/// message for the handler, the actor is left as it is and the turn decides
/// how the actor ends, if it does.
pub open spec fn dispatched<A: SyncActor>(
    actor: A,
    ctx: ActorContext<A>,
    received: ReceptionResult<A::Message>,
    alive: bool,
    last_mailbox: bool,
    next_actor: A,
    next_ctx: ActorContext<A>,
    exit: Option<ActorTermination>,
) -> bool {
    &&& next_ctx.state() == state_after(ctx.state(), alive, received)
    &&& next_ctx.same_actor(&ctx)
    &&& match turn_of(alive, received, last_mailbox) {
        Turn::Continue => exit is None && next_actor == actor,
        Turn::Exit(termination) => exit == Some(termination) && next_actor == actor,
        Turn::Handle(_) => true,
    }
}

/// That `exit` is the verdict of a run of the handler on `message`.
pub open spec fn handled_by<A: SyncActor>(
    handler: &mut A,
    message: A::Message,
    ctx: ActorContext<A>,
    exit: Option<ActorTermination>,
) -> bool {
    exists|handled: Result<(), ActorTermination>|
        {
            &&& #[trigger] call_ensures(A::process_message, (handler, message, &ctx), handled)
            &&& exit == exit_on(handled)
        }
}

/// What a turn receives once the group has been found alive, given what the
/// two queues yielded and the actor's default message: messages are
/// received only by a running actor, and the default message stands in for
/// an idle reception.
pub open spec fn reception_of<A: SyncActor>(
    ctx: ActorContext<A>,
    polled: Polled<Command>,
    waited: Waited<ActorMessage<A::Message>>,
    default_message: Option<A::Message>,
) -> ReceptionResult<A::Message> {
    ReceptionResult::<A::Message>::of(polled, ctx.state().receives_messages(), waited).or_default(
        ctx.state().receives_messages(),
        default_message,
    )
}

/// What a turn does without the handler once the group has been found
/// alive, given what the two queues yielded, the actor's default message,
/// the kill switch as read after the reception, and whether the actor's own
/// mailbox was the last one left.
pub open spec fn turned<A: SyncActor>(
    actor: A,
    ctx: ActorContext<A>,
    polled: Polled<Command>,
    waited: Waited<ActorMessage<A::Message>>,
    default_message: Option<A::Message>,
    alive: bool,
    last_mailbox: bool,
    next_actor: A,
    next_ctx: ActorContext<A>,
    exit: Option<ActorTermination>,
) -> bool {
    &&& call_ensures(A::default_message, (&actor,), default_message)
    &&& dispatched(
        actor,
        ctx,
        reception_of(ctx, polled, waited, default_message),
        alive,
        last_mailbox,
        next_actor,
        next_ctx,
        exit,
    )
}

/// What one turn of the loop does without the handler. Either the group was
/// found dead before the reception, and the turn ends the actor with
/// `KillSwitch` and touches nothing; or the turn went as `turned` says for
/// some outcome of the two queues, some default message of the actor, and
/// some reading of the kill switch and of the mailbox's handles.
pub open spec fn turn_taken<A: SyncActor>(
    actor: A,
    ctx: ActorContext<A>,
    next_actor: A,
    next_ctx: ActorContext<A>,
    exit: Option<ActorTermination>,
) -> bool {
    ||| {
        &&& exit == Some(ActorTermination::KillSwitch)
        &&& next_actor == actor
        &&& next_ctx == ctx
    }
    ||| exists|
        polled: Polled<Command>,
        waited: Waited<ActorMessage<A::Message>>,
        default_message: Option<A::Message>,
        alive: bool,
        last_mailbox: bool,
    | #[trigger]
        turned(
            actor,
            ctx,
            polled,
            waited,
            default_message,
            alive,
            last_mailbox,
            next_actor,
            next_ctx,
            exit,
        )
}

/// That `turns` turns in a row, none of which ended the actor, lead from one
/// actor and context to the other.
pub open spec fn went_on<A: SyncActor>(
    actor: A,
    ctx: ActorContext<A>,
    turns: nat,
    next_actor: A,
    next_ctx: ActorContext<A>,
) -> bool
    decreases turns,
{
    if turns == 0 {
        next_actor == actor && next_ctx == ctx
    } else {
        exists|last_actor: A, last_ctx: ActorContext<A>|
            {
                &&& went_on(actor, ctx, (turns - 1) as nat, last_actor, last_ctx)
                &&& #[trigger] turn_taken(last_actor, last_ctx, next_actor, next_ctx, None)
            }
    }
}

/// A turn that does not end the actor adds to the turns it went on for.
pub proof fn lemma_went_on_one_more<A: SyncActor>(
    actor: A,
    ctx: ActorContext<A>,
    turns: nat,
    last_actor: A,
    last_ctx: ActorContext<A>,
    next_actor: A,
    next_ctx: ActorContext<A>,
)
    requires
        went_on(actor, ctx, turns, last_actor, last_ctx),
        turn_taken(last_actor, last_ctx, next_actor, next_ctx, None),
    ensures
        went_on(actor, ctx, turns + 1, next_actor, next_ctx),
{
    let more: nat = turns + 1;
    assert((more - 1) as nat == turns);
    assert(went_on(actor, ctx, (more - 1) as nat, last_actor, last_ctx));
}

/// How an actor that ran on a worker of its own ended.
pub struct ActorExit<State> {
    /// Why the actor ended.
    pub termination: ActorTermination,
    /// The snapshot of the observable state that was published last: the one
    /// taken before `finalize` ran.
    pub final_state: State,
    /// What `finalize` returned. Its error does not change the termination.
    pub finalized: Result<(), anyhow::Error>,
}

/// That `finalized` is what a run of the actor's `finalize` returned, for
/// the given termination and in the given context.
pub open spec fn finalized_by<A: SyncActor>(
    finalizer: &mut A,
    termination: ActorTermination,
    ctx: ActorContext<A>,
    finalized: Result<(), anyhow::Error>,
) -> bool {
    call_ensures(A::finalize, (finalizer, &termination, &ctx), finalized)
}

/// That the actor went on for `turns` turns and ended in the next one, and
/// exited as `end` tells: the turn ended it with `end.termination`,
/// `end.final_state` is a snapshot of the actor as that turn left it, and
/// `finalize` ran on that actor, in the context `end_ctx`, and returned
/// `end.finalized`.
pub open spec fn ended_after<A: SyncActor>(
    actor: A,
    ctx: ActorContext<A>,
    turns: nat,
    last_actor: A,
    last_ctx: ActorContext<A>,
    exit_actor: A,
    exit_ctx: ActorContext<A>,
    finalizer: &mut A,
    end_ctx: ActorContext<A>,
    end: ActorExit<A::ObservableState>,
) -> bool {
    &&& went_on(actor, ctx, turns, last_actor, last_ctx)
    &&& turn_taken(last_actor, last_ctx, exit_actor, exit_ctx, Some(end.termination))
    &&& call_ensures(A::observable_state, (&exit_actor,), end.final_state)
    &&& *finalizer == exit_actor
    &&& end_ctx.state() == ActorState::Terminated
    &&& end_ctx.same_actor(&exit_ctx)
    &&& finalized_by(finalizer, end.termination, end_ctx, end.finalized)
}

/// Acts on what one reception returned. `alive` is the kill switch as read
/// after the reception; `last_mailbox` says whether the actor's own mailbox
/// was the last handle left when nothing was received.
///
/// The reception is settled as `turn_of` says; a message goes to the
/// handler, whose error ends the actor. Returns how the actor ended, if this
/// ended it.
pub fn dispatch<A: SyncActor>(
    actor: &mut A,
    received: ReceptionResult<A::Message>,
    alive: bool,
    last_mailbox: bool,
    ctx: &mut ActorContext<A>,
    state_tx: &Sender<A::ObservableState>,
) -> (exit: Option<ActorTermination>)
    ensures
        dispatched(
            *old(actor),
            *old(ctx),
            received,
            alive,
            last_mailbox,
            *final(actor),
            *final(ctx),
            exit,
        ),
        turn_of(alive, received, last_mailbox) matches Turn::Handle(message) ==> exists|
            handler: &mut A,
        |
            {
                &&& *handler == *old(actor)
                &&& *final(handler) == *final(actor)
                &&& #[trigger] handled_by(handler, message, *final(ctx), exit)
            },
{
    let turn = settle(actor, received, alive, last_mailbox, ctx, state_tx);
    finish_turn(actor, turn, ctx)
}

/// One turn of the loop: check the kill switch, receive, check the kill
/// switch again, act on what was received. Progress is recorded before and
/// after the reception. Returns how the actor ended, if this turn ended it.
///
/// An actor that is not running is not handed a message, and does not end
/// with a failure.
pub fn process_msg<A: SyncActor>(
    actor: &mut A,
    inbox: &Inbox<A::Message>,
    ctx: &mut ActorContext<A>,
    state_tx: &Sender<A::ObservableState>,
) -> (exit: Option<ActorTermination>)
    ensures
        final(ctx).same_actor(old(ctx)),
        final(ctx).state() == old(ctx).state() || final(ctx).state() == old(ctx).state().paused()
            || final(ctx).state() == old(ctx).state().resumed(),
        !old(ctx).state().receives_messages() ==> *final(actor) == *old(actor),
        !old(ctx).state().receives_messages() ==> (exit matches Some(termination)
            ==> !termination.failed()),
        ({
            &&& exit == Some(ActorTermination::KillSwitch)
            &&& *final(actor) == *old(actor)
            &&& *final(ctx) == *old(ctx)
        }) || (exists|
            polled: Polled<Command>,
            waited: Waited<ActorMessage<A::Message>>,
            default_message: Option<A::Message>,
            alive: bool,
            last_mailbox: bool,
        |
            {
                &&& #[trigger] turned(
                    *old(actor),
                    *old(ctx),
                    polled,
                    waited,
                    default_message,
                    alive,
                    last_mailbox,
                    *final(actor),
                    *final(ctx),
                    exit,
                )
                &&& turn_of(
                    alive,
                    reception_of(*old(ctx), polled, waited, default_message),
                    last_mailbox,
                ) matches Turn::Handle(message) ==> exists|handler: &mut A|
                    {
                        &&& *handler == *old(actor)
                        &&& *final(handler) == *final(actor)
                        &&& #[trigger] handled_by(handler, message, *final(ctx), exit)
                    }
            }),
{
    let ready = match begin_turn(actor, ctx) {
        Some(ready) => ready,
        None => {
            return Some(ActorTermination::KillSwitch);
        },
    };
    let arrived = inbox.try_recv_msg(ready.message_enabled);
    let reception_result = arrived.with_default(ready.message_enabled, ready.default_message);
    let ghost received = reception_result;
    let turn = end_turn(actor, reception_result, ctx, state_tx);
    let ghost (polled, waited) = choose|
        polled: Polled<Command>,
        waited: Waited<ActorMessage<A::Message>>,
    |
        arrived == #[trigger] ReceptionResult::<A::Message>::of(
            polled,
            ready.message_enabled,
            waited,
        );
    let ghost (alive, last_mailbox) = choose|alive: bool, last_mailbox: bool|
        {
            &&& turn == #[trigger] turn_of(alive, received, last_mailbox)
            &&& ctx.state() == state_after(old(ctx).state(), alive, received)
        };
    let exit = finish_turn(actor, turn, ctx);
    assert(received == reception_of(*old(ctx), polled, waited, ready.default_message));
    assert(turned(
        *old(actor),
        *old(ctx),
        polled,
        waited,
        ready.default_message,
        alive,
        last_mailbox,
        *actor,
        *ctx,
        exit,
    ));
    exit
}

/// What an actor does when it ends: it is marked `Terminated`; a failure
/// kills its group; a snapshot of its observable state is taken; `finalize`
/// runs, once, whatever the termination; the snapshot is published. Returns
/// the termination, the snapshot and what `finalize` returned.
pub fn sync_actor_exit<A: SyncActor>(
    actor: &mut A,
    termination: ActorTermination,
    ctx: &mut ActorContext<A>,
    state_tx: &Sender<A::ObservableState>,
) -> (end: ActorExit<A::ObservableState>)
    ensures
        final(ctx).state() == ActorState::Terminated,
        final(ctx).same_actor(old(ctx)),
        end.termination == termination,
        call_ensures(A::observable_state, (&*old(actor),), end.final_state),
        exists|finalizer: &mut A|
            {
                &&& *finalizer == *old(actor)
                &&& *final(finalizer) == *final(actor)
                &&& #[trigger] finalized_by(finalizer, termination, *final(ctx), end.finalized)
            },
{
    let final_state = begin_exit(actor, &termination, ctx);
    let ghost before = *actor;
    let finalized = actor.finalize(&termination, ctx);
    proof {
        let finalizer = choose|finalizer: &mut A|
            {
                &&& *finalizer == before
                &&& *final(finalizer) == *actor
                &&& #[trigger] call_ensures(A::finalize, (finalizer, &termination, &*ctx), finalized)
            };
        assert(finalized_by(finalizer, termination, *ctx, finalized));
    }
    finish_exit::<A>(&final_state, state_tx);
    ActorExit { termination, final_state, finalized }
}

/// Runs the loop for at most `turns` turns. Returns how the actor ended if
/// it ended within them, and `None` if it is still going.
///
/// If it is still going, `turns` turns were taken and none ended the actor.
/// If it ended, it had gone on for fewer than `turns` turns, the next turn
/// ended it with the termination returned, and it exited as
/// `sync_actor_exit` says: the snapshot returned is one of the actor as that
/// turn left it, and `finalize` ran on that actor and left the actor as it
/// is now.
pub fn sync_actor_loop<A: SyncActor>(
    actor: &mut A,
    inbox: &Inbox<A::Message>,
    ctx: &mut ActorContext<A>,
    state_tx: &Sender<A::ObservableState>,
    turns: u64,
) -> (end: Option<ActorExit<A::ObservableState>>)
    ensures
        final(ctx).same_actor(old(ctx)),
        end is Some ==> final(ctx).state() == ActorState::Terminated,
        end is None && old(ctx).state() != ActorState::Terminated ==> final(ctx).state()
            != ActorState::Terminated,
        match end {
            None => went_on(*old(actor), *old(ctx), turns as nat, *final(actor), *final(ctx)),
            Some(exit) => exists|
                before: nat,
                last_actor: A,
                last_ctx: ActorContext<A>,
                exit_actor: A,
                exit_ctx: ActorContext<A>,
                finalizer: &mut A,
            |
                {
                    &&& before < turns
                    &&& *final(finalizer) == *final(actor)
                    &&& #[trigger] ended_after(
                        *old(actor),
                        *old(ctx),
                        before,
                        last_actor,
                        last_ctx,
                        exit_actor,
                        exit_ctx,
                        finalizer,
                        *final(ctx),
                        exit,
                    )
                },
        },
{
    let mut left = turns;
    while left > 0
        invariant
            left <= turns,
            ctx.same_actor(old(ctx)),
            old(ctx).state() != ActorState::Terminated ==> ctx.state() != ActorState::Terminated,
            went_on(*old(actor), *old(ctx), (turns - left) as nat, *actor, *ctx),
        decreases left,
    {
        let ghost last_actor = *actor;
        let ghost last_ctx = *ctx;
        let termination_opt = process_msg(actor, inbox, ctx, state_tx);
        assert(turn_taken(last_actor, last_ctx, *actor, *ctx, termination_opt));
        if let Some(termination) = termination_opt {
            let ghost exit_actor = *actor;
            let ghost exit_ctx = *ctx;
            let exit = sync_actor_exit(actor, termination, ctx, state_tx);
            proof {
                let finalizer = choose|finalizer: &mut A|
                    {
                        &&& *finalizer == exit_actor
                        &&& *final(finalizer) == *actor
                        &&& #[trigger] finalized_by(finalizer, termination, *ctx, exit.finalized)
                    };
                assert(ended_after(
                    *old(actor),
                    *old(ctx),
                    (turns - left) as nat,
                    last_actor,
                    last_ctx,
                    exit_actor,
                    exit_ctx,
                    finalizer,
                    *ctx,
                    exit,
                ));
            }
            return Some(exit);
        }
        proof {
            lemma_went_on_one_more(
                *old(actor),
                *old(ctx),
                (turns - left) as nat,
                last_actor,
                last_ctx,
                *actor,
                *ctx,
            );
        }
        left = left - 1;
    }
    None
}

} // verus!
