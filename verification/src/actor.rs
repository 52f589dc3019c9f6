//! What every actor has: the ways it can end, the flags it shares with its
//! supervisor, and the `Actor` trait.

use std::sync::atomic::AtomicBool;
use std::sync::atomic::Ordering;
use std::sync::Arc;
use vstd::prelude::*;

use crate::mailbox::Capacity;
use crate::mailbox::Message;
use crate::mailbox::SendError;

verus! {

/// `anyhow::Error`, the cause of a failure, carried as it is.
#[verifier::external_type_specification]
#[verifier::external_body]
pub struct ExAnyhowError(anyhow::Error);

/// Why a handler gave up on a message.
#[derive(Debug)]
pub enum MessageProcessError {
    /// The actor was asked to stop.
    OnDemand,
    /// A send to another actor failed because its inbox is gone.
    DownstreamClosed,
    /// Anything else.
    Error(anyhow::Error),
}

impl MessageProcessError {
    /// The text shown for the error.
    pub open spec fn message_text(self) -> Seq<char> {
        match self {
            MessageProcessError::OnDemand => "On Demand"@,
            MessageProcessError::DownstreamClosed => "Downstream actor closed connection"@,
            MessageProcessError::Error(_) => "Failure"@,
        }
    }

    /// Describes the error in words.
    pub fn message(&self) -> (text: String)
        ensures
            text@ == self.message_text(),
    {
        match self {
            MessageProcessError::OnDemand => String::from_str("On Demand"),
            MessageProcessError::DownstreamClosed => String::from_str(
                "Downstream actor closed connection",
            ),
            MessageProcessError::Error(_) => String::from_str("Failure"),
        }
    }
}

impl From<SendError> for MessageProcessError {
    fn from(error: SendError) -> (converted: Self) {
        MessageProcessError::DownstreamClosed
    }
}

impl vstd::std_specs::convert::FromSpecImpl<SendError> for MessageProcessError {
    open spec fn obeys_from_spec() -> bool {
        true
    }

    open spec fn from_spec(error: SendError) -> Self {
        MessageProcessError::DownstreamClosed
    }
}

impl From<anyhow::Error> for MessageProcessError {
    fn from(error: anyhow::Error) -> (converted: Self) {
        MessageProcessError::Error(error)
    }
}

impl vstd::std_specs::convert::FromSpecImpl<anyhow::Error> for MessageProcessError {
    open spec fn obeys_from_spec() -> bool {
        true
    }

    open spec fn from_spec(error: anyhow::Error) -> Self {
        MessageProcessError::Error(error)
    }
}

/// How an actor ended.
#[derive(Debug)]
pub enum ActorTermination {
    /// Its input came to a natural end.
    Terminated,
    /// It was asked to stop.
    OnDemand,
    /// A send to another actor failed because its inbox is gone.
    DownstreamClosed,
    /// Its group was killed.
    KillSwitch,
    /// A handler returned an error.
    Failure(anyhow::Error),
}

impl ActorTermination {
    /// A termination is a failure if it is `Failure` or `DownstreamClosed`.
    pub open spec fn failed(self) -> bool {
        self is Failure || self is DownstreamClosed
    }

    /// Whether the termination is a failure. A failure kills the group.
    pub fn is_failure(&self) -> (failure: bool)
        ensures
            failure == self.failed(),
    {
        match self {
            ActorTermination::Failure(_) => true,
            ActorTermination::DownstreamClosed => true,
            _ => false,
        }
    }
}

impl From<SendError> for ActorTermination {
    fn from(error: SendError) -> (converted: Self) {
        ActorTermination::DownstreamClosed
    }
}

impl vstd::std_specs::convert::FromSpecImpl<SendError> for ActorTermination {
    open spec fn obeys_from_spec() -> bool {
        true
    }

    open spec fn from_spec(error: SendError) -> Self {
        ActorTermination::DownstreamClosed
    }
}

impl From<MessageProcessError> for ActorTermination {
    fn from(error: MessageProcessError) -> (converted: Self) {
        match error {
            MessageProcessError::OnDemand => ActorTermination::OnDemand,
            MessageProcessError::DownstreamClosed => ActorTermination::DownstreamClosed,
            MessageProcessError::Error(cause) => ActorTermination::Failure(cause),
        }
    }
}

impl vstd::std_specs::convert::FromSpecImpl<MessageProcessError> for ActorTermination {
    open spec fn obeys_from_spec() -> bool {
        true
    }

    open spec fn from_spec(error: MessageProcessError) -> Self {
        match error {
            MessageProcessError::OnDemand => ActorTermination::OnDemand,
            MessageProcessError::DownstreamClosed => ActorTermination::DownstreamClosed,
            MessageProcessError::Error(cause) => ActorTermination::Failure(cause),
        }
    }
}

/// An actor has an internal state and processes a stream of messages. While
/// it processes a message it typically updates its state and sends messages
/// to other actors.
pub trait Actor: Send + Sync + 'static {
    /// The messages the actor receives.
    type Message: Message;

    /// A piece of state that can be copied out for observers.
    type ObservableState: Send + Clone + Sync + std::fmt::Debug;

    /// A name for the kind of actor. It need not be unique to the instance.
    fn name(&self) -> String;

    /// A message to process when the mailbox has been idle for one wait.
    fn default_message(&self) -> (message: Option<Self::Message>)
        default_ensures
            message is None,
    {
        None
    }

    /// The capacity of the actor's message queue.
    fn queue_capacity(&self) -> (capacity: Capacity)
        default_ensures
            capacity is Unbounded,
    {
        Capacity::Unbounded
    }

    /// Takes a snapshot of the observable state. It is taken when an observer
    /// asks and when the actor ends, not after every message.
    fn observable_state(&self) -> Self::ObservableState;
}

/// The heartbeat of an actor: the actor sets the flag whenever it gets
/// somewhere, and its supervisor reads and clears it at every poll. Clones
/// share the flag.
#[derive(Clone)]
pub struct Progress(Arc<AtomicBool>);

impl Default for Progress {
    fn default() -> Progress {
        Progress(Arc::new(AtomicBool::new(false)))
    }
}

impl Progress {
    /// Sets the flag.
    pub fn record_progress(&self) {
        self.0.store(true, Ordering::Relaxed);
    }

    /// Reads the flag: whether progress was recorded since the last reset.
    pub fn has_changed(&self) -> bool {
        self.0.load(Ordering::Relaxed)
    }

    /// Clears the flag.
    pub fn reset(&self) {
        self.0.store(false, Ordering::Relaxed);
    }
}

/// The switch by which a group of actors is ended together. It starts alive
/// and is only ever turned dead. Clones share the switch.
#[derive(Clone)]
pub struct KillSwitch {
    alive: Arc<AtomicBool>,
}

impl Default for KillSwitch {
    fn default() -> Self {
        KillSwitch { alive: Arc::new(AtomicBool::new(true)) }
    }
}

impl KillSwitch {
    /// Turns the switch dead.
    pub fn kill(&self) {
        self.alive.store(false, Ordering::Relaxed);
    }

    /// Reads the switch.
    pub fn is_alive(&self) -> bool {
        self.alive.load(Ordering::Relaxed)
    }
}

/// One poll of a supervisor. An actor that has recorded no progress since
/// the previous poll is taken to be stuck, and its group is killed; otherwise
/// the flag is cleared for the next poll. Returns whether the actor had made
/// progress.
pub fn supervise(progress: &Progress, kill_switch: &KillSwitch) -> (progressed: bool) {
    let progressed = progress.has_changed();
    if progressed {
        progress.reset();
    } else {
        kill_switch.kill();
    }
    progressed
}

} // verus!
