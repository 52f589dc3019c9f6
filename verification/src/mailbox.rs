//! The two ends of an actor's mailbox. A mailbox carries ordinary messages on
//! a queue of the chosen capacity and commands on a queue without limit; the
//! inbox hands out what arrives, commands first.

use std::sync::Arc;
use std::time::Duration;
use tokio::sync::oneshot;
use vstd::prelude::*;

use crate::channel::enqueue;
use crate::channel::holders;
use crate::channel::poll;
use crate::channel::share;
use crate::channel::wait;
use crate::channel::Polled;
use crate::channel::Waited;
use crate::clock::duration_nanos;

verus! {

/// Milliseconds after which a supervisor expects an actor to have made
/// progress.
pub const HEARTBEAT_MILLIS: u64 = 1_000;

/// Milliseconds for which a reception waits for a message before it gives
/// the loop a turn.
pub const MESSAGE_TIMEOUT_MILLIS: u64 = 200;

/// The bound on one wait for a message.
pub fn message_timeout() -> (timeout: Duration)
    ensures
        duration_nanos(timeout) == MESSAGE_TIMEOUT_MILLIS * 1_000_000,
        duration_nanos(timeout) < HEARTBEAT_MILLIS * 1_000_000,
{
    Duration::from_millis(MESSAGE_TIMEOUT_MILLIS)
}

/// A value that actors exchange.
pub trait Message: Send + Sync + Clone + std::fmt::Debug {

}

/// The out-of-band control messages. They are received before any ordinary
/// message.
pub enum Command {
    /// Stop receiving ordinary messages.
    Pause,
    /// Exit; the sink is fulfilled on the way out.
    Stop(oneshot::Sender<()>),
    /// Receive ordinary messages again.
    Resume,
    /// Publish a snapshot of the observable state, then fulfil the sink.
    Observe(oneshot::Sender<()>),
}

impl Command {
    /// The name of the variant.
    pub open spec fn debug_text(self) -> Seq<char> {
        match self {
            Command::Pause => "Pause"@,
            Command::Stop(_) => "Stop"@,
            Command::Resume => "Resume"@,
            Command::Observe(_) => "Observe"@,
        }
    }

    /// Prints the command for tracing.
    pub fn debug_string(&self) -> (text: String)
        ensures
            text@ == self.debug_text(),
    {
        match self {
            Command::Pause => String::from_str("Pause"),
            Command::Stop(_) => String::from_str("Stop"),
            Command::Resume => String::from_str("Resume"),
            Command::Observe(_) => String::from_str("Observe"),
        }
    }
}

/// What travels on the message queue: a message, or a request to observe
/// that keeps its place behind the messages sent before it.
pub enum ActorMessage<M> {
    Message(M),
    Observe(oneshot::Sender<()>),
}

/// The receiver is gone.
#[derive(Clone, Copy, Debug, PartialEq, Eq, Structural)]
pub struct SendError;

impl SendError {
    /// What a send comes to, given what the queue made of the item: the send
    /// fails if and only if the queue gave the item back.
    pub open spec fn of<T>(sent: Result<(), T>) -> Result<(), SendError> {
        match sent {
            Ok(_) => Ok(()),
            Err(_) => Err(SendError),
        }
    }

    /// Turns what the queue made of an item into the result of the send.
    pub fn from_sent<T>(sent: Result<(), T>) -> (delivered: Result<(), SendError>)
        ensures
            delivered == Self::of(sent),
    {
        match sent {
            Ok(()) => Ok(()),
            Err(_) => Err(SendError),
        }
    }
}

/// The limit on the number of queued messages.
#[derive(Clone, Copy, Debug)]
pub enum Capacity {
    Bounded(usize),
    Unbounded,
}

impl Capacity {
    fn create_channel<T>(&self) -> (flume::Sender<T>, flume::Receiver<T>) {
        match *self {
            Capacity::Bounded(cap) => flume::bounded(cap),
            Capacity::Unbounded => flume::unbounded(),
        }
    }
}

/// The text of the identity `id` as a hyphenated lower-case UUID.
pub uninterp spec fn uuid_text(id: u128) -> Seq<char>;

/// Draws a random version-4 UUID with `uuid::Uuid::new_v4` and returns its
/// 128 bits. Nothing is claimed of the number.
#[verifier::external_body]
fn fresh_id() -> (id: u128) {
    uuid::Uuid::new_v4().as_u128()
}

/// Prints the UUID of the given 128 bits with `uuid::Uuid`'s `Display`; the
/// contract only names the text.
#[verifier::external_body]
fn format_id(id: u128) -> (text: String)
    ensures
        text@ == uuid_text(id),
{
    uuid::Uuid::from_u128(id).to_string()
}

/// `Hash::hash` for `u128` feeds the number to the hasher; nothing is claimed
/// of the hasher's state.
pub assume_specification<H: std::hash::Hasher>[ <u128 as std::hash::Hash>::hash ](
    value: &u128,
    state: &mut H,
)
;

/// The limit on the number of commands that the queue of the given sending
/// end holds at a time; `None` if it has no limit.
pub uninterp spec fn command_queue_limit(tx: flume::Sender<Command>) -> Option<usize>;

/// Makes a command queue with `flume::unbounded`, which gives the queue no
/// limit. Nothing else is claimed of the two ends.
#[verifier::external_body]
fn unbounded_commands() -> (ends: (flume::Sender<Command>, flume::Receiver<Command>))
    ensures
        command_queue_limit(ends.0) is None,
{
    flume::unbounded()
}

/// What all the handles of one mailbox share.
#[verifier::reject_recursive_types(M)]
pub struct Inner<M: Message> {
    sender: flume::Sender<ActorMessage<M>>,
    command_sender: flume::Sender<Command>,
    id: u128,
    actor_name: String,
}

/// The sending end of a mailbox. Clones are handles to the same mailbox.
#[verifier::reject_recursive_types(M)]
pub struct Mailbox<M: Message> {
    inner: Arc<Inner<M>>,
}

impl<M: Message> Clone for Mailbox<M> {
    fn clone(&self) -> (handle: Self)
        ensures
            handle == *self,
    {
        Mailbox { inner: share(&self.inner) }
    }
}

impl<M: Message> PartialEq for Mailbox<M> {
    fn eq(&self, other: &Self) -> (same: bool) {
        self.inner.id == other.inner.id
    }
}

impl<M: Message> Eq for Mailbox<M> {

}

impl<M: Message> std::hash::Hash for Mailbox<M> {
    fn hash<H: std::hash::Hasher>(&self, state: &mut H) {
        self.inner.id.hash(state)
    }
}

impl<M: Message> std::ops::Deref for Mailbox<M> {
    type Target = Inner<M>;

    fn deref(&self) -> (inner: &Inner<M>)
        ensures
            *inner == self.shared(),
    {
        &self.inner
    }
}

impl<M: Message> vstd::std_specs::cmp::PartialEqSpecImpl for Mailbox<M> {
    open spec fn obeys_eq_spec() -> bool {
        true
    }

    open spec fn eq_spec(&self, other: &Self) -> bool {
        self.id() == other.id()
    }
}

impl<M: Message> Mailbox<M> {
    /// The mailbox's identity: 128 random bits drawn when it was created.
    pub closed spec fn id(&self) -> u128 {
        self.inner.id
    }

    /// The name the mailbox was created with.
    pub closed spec fn name(&self) -> Seq<char> {
        self.inner.actor_name@
    }

    /// What the mailbox shares with its other handles.
    pub closed spec fn shared(&self) -> Inner<M> {
        *self.inner
    }

    /// The queue on which the mailbox sends messages.
    pub closed spec fn message_queue(&self) -> flume::Sender<ActorMessage<M>> {
        self.inner.sender
    }

    /// The queue on which the mailbox sends commands.
    pub closed spec fn command_queue(&self) -> flume::Sender<Command> {
        self.inner.command_sender
    }

    /// Whether no other handle to this mailbox is left.
    pub fn is_last_mailbox(&self) -> bool {
        holders(&self.inner) == 1
    }

    /// The actor's name followed by a colon and the mailbox's identity.
    pub fn actor_name(&self) -> (full: String)
        ensures
            full@ == self.name() + ":"@ + uuid_text(self.id()),
    {
        let id = format_id(self.inner.id);
        self.inner.actor_name.clone().concat(":").concat(id.as_str())
    }

    /// Prints the mailbox for tracing.
    pub fn debug_string(&self) -> (text: String)
        ensures
            text@ == "Mailbox("@ + self.name() + ":"@ + uuid_text(self.id()) + ")"@,
    {
        let full = self.actor_name();
        let text = String::from_str("Mailbox(").concat(full.as_str()).concat(")");
        assert(text@ =~= "Mailbox("@ + self.name() + ":"@ + uuid_text(self.id()) + ")"@);
        text
    }

    /// The queue on which messages travel.
    pub fn message_sender(&self) -> (queue: &flume::Sender<ActorMessage<M>>)
        ensures
            *queue == self.message_queue(),
    {
        &self.inner.sender
    }

    /// The queue on which commands travel.
    pub fn command_sender(&self) -> (queue: &flume::Sender<Command>)
        ensures
            *queue == self.command_queue(),
    {
        &self.inner.command_sender
    }

    /// Enqueues an item on the message queue, waiting for room if the queue
    /// is bounded and full. Fails if and only if the inbox is gone.
    pub fn send_actor_message_blocking(&self, msg: ActorMessage<M>) -> Result<(), SendError> {
        SendError::from_sent(enqueue(&self.inner.sender, msg))
    }

    /// Sends a message to the actor, waiting for room if the queue is bounded
    /// and full. Fails if and only if the inbox is gone.
    pub fn send_blocking(&self, msg: M) -> Result<(), SendError> {
        self.send_actor_message_blocking(ActorMessage::Message(msg))
    }

    /// Sends a command to the actor. Fails if and only if the inbox is gone.
    pub fn send_command_blocking(&self, command: Command) -> Result<(), SendError> {
        SendError::from_sent(enqueue(&self.inner.command_sender, command))
    }
}

/// What one reception hands to the actor's loop.
pub enum ReceptionResult<M> {
    /// A command, from the command queue or an `Observe` from the message
    /// queue.
    Command(Command),
    /// An ordinary message.
    Message(M),
    /// Nothing this time.
    Idle,
    /// Every mailbox is gone and nothing is queued.
    Disconnect,
}

impl<M> ReceptionResult<M> {
    /// What a look at the command queue settles: a command is received at
    /// once, a closed queue ends the reception, an empty one leaves it open.
    pub open spec fn of_command(polled: Polled<Command>) -> Option<ReceptionResult<M>> {
        match polled {
            Polled::Ready(command) => Some(ReceptionResult::Command(command)),
            Polled::Disconnected => Some(ReceptionResult::Disconnect),
            Polled::Empty => None,
        }
    }

    /// What a bounded wait on the message queue is received as.
    pub open spec fn of_message(waited: Waited<ActorMessage<M>>) -> ReceptionResult<M> {
        match waited {
            Waited::Ready(ActorMessage::Message(msg)) => ReceptionResult::Message(msg),
            Waited::Ready(ActorMessage::Observe(ack)) => ReceptionResult::Command(
                Command::Observe(ack),
            ),
            Waited::Disconnected => ReceptionResult::Disconnect,
            Waited::TimedOut => ReceptionResult::Idle,
        }
    }

    /// What is settled before any wait: what the command queue settles, and
    /// else, with messages disabled, that nothing is received.
    pub open spec fn before_wait(polled: Polled<Command>, message_enabled: bool) -> Option<
        ReceptionResult<M>,
    > {
        match Self::of_command(polled) {
            Some(settled) => Some(settled),
            None => if message_enabled {
                None
            } else {
                Some(ReceptionResult::Idle)
            },
        }
    }

    /// The reception rule: what the command queue settles comes first; else
    /// nothing is received while messages are disabled; else what the
    /// message queue yields within the wait.
    pub open spec fn of(
        polled: Polled<Command>,
        message_enabled: bool,
        waited: Waited<ActorMessage<M>>,
    ) -> ReceptionResult<M> {
        match Self::of_command(polled) {
            Some(settled) => settled,
            None => if message_enabled {
                Self::of_message(waited)
            } else {
                ReceptionResult::Idle
            },
        }
    }

    /// What the idle tick turns a reception into: where nothing was received
    /// although messages are enabled, the actor's default message, if it has
    /// one, is received in its place.
    pub open spec fn or_default(self, message_enabled: bool, default_message: Option<M>) -> Self {
        match (self, default_message) {
            (ReceptionResult::Idle, Some(msg)) => if message_enabled {
                ReceptionResult::Message(msg)
            } else {
                self
            },
            _ => self,
        }
    }

    /// Receives what a look at the command queue has settled.
    pub fn command_reception(polled: Polled<Command>) -> (settled: Option<Self>)
        ensures
            settled == Self::of_command(polled),
    {
        match polled {
            Polled::Ready(command) => Some(ReceptionResult::Command(command)),
            Polled::Disconnected => Some(ReceptionResult::Disconnect),
            Polled::Empty => None,
        }
    }

    /// Settles the reception as far as it can be settled before any wait:
    /// a command or a closed command queue settles it, and so does a look at
    /// an empty command queue while messages are disabled.
    pub fn reception_before_wait(polled: Polled<Command>, message_enabled: bool) -> (settled:
        Option<Self>)
        ensures
            settled == Self::before_wait(polled, message_enabled),
    {
        match Self::command_reception(polled) {
            Some(settled) => Some(settled),
            None => {
                if message_enabled {
                    None
                } else {
                    Some(ReceptionResult::Idle)
                }
            },
        }
    }

    /// Receives what a bounded wait on the message queue has yielded.
    pub fn message_reception(waited: Waited<ActorMessage<M>>) -> (received: Self)
        ensures
            received == Self::of_message(waited),
    {
        match waited {
            Waited::Ready(ActorMessage::Message(msg)) => ReceptionResult::Message(msg),
            Waited::Ready(ActorMessage::Observe(ack)) => ReceptionResult::Command(
                Command::Observe(ack),
            ),
            Waited::Disconnected => ReceptionResult::Disconnect,
            Waited::TimedOut => ReceptionResult::Idle,
        }
    }

    /// Puts the default message in the place of an idle reception.
    pub fn with_default(self, message_enabled: bool, default_message: Option<M>) -> (received: Self)
        ensures
            received == self.or_default(message_enabled, default_message),
    {
        match self {
            ReceptionResult::Idle => {
                if message_enabled {
                    match default_message {
                        Some(msg) => ReceptionResult::Message(msg),
                        None => ReceptionResult::Idle,
                    }
                } else {
                    ReceptionResult::Idle
                }
            },
            received => received,
        }
    }
}

/// The receiving end of a mailbox. There is one per actor.
#[verifier::reject_recursive_types(M)]
pub struct Inbox<M: Message> {
    rx: flume::Receiver<ActorMessage<M>>,
    command_rx: flume::Receiver<Command>,
}

impl<M: Message> Inbox<M> {
    /// The queue on which the inbox receives messages.
    pub closed spec fn message_queue(&self) -> flume::Receiver<ActorMessage<M>> {
        self.rx
    }

    /// The queue on which messages arrive.
    pub fn message_receiver(&self) -> (queue: &flume::Receiver<ActorMessage<M>>)
        ensures
            *queue == self.message_queue(),
    {
        &self.rx
    }

    /// Looks at the command queue without waiting.
    pub fn get_command_if_available(&self) -> (settled: Option<ReceptionResult<M>>)
        ensures
            exists|polled: Polled<Command>| settled == #[trigger] ReceptionResult::<M>::of_command(polled),
            settled matches Some(received) ==> received is Command || received is Disconnect,
    {
        let polled = poll(&self.command_rx);
        ReceptionResult::command_reception(polled)
    }

    /// The part of a reception that does not wait: looks at the command
    /// queue, and returns what is settled by that and by whether messages are
    /// enabled. `None` says that the message queue is to be waited on.
    pub fn recv_before_wait(&self, message_enabled: bool) -> (settled: Option<ReceptionResult<M>>)
        ensures
            exists|polled: Polled<Command>|
                settled == #[trigger] ReceptionResult::<M>::before_wait(polled, message_enabled),
            settled is None ==> message_enabled,
            settled matches Some(received) ==> !(received is Message),
    {
        let polled = poll(&self.command_rx);
        ReceptionResult::reception_before_wait(polled, message_enabled)
    }

    /// One reception. A pending command is returned at once; otherwise, with
    /// messages disabled, nothing is; otherwise the inbox waits for a message
    /// for at most `message_timeout()`.
    pub fn try_recv_msg(&self, message_enabled: bool) -> (received: ReceptionResult<M>)
        ensures
            exists|polled: Polled<Command>, waited: Waited<ActorMessage<M>>|
                received == #[trigger] ReceptionResult::<M>::of(polled, message_enabled, waited),
            !message_enabled ==> !(received is Message),
    {
        let polled = poll(&self.command_rx);
        if let Some(settled) = ReceptionResult::reception_before_wait(polled, message_enabled) {
            assert(settled == ReceptionResult::<M>::of(polled, message_enabled, Waited::TimedOut));
            return settled;
        }
        let waited = wait(&self.rx, message_timeout());
        let received = ReceptionResult::message_reception(waited);
        assert(received == ReceptionResult::<M>::of(polled, message_enabled, waited));
        received
    }
}

/// Creates the two ends of a mailbox: a message queue of the given capacity
/// and a command queue without limit.
pub fn create_mailbox<M: Message>(actor_name: String, capacity: Capacity) -> (ends: (
    Mailbox<M>,
    Inbox<M>,
))
    ensures
        ends.0.name() == actor_name@,
        command_queue_limit(ends.0.command_queue()) is None,
{
    let (msg_tx, msg_rx) = capacity.create_channel();
    let (cmd_tx, cmd_rx) = unbounded_commands();
    let mailbox = Mailbox {
        inner: Arc::new(
            Inner { sender: msg_tx, command_sender: cmd_tx, id: fresh_id(), actor_name },
        ),
    };
    let inbox = Inbox { rx: msg_rx, command_rx: cmd_rx };
    (mailbox, inbox)
}

/// Command priority: a command that is pending when the inbox is asked is
/// what the reception returns, whatever waits on the message queue and
/// whether or not messages are enabled.
pub proof fn lemma_command_priority<M>(
    command: Command,
    message_enabled: bool,
    waited: Waited<ActorMessage<M>>,
)
    ensures
        ReceptionResult::<M>::of(Polled::Ready(command), message_enabled, waited)
            == ReceptionResult::<M>::Command(command),
{
}

/// Liveness under pause: with messages disabled a reception still returns
/// the pending command, and never a message, whatever waits on the message
/// queue.
pub proof fn lemma_paused_reception<M>(polled: Polled<Command>, waited: Waited<ActorMessage<M>>)
    ensures
        !(ReceptionResult::<M>::of(polled, false, waited) is Message),
        polled matches Polled::Ready(command) ==> ReceptionResult::<M>::of(polled, false, waited)
            == ReceptionResult::<M>::Command(command),
        forall|default_message: Option<M>|
            !(#[trigger] ReceptionResult::<M>::of(polled, false, waited).or_default(
                false,
                default_message,
            ) is Message),
{
}

} // verus!
