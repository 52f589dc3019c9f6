pub mod actor;
pub mod actor_loop;
pub mod actor_state;
pub mod channel;
pub mod clock;
pub mod mailbox;
pub mod model;
pub mod scheduler;
pub mod sync_actor;

pub use actor::Actor;
pub use actor::ActorTermination;
pub use actor::KillSwitch;
pub use actor::MessageProcessError;
pub use actor::Progress;
pub use actor_loop::Readiness;
pub use actor_loop::Turn;
pub use actor_state::ActorContext;
pub use actor_state::ActorState;
pub use mailbox::create_mailbox;
pub use mailbox::message_timeout;
pub use mailbox::ActorMessage;
pub use mailbox::Capacity;
pub use mailbox::Command;
pub use mailbox::Inbox;
pub use mailbox::Mailbox;
pub use mailbox::Message;
pub use mailbox::ReceptionResult;
pub use mailbox::SendError;
pub use scheduler::Callback;
pub use scheduler::Scheduler;
pub use scheduler::SchedulerCounters;
pub use scheduler::SchedulerMessage;
pub use sync_actor::ActorExit;
pub use sync_actor::SyncActor;
