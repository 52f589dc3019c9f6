use std::collections::HashSet;
use std::time::Duration;
use std::time::Instant;

use quickwit_actors::channel::Polled;
use quickwit_actors::channel::Waited;
use quickwit_actors::create_mailbox;
use quickwit_actors::mailbox::Inner;
use quickwit_actors::mailbox::HEARTBEAT_MILLIS;
use quickwit_actors::mailbox::MESSAGE_TIMEOUT_MILLIS;
use quickwit_actors::message_timeout;
use quickwit_actors::ActorMessage;
use quickwit_actors::Capacity;
use quickwit_actors::Command;
use quickwit_actors::Inbox;
use quickwit_actors::Mailbox;
use quickwit_actors::Message;
use quickwit_actors::ReceptionResult;
use quickwit_actors::SendError;
use tokio::sync::oneshot;

#[derive(Clone, Debug, PartialEq, Eq)]
struct Ping(u32);

impl Message for Ping {}

fn ping_mailbox(capacity: Capacity) -> (Mailbox<Ping>, Inbox<Ping>) {
    create_mailbox("ping".to_string(), capacity)
}

fn expect_message(received: ReceptionResult<Ping>) -> Ping {
    match received {
        ReceptionResult::Message(ping) => ping,
        ReceptionResult::Command(command) => panic!("got command {}", command.debug_string()),
        ReceptionResult::Idle => panic!("got nothing"),
        ReceptionResult::Disconnect => panic!("got a disconnect"),
    }
}

#[test]
fn test_message_timeout_is_below_heartbeat() {
    assert_eq!(message_timeout(), Duration::from_millis(200));
    assert_eq!(MESSAGE_TIMEOUT_MILLIS, 200);
    assert_eq!(HEARTBEAT_MILLIS, 1_000);
    assert!(message_timeout() < Duration::from_millis(HEARTBEAT_MILLIS));
}

#[test]
fn test_actor_name_is_name_colon_uuid() {
    let (mailbox, _inbox) = ping_mailbox(Capacity::Unbounded);
    let full = mailbox.actor_name();
    assert!(full.starts_with("ping:"));
    let id = &full["ping:".len()..];
    assert_eq!(id.len(), 36);
    for (at, c) in id.chars().enumerate() {
        if at == 8 || at == 13 || at == 18 || at == 23 {
            assert_eq!(c, '-');
        } else {
            assert!(c.is_ascii_hexdigit() && !c.is_ascii_uppercase());
        }
    }
    assert_eq!(id.chars().nth(14), Some('4'));
    assert_eq!(mailbox.actor_name(), full);
}

#[test]
fn test_mailboxes_have_distinct_identities() {
    let (first, _first_inbox) = ping_mailbox(Capacity::Unbounded);
    let (second, _second_inbox) = ping_mailbox(Capacity::Unbounded);
    assert!(first != second);
    assert_ne!(first.actor_name(), second.actor_name());
}

#[test]
fn test_mailbox_clone_is_the_same_mailbox() {
    let (mailbox, inbox) = ping_mailbox(Capacity::Unbounded);
    let clone = mailbox.clone();
    assert!(clone == mailbox);
    assert_eq!(clone.actor_name(), mailbox.actor_name());
    clone.send_blocking(Ping(7)).unwrap();
    assert_eq!(expect_message(inbox.try_recv_msg(true)), Ping(7));
}

#[test]
fn test_is_last_mailbox() {
    let (mailbox, _inbox) = ping_mailbox(Capacity::Unbounded);
    assert!(mailbox.is_last_mailbox());
    let clone = mailbox.clone();
    assert!(!mailbox.is_last_mailbox());
    assert!(!clone.is_last_mailbox());
    drop(clone);
    assert!(mailbox.is_last_mailbox());
}

#[test]
fn test_messages_arrive_in_send_order() {
    let (mailbox, inbox) = ping_mailbox(Capacity::Unbounded);
    for i in 0..50 {
        mailbox.send_blocking(Ping(i)).unwrap();
    }
    for i in 0..50 {
        assert_eq!(expect_message(inbox.try_recv_msg(true)), Ping(i));
    }
}

#[test]
fn test_command_is_received_before_messages() {
    let (mailbox, inbox) = ping_mailbox(Capacity::Unbounded);
    mailbox.send_blocking(Ping(1)).unwrap();
    mailbox.send_blocking(Ping(2)).unwrap();
    mailbox.send_command_blocking(Command::Pause).unwrap();
    mailbox.send_blocking(Ping(3)).unwrap();
    mailbox.send_command_blocking(Command::Resume).unwrap();
    assert!(matches!(
        inbox.try_recv_msg(true),
        ReceptionResult::Command(Command::Pause)
    ));
    assert!(matches!(
        inbox.try_recv_msg(true),
        ReceptionResult::Command(Command::Resume)
    ));
    assert_eq!(expect_message(inbox.try_recv_msg(true)), Ping(1));
    assert_eq!(expect_message(inbox.try_recv_msg(true)), Ping(2));
    assert_eq!(expect_message(inbox.try_recv_msg(true)), Ping(3));
}

#[test]
fn test_messages_are_not_received_while_disabled() {
    let (mailbox, inbox) = ping_mailbox(Capacity::Unbounded);
    mailbox.send_blocking(Ping(1)).unwrap();
    assert!(matches!(inbox.try_recv_msg(false), ReceptionResult::Idle));
    assert!(matches!(inbox.try_recv_msg(false), ReceptionResult::Idle));
    mailbox.send_command_blocking(Command::Resume).unwrap();
    assert!(matches!(
        inbox.try_recv_msg(false),
        ReceptionResult::Command(Command::Resume)
    ));
    assert_eq!(expect_message(inbox.try_recv_msg(true)), Ping(1));
}

#[test]
fn test_disabled_reception_does_not_wait() {
    let (_mailbox, inbox) = ping_mailbox(Capacity::Unbounded);
    let start = Instant::now();
    for _ in 0..100 {
        assert!(matches!(inbox.try_recv_msg(false), ReceptionResult::Idle));
    }
    assert!(start.elapsed() < message_timeout());
}

#[test]
fn test_idle_reception_waits_for_the_message_timeout() {
    let (_mailbox, inbox) = ping_mailbox(Capacity::Unbounded);
    let start = Instant::now();
    assert!(matches!(inbox.try_recv_msg(true), ReceptionResult::Idle));
    let waited = start.elapsed();
    assert!(waited >= Duration::from_millis(190));
    assert!(waited < Duration::from_millis(HEARTBEAT_MILLIS));
}

#[test]
fn test_observe_on_the_message_queue_keeps_its_place() {
    let (mailbox, inbox) = ping_mailbox(Capacity::Unbounded);
    let (ack, mut acked) = oneshot::channel::<()>();
    mailbox.send_blocking(Ping(1)).unwrap();
    mailbox
        .send_actor_message_blocking(ActorMessage::Observe(ack))
        .unwrap();
    mailbox.send_blocking(Ping(2)).unwrap();
    assert_eq!(expect_message(inbox.try_recv_msg(true)), Ping(1));
    match inbox.try_recv_msg(true) {
        ReceptionResult::Command(Command::Observe(ack)) => ack.send(()).unwrap(),
        _ => panic!("the observe request comes second"),
    }
    assert!(acked.try_recv().is_ok());
    assert_eq!(expect_message(inbox.try_recv_msg(true)), Ping(2));
}

#[test]
fn test_reception_disconnects_when_mailboxes_are_gone() {
    let (mailbox, inbox) = ping_mailbox(Capacity::Unbounded);
    mailbox.send_command_blocking(Command::Pause).unwrap();
    drop(mailbox);
    assert!(matches!(
        inbox.try_recv_msg(true),
        ReceptionResult::Command(Command::Pause)
    ));
    assert!(matches!(
        inbox.try_recv_msg(true),
        ReceptionResult::Disconnect
    ));
    assert!(matches!(
        inbox.try_recv_msg(false),
        ReceptionResult::Disconnect
    ));
    assert!(matches!(
        inbox.get_command_if_available(),
        Some(ReceptionResult::Disconnect)
    ));
}

#[test]
fn test_get_command_if_available() {
    let (mailbox, inbox) = ping_mailbox(Capacity::Unbounded);
    mailbox.send_blocking(Ping(1)).unwrap();
    assert!(inbox.get_command_if_available().is_none());
    let (ack, _acked) = oneshot::channel::<()>();
    mailbox.send_command_blocking(Command::Stop(ack)).unwrap();
    assert!(matches!(
        inbox.get_command_if_available(),
        Some(ReceptionResult::Command(Command::Stop(_)))
    ));
    assert!(inbox.get_command_if_available().is_none());
}

#[test]
fn test_send_fails_when_inbox_is_gone() {
    let (mailbox, inbox) = ping_mailbox(Capacity::Unbounded);
    assert_eq!(mailbox.send_blocking(Ping(1)), Ok(()));
    drop(inbox);
    assert_eq!(mailbox.send_blocking(Ping(2)), Err(SendError));
    assert_eq!(
        mailbox.send_command_blocking(Command::Pause),
        Err(SendError)
    );
    let (ack, _acked) = oneshot::channel::<()>();
    assert_eq!(
        mailbox.send_actor_message_blocking(ActorMessage::Observe(ack)),
        Err(SendError)
    );
}

#[test]
fn test_bounded_mailbox_holds_its_capacity() {
    let (mailbox, inbox) = ping_mailbox(Capacity::Bounded(3));
    assert_eq!(mailbox.message_sender().capacity(), Some(3));
    assert_eq!(mailbox.command_sender().capacity(), None);
    for i in 0..3 {
        mailbox.send_blocking(Ping(i)).unwrap();
    }
    assert!(mailbox.message_sender().is_full());
    for _ in 0..10 {
        mailbox.send_command_blocking(Command::Pause).unwrap();
    }
    assert_eq!(inbox.message_receiver().len(), 3);
}

#[test]
fn test_unbounded_mailbox_has_no_capacity() {
    let (mailbox, _inbox) = ping_mailbox(Capacity::Unbounded);
    assert_eq!(mailbox.message_sender().capacity(), None);
    assert_eq!(mailbox.command_sender().capacity(), None);
}

#[test]
fn test_command_debug_string() {
    let (stop_ack, _stop) = oneshot::channel::<()>();
    let (observe_ack, _observe) = oneshot::channel::<()>();
    assert_eq!(Command::Pause.debug_string(), "Pause");
    assert_eq!(Command::Resume.debug_string(), "Resume");
    assert_eq!(Command::Stop(stop_ack).debug_string(), "Stop");
    assert_eq!(Command::Observe(observe_ack).debug_string(), "Observe");
}

#[test]
fn test_command_reception() {
    assert!(matches!(
        ReceptionResult::<Ping>::command_reception(Polled::Ready(Command::Pause)),
        Some(ReceptionResult::Command(Command::Pause))
    ));
    assert!(matches!(
        ReceptionResult::<Ping>::command_reception(Polled::Disconnected),
        Some(ReceptionResult::Disconnect)
    ));
    assert!(ReceptionResult::<Ping>::command_reception(Polled::Empty).is_none());
}

#[test]
fn test_message_reception() {
    let (ack, _acked) = oneshot::channel::<()>();
    assert!(matches!(
        ReceptionResult::message_reception(Waited::Ready(ActorMessage::Message(Ping(4)))),
        ReceptionResult::Message(Ping(4))
    ));
    assert!(matches!(
        ReceptionResult::<Ping>::message_reception(Waited::Ready(ActorMessage::Observe(ack))),
        ReceptionResult::Command(Command::Observe(_))
    ));
    assert!(matches!(
        ReceptionResult::<Ping>::message_reception(Waited::TimedOut),
        ReceptionResult::Idle
    ));
    assert!(matches!(
        ReceptionResult::<Ping>::message_reception(Waited::Disconnected),
        ReceptionResult::Disconnect
    ));
}

#[test]
fn test_default_message_replaces_an_idle_reception_only() {
    assert!(matches!(
        ReceptionResult::Idle.with_default(true, Some(Ping(9))),
        ReceptionResult::Message(Ping(9))
    ));
    assert!(matches!(
        ReceptionResult::Idle.with_default(false, Some(Ping(9))),
        ReceptionResult::Idle
    ));
    assert!(matches!(
        ReceptionResult::<Ping>::Idle.with_default(true, None),
        ReceptionResult::Idle
    ));
    assert!(matches!(
        ReceptionResult::Message(Ping(1)).with_default(true, Some(Ping(9))),
        ReceptionResult::Message(Ping(1))
    ));
    assert!(matches!(
        ReceptionResult::Command(Command::Pause).with_default(true, Some(Ping(9))),
        ReceptionResult::Command(Command::Pause)
    ));
    assert!(matches!(
        ReceptionResult::Disconnect.with_default(true, Some(Ping(9))),
        ReceptionResult::Disconnect
    ));
}

#[test]
fn test_mailbox_debug_string() {
    let (mailbox, _inbox) = ping_mailbox(Capacity::Unbounded);
    assert_eq!(
        mailbox.debug_string(),
        format!("Mailbox({})", mailbox.actor_name())
    );
    assert!(mailbox.debug_string().starts_with("Mailbox(ping:"));
    assert!(mailbox.debug_string().ends_with(")"));
}

#[test]
fn test_mailboxes_hash_by_identity() {
    let (first, _first_inbox) = ping_mailbox(Capacity::Unbounded);
    let (second, _second_inbox) = ping_mailbox(Capacity::Unbounded);
    let mut mailboxes = HashSet::new();
    assert!(mailboxes.insert(first.clone()));
    assert!(!mailboxes.insert(first.clone()));
    assert!(mailboxes.insert(second.clone()));
    assert_eq!(mailboxes.len(), 2);
    assert!(mailboxes.contains(&first));
    assert!(mailboxes.contains(&second));
}

#[test]
fn test_mailbox_derefs_to_what_its_handles_share() {
    let (mailbox, _inbox) = ping_mailbox(Capacity::Unbounded);
    let clone = mailbox.clone();
    let shared: &Inner<Ping> = &mailbox;
    let shared_by_clone: &Inner<Ping> = &clone;
    assert!(std::ptr::eq(shared, shared_by_clone));
}

#[test]
fn test_send_fails_exactly_when_the_item_comes_back() {
    assert_eq!(SendError::from_sent::<Ping>(Ok(())), Ok(()));
    assert_eq!(SendError::from_sent(Err(Ping(3))), Err(SendError));
}

#[test]
fn test_reception_before_wait() {
    assert!(matches!(
        ReceptionResult::<Ping>::reception_before_wait(Polled::Ready(Command::Pause), true),
        Some(ReceptionResult::Command(Command::Pause))
    ));
    assert!(matches!(
        ReceptionResult::<Ping>::reception_before_wait(Polled::Ready(Command::Resume), false),
        Some(ReceptionResult::Command(Command::Resume))
    ));
    assert!(matches!(
        ReceptionResult::<Ping>::reception_before_wait(Polled::Disconnected, true),
        Some(ReceptionResult::Disconnect)
    ));
    assert!(matches!(
        ReceptionResult::<Ping>::reception_before_wait(Polled::Empty, false),
        Some(ReceptionResult::Idle)
    ));
    assert!(ReceptionResult::<Ping>::reception_before_wait(Polled::Empty, true).is_none());
}

#[test]
fn test_recv_before_wait() {
    let (mailbox, inbox) = ping_mailbox(Capacity::Unbounded);
    mailbox.send_blocking(Ping(1)).unwrap();
    assert!(inbox.recv_before_wait(true).is_none());
    assert!(matches!(
        inbox.recv_before_wait(false),
        Some(ReceptionResult::Idle)
    ));
    mailbox.send_command_blocking(Command::Pause).unwrap();
    assert!(matches!(
        inbox.recv_before_wait(false),
        Some(ReceptionResult::Command(Command::Pause))
    ));
    assert_eq!(inbox.message_receiver().len(), 1);
    drop(mailbox);
    assert!(matches!(
        inbox.recv_before_wait(true),
        Some(ReceptionResult::Disconnect)
    ));
}

#[test]
fn test_command_queue_has_no_limit() {
    let (mailbox, inbox) = ping_mailbox(Capacity::Bounded(1));
    assert_eq!(mailbox.command_sender().capacity(), None);
    for _ in 0..1_000 {
        mailbox.send_command_blocking(Command::Pause).unwrap();
    }
    for _ in 0..1_000 {
        assert!(matches!(
            inbox.try_recv_msg(false),
            ReceptionResult::Command(Command::Pause)
        ));
    }
    assert!(matches!(inbox.try_recv_msg(false), ReceptionResult::Idle));
}
