use quickwit_actors::actor::supervise;
use quickwit_actors::ActorTermination;
use quickwit_actors::KillSwitch;
use quickwit_actors::MessageProcessError;
use quickwit_actors::Progress;
use quickwit_actors::SendError;

#[test]
fn test_kill_switch() {
    let kill_switch = KillSwitch::default();
    assert_eq!(kill_switch.is_alive(), true);
    kill_switch.kill();
    assert_eq!(kill_switch.is_alive(), false);
    kill_switch.kill();
    assert_eq!(kill_switch.is_alive(), false);
}

#[test]
fn test_kill_switch_is_shared_by_clones() {
    let kill_switch = KillSwitch::default();
    let clone = kill_switch.clone();
    assert!(clone.is_alive());
    kill_switch.kill();
    assert!(!clone.is_alive());
    assert!(!clone.clone().is_alive());
}

#[test]
fn test_progress_starts_unchanged() {
    let progress = Progress::default();
    assert!(!progress.has_changed());
}

#[test]
fn test_progress_record_and_reset() {
    let progress = Progress::default();
    let seen_by_supervisor = progress.clone();
    progress.record_progress();
    assert!(seen_by_supervisor.has_changed());
    seen_by_supervisor.reset();
    assert!(!progress.has_changed());
    progress.record_progress();
    progress.record_progress();
    assert!(seen_by_supervisor.has_changed());
}

#[test]
fn test_termination_is_failure() {
    assert!(!ActorTermination::Terminated.is_failure());
    assert!(!ActorTermination::OnDemand.is_failure());
    assert!(!ActorTermination::KillSwitch.is_failure());
    assert!(ActorTermination::DownstreamClosed.is_failure());
    assert!(ActorTermination::Failure(anyhow::Error::msg("boom")).is_failure());
}

#[test]
fn test_send_error_becomes_downstream_closed() {
    assert!(matches!(
        ActorTermination::from(SendError),
        ActorTermination::DownstreamClosed
    ));
    assert!(matches!(
        MessageProcessError::from(SendError),
        MessageProcessError::DownstreamClosed
    ));
}

#[test]
fn test_message_process_error_conversions() {
    assert!(matches!(
        MessageProcessError::from(anyhow::Error::msg("boom")),
        MessageProcessError::Error(_)
    ));
    assert!(matches!(
        ActorTermination::from(MessageProcessError::OnDemand),
        ActorTermination::OnDemand
    ));
    assert!(matches!(
        ActorTermination::from(MessageProcessError::DownstreamClosed),
        ActorTermination::DownstreamClosed
    ));
    match ActorTermination::from(MessageProcessError::Error(anyhow::Error::msg("boom"))) {
        ActorTermination::Failure(cause) => assert_eq!(cause.to_string(), "boom"),
        _ => panic!("a handler's error is a failure"),
    }
}

#[test]
fn test_message_process_error_messages() {
    assert_eq!(MessageProcessError::OnDemand.message(), "On Demand");
    assert_eq!(
        MessageProcessError::DownstreamClosed.message(),
        "Downstream actor closed connection"
    );
    assert_eq!(
        MessageProcessError::Error(anyhow::Error::msg("boom")).message(),
        "Failure"
    );
}

#[test]
fn test_supervisor_kills_a_stuck_actor() {
    let progress = Progress::default();
    let kill_switch = KillSwitch::default();
    progress.record_progress();
    assert!(supervise(&progress, &kill_switch));
    assert!(kill_switch.is_alive());
    assert!(!progress.has_changed());
    progress.record_progress();
    assert!(supervise(&progress, &kill_switch));
    assert!(kill_switch.is_alive());
    assert!(!supervise(&progress, &kill_switch));
    assert!(!kill_switch.is_alive());
    progress.record_progress();
    assert!(supervise(&progress, &kill_switch));
    assert!(!kill_switch.is_alive());
}
