use mcast_probe::address::Family;
use mcast_probe::error::Error;
use mcast_probe::group::resolve_group;
use mcast_probe::receiver::{
    worker_action, Reading, ReceiveAction, ReceiveSession, WorkerAction, DEFAULT_LISTEN_PORT,
    RECEIVE_BUFFER_SIZE,
};
use mcast_probe::sender::Outcome;

#[test]
fn a_receiver_binds_joins_listens_and_leaves() {
    let group = resolve_group("239.1.1.1").unwrap();
    let mut session = ReceiveSession::new(group, Some(5000));
    assert_eq!(session.next_action(), ReceiveAction::Bind { family: Family::V4, port: 5000 });
    session.record(Outcome::Done);
    assert_eq!(session.next_action(), ReceiveAction::Join);
    session.record(Outcome::Done);
    assert_eq!(session.next_action(), ReceiveAction::Listen);
    assert_eq!(session.joined_line(), "Joined multicast group 239.1.1.1 (press ENTER to exit)");
    session.record(Outcome::Done);
    assert_eq!(session.next_action(), ReceiveAction::Leave);
    session.record(Outcome::Done);
    assert_eq!(session.next_action(), ReceiveAction::Finish);
    session.record(Outcome::Done);
    session.record(Outcome::Failed);
    assert_eq!(session.next_action(), ReceiveAction::Finish);
    assert_eq!(session.failure_message("none"), None);
    assert_eq!(session.group(), group);
    assert_eq!(session.port(), 5000);
}

#[test]
fn a_receiver_without_a_port_listens_on_the_default_port() {
    let group = resolve_group("ff02::1").unwrap();
    let session = ReceiveSession::new(group, None);
    assert_eq!(DEFAULT_LISTEN_PORT, 5000);
    assert_eq!(session.port(), DEFAULT_LISTEN_PORT);
    assert_eq!(
        session.next_action(),
        ReceiveAction::Bind { family: Family::V6, port: DEFAULT_LISTEN_PORT }
    );
}

#[test]
fn the_group_is_left_however_the_wait_for_input_ends() {
    let group = resolve_group("239.1.1.1").unwrap();
    let mut session = ReceiveSession::new(group, Some(1));
    session.record(Outcome::Done);
    session.record(Outcome::Done);
    session.record(Outcome::Failed);
    assert_eq!(session.next_action(), ReceiveAction::Leave);
}

#[test]
fn each_failed_step_of_a_receiver_has_its_own_error() {
    let group = resolve_group("ff02::1").unwrap();

    let mut session = ReceiveSession::new(group, Some(5000));
    session.record(Outcome::Failed);
    assert_eq!(session.next_action(), ReceiveAction::Abort { error: Error::BindError });
    assert_eq!(
        session.failure_message("permission denied"),
        Some("unable to bind to address & port [::]:5000: permission denied".to_string())
    );
    session.record(Outcome::Done);
    assert_eq!(session.next_action(), ReceiveAction::Abort { error: Error::BindError });

    let mut session = ReceiveSession::new(group, Some(5000));
    session.record(Outcome::Done);
    session.record(Outcome::Failed);
    assert_eq!(session.next_action(), ReceiveAction::Abort { error: Error::JoinGroupError });
    assert_eq!(
        session.failure_message("no such device"),
        Some("unable to join multicast group [ff02::1]:5000: no such device".to_string())
    );

    let mut session = ReceiveSession::new(group, Some(5000));
    session.record(Outcome::Done);
    session.record(Outcome::Done);
    session.record(Outcome::Done);
    session.record(Outcome::Failed);
    assert_eq!(session.next_action(), ReceiveAction::Abort { error: Error::LeaveGroupError });
    assert_eq!(
        session.failure_message("bad descriptor"),
        Some("unable to leave multicast group ff02::1: bad descriptor".to_string())
    );
}

#[test]
fn the_worker_logs_datagrams_and_stops_on_an_empty_one() {
    assert_eq!(RECEIVE_BUFFER_SIZE, 65536);
    assert_eq!(worker_action(Reading::Datagram { size: 10 }), WorkerAction::Log { size: 10 });
    assert_eq!(worker_action(Reading::Datagram { size: 1 }), WorkerAction::Log { size: 1 });
    assert_eq!(
        worker_action(Reading::Datagram { size: 65536 }),
        WorkerAction::Log { size: 65536 }
    );
    assert_eq!(worker_action(Reading::Datagram { size: 0 }), WorkerAction::Stop);
    assert_eq!(
        worker_action(Reading::Failed),
        WorkerAction::Abort { error: Error::ReceiveError }
    );
}
