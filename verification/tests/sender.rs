use mcast_probe::address::Family;
use mcast_probe::error::{Argument, Error};
use mcast_probe::group::resolve_group;
use mcast_probe::params::SendParameters;
use mcast_probe::sender::{Outcome, SendAction, SendSession, MULTICAST_TTL};

fn run_to_the_end(session: &mut SendSession) -> Vec<SendAction> {
    let mut actions = Vec::new();
    loop {
        let action = session.next_action();
        actions.push(action);
        match action {
            SendAction::Finish | SendAction::Abort { .. } => return actions,
            _ => session.record(Outcome::Done),
        }
    }
}

#[test]
fn three_datagrams_of_ten_bytes_a_tenth_of_a_second_apart() {
    let group = resolve_group("239.1.1.1").unwrap();
    let mut session = SendSession::new(group, 5000, 3, 100, 10).unwrap();
    let payload = session.payload();
    assert_eq!(payload.len(), 10);
    let mut lines = Vec::new();
    let mut actions = Vec::new();
    loop {
        let action = session.next_action();
        actions.push(action);
        match action {
            SendAction::Finish => break,
            SendAction::Transmit { .. } => {
                lines.push(session.log_line("12:00:00.000 (+00:00)"));
                session.record(Outcome::Done);
            }
            _ => session.record(Outcome::Done),
        }
    }
    assert_eq!(
        actions,
        vec![
            SendAction::Bind { family: Family::V4, port: 0 },
            SendAction::Transmit { ttl: 255 },
            SendAction::Pause { millis: 100 },
            SendAction::Transmit { ttl: 255 },
            SendAction::Pause { millis: 100 },
            SendAction::Transmit { ttl: 255 },
            SendAction::Finish,
        ]
    );
    assert_eq!(lines.len(), 3);
    for line in lines.iter() {
        assert_eq!(line, "12:00:00.000 (+00:00) : sent 10 byte(s) to 239.1.1.1:5000");
    }
    assert_eq!(session.sent(), 3);
    assert_eq!(session.port(), 5000);
    assert_eq!(session.group(), group);
}

#[test]
fn amount_zero_fails_before_any_step() {
    let group = resolve_group("239.1.1.1").unwrap();
    match SendSession::new(group, 5000, 0, 100, 10) {
        Err(e) => assert_eq!(e, Error::InvalidNumericArgument(Argument::Amount)),
        Ok(_) => panic!("a session for no datagrams"),
    }
}

#[test]
fn unchecked_numbers_open_no_session() {
    let group = resolve_group("ff02::1").unwrap();
    assert_eq!(
        SendSession::new(group, 5000, 1, 0, 10).err(),
        Some(Error::InvalidNumericArgument(Argument::Interval))
    );
    assert_eq!(
        SendSession::new(group, 5000, 1, 1, 0).err(),
        Some(Error::InvalidNumericArgument(Argument::Size))
    );
    assert_eq!(SendSession::new(group, 5000, 1, 1, 65537).err(), Some(Error::PayloadTooLarge));
    assert!(SendSession::new(group, 5000, 1, 1, 65536).is_ok());
}

#[test]
fn a_single_datagram_is_followed_by_no_pause() {
    let group = resolve_group("ff02::1").unwrap();
    let mut session = SendSession::new(group, 7, 1, 1000, 1).unwrap();
    assert_eq!(
        run_to_the_end(&mut session),
        vec![
            SendAction::Bind { family: Family::V6, port: 0 },
            SendAction::Transmit { ttl: MULTICAST_TTL },
            SendAction::Finish,
        ]
    );
}

#[test]
fn every_session_sends_its_amount_with_a_pause_between_two_datagrams() {
    let group = resolve_group("224.0.0.1").unwrap();
    for amount in 1u64..=20 {
        let mut session = SendSession::new(group, 9, amount, 250, 4).unwrap();
        let actions = run_to_the_end(&mut session);
        assert_eq!(actions.len() as u64, 2 * amount + 1);
        assert_eq!(actions[0], SendAction::Bind { family: Family::V4, port: 0 });
        for k in 0..amount as usize {
            assert_eq!(actions[1 + 2 * k], SendAction::Transmit { ttl: 255 });
            if k > 0 {
                assert_eq!(actions[2 * k], SendAction::Pause { millis: 250 });
            }
        }
        assert_eq!(actions[2 * amount as usize], SendAction::Finish);
        let sends = actions.iter().filter(|a| matches!(a, SendAction::Transmit { .. })).count();
        assert_eq!(sends as u64, amount);
        assert_eq!(session.sent(), amount);
        session.record(Outcome::Done);
        session.record(Outcome::Failed);
        assert_eq!(session.next_action(), SendAction::Finish);
        assert_eq!(session.sent(), amount);
    }
}

#[test]
fn a_failed_bind_ends_the_session() {
    let group = resolve_group("239.1.1.1").unwrap();
    let mut session = SendSession::new(group, 5000, 3, 100, 10).unwrap();
    assert_eq!(session.failure_message("nothing yet"), None);
    session.record(Outcome::Failed);
    assert_eq!(session.next_action(), SendAction::Abort { error: Error::BindError });
    assert_eq!(
        session.failure_message("address in use"),
        Some("unable to bind to address & port 0.0.0.0:0: address in use".to_string())
    );
    session.record(Outcome::Done);
    assert_eq!(session.next_action(), SendAction::Abort { error: Error::BindError });
    assert_eq!(session.sent(), 0);
}

#[test]
fn a_failed_send_ends_the_session() {
    let group = resolve_group("ff0e::1:2").unwrap();
    let mut session = SendSession::new(group, 5000, 3, 100, 10).unwrap();
    session.record(Outcome::Done);
    session.record(Outcome::Done);
    session.record(Outcome::Done);
    assert_eq!(session.next_action(), SendAction::Transmit { ttl: 255 });
    session.record(Outcome::Failed);
    assert_eq!(session.next_action(), SendAction::Abort { error: Error::SendError });
    assert_eq!(
        session.failure_message("network unreachable"),
        Some("unable to send packets to [ff0e::1:2]:5000: network unreachable".to_string())
    );
    assert_eq!(session.sent(), 1);
    session.record(Outcome::Done);
    assert_eq!(session.next_action(), SendAction::Abort { error: Error::SendError });
}

#[test]
fn a_session_for_checked_parameters() {
    let group = resolve_group("239.1.1.1").unwrap();
    let parameters = SendParameters::new(2, 30, 300).unwrap();
    let session = SendSession::with_parameters(group, 1234, parameters);
    assert_eq!(session.parameters(), parameters);
    assert_eq!(session.payload().len(), 300);
    assert_eq!(session.payload()[255], 0);
    assert_eq!(session.next_action(), SendAction::Bind { family: Family::V4, port: 0 });
    let line = session.log_line_now();
    assert!(line.ends_with(" : sent 300 byte(s) to 239.1.1.1:1234"));
    assert!(line.len() > " : sent 300 byte(s) to 239.1.1.1:1234".len());
}
