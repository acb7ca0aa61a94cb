use mcast_probe::address::IpAddress;
use mcast_probe::cli::{
    action_of, brief, command_from, exit_status, parse_command, read_options, usage_text, Action,
    Command, Ending, OptionValues, EXIT_FAILURE, EXIT_SUCCESS,
};
use mcast_probe::error::{Argument, Error};
use mcast_probe::sender::{Outcome, SendAction, SendSession};

fn words(line: &str) -> Vec<String> {
    line.split_whitespace().map(|w| w.to_string()).collect()
}

fn send_parameters(line: &str) -> (IpAddress, u16, u64, u64, usize) {
    match parse_command(&words(line)) {
        Ok(Command::Send { group, port, parameters }) => (
            group.address(),
            port,
            parameters.amount(),
            parameters.interval(),
            parameters.size(),
        ),
        other => panic!("{:?}: {:?}", line, other),
    }
}

#[test]
fn words_that_name_an_action() {
    assert_eq!(action_of("send"), Some(Action::Send));
    assert_eq!(action_of("s"), Some(Action::Send));
    assert_eq!(action_of("recv"), Some(Action::Recv));
    assert_eq!(action_of("r"), Some(Action::Recv));
    assert_eq!(action_of(""), None);
    assert_eq!(action_of("Send"), None);
    assert_eq!(action_of("receive"), None);
}

#[test]
fn send_with_all_three_options() {
    let group = IpAddress::V4([239, 1, 1, 1]);
    assert_eq!(send_parameters("probe send 239.1.1.1 5000 -a 3 -i 100 -s 10"), (group, 5000, 3, 100, 10));
    assert_eq!(send_parameters("probe s 239.1.1.1 5000 -a3 -i100 -s10"), (group, 5000, 3, 100, 10));
    assert_eq!(
        send_parameters("probe send 239.1.1.1 5000 --amount 3 --interval=100 --size 10"),
        (group, 5000, 3, 100, 10)
    );
    assert_eq!(
        send_parameters("probe send 239.1.1.1 5000 -s 10 stray -a 3 -i 100"),
        (group, 5000, 3, 100, 10)
    );
}

#[test]
fn send_without_options_takes_the_defaults() {
    let group = IpAddress::V6([0xff02, 0, 0, 0, 0, 0, 0, 1]);
    assert_eq!(send_parameters("probe send ff02::1 5000"), (group, 5000, 5, 1000, 1));
    assert_eq!(send_parameters("probe send ff02::1 5000 -i 20"), (group, 5000, 5, 20, 1));
    assert_eq!(send_parameters("probe send ff02::1 5000 -- -a 3"), (group, 5000, 5, 1000, 1));
}

#[test]
fn receive() {
    match parse_command(&words("probe recv 239.1.1.1 5000")) {
        Ok(Command::Receive { group, port }) => {
            assert_eq!(group.address(), IpAddress::V4([239, 1, 1, 1]));
            assert_eq!(port, 5000);
        }
        other => panic!("{:?}", other),
    }
    match parse_command(&words("probe r ff0e::1:2 9 -x")) {
        Ok(Command::Receive { group, port }) => {
            assert_eq!(group.address(), IpAddress::V6([0xff0e, 0, 0, 0, 0, 0, 1, 2]));
            assert_eq!(port, 9);
        }
        other => panic!("{:?}", other),
    }
}

#[test]
fn malformed_invocations_ask_for_the_usage_text() {
    assert_eq!(parse_command(&words("probe")), Ok(Command::Usage));
    assert_eq!(parse_command(&words("probe send")), Ok(Command::Usage));
    assert_eq!(parse_command(&words("probe send 239.1.1.1")), Ok(Command::Usage));
    assert_eq!(parse_command(&words("probe recv 239.1.1.1")), Ok(Command::Usage));
    assert_eq!(parse_command(&words("probe listen 239.1.1.1 5000")), Ok(Command::Usage));
    assert_eq!(parse_command(&words("probe 239.1.1.1 5000 3")), Ok(Command::Usage));
    assert_eq!(parse_command(&words("probe bogus 10.0.0.1 port")), Ok(Command::Usage));
    assert_eq!(parse_command(&words("probe send 239.1.1.1 5000 -x")), Ok(Command::Usage));
    assert_eq!(parse_command(&words("probe send 239.1.1.1 5000 -a")), Ok(Command::Usage));
    assert_eq!(parse_command(&words("probe send 239.1.1.1 5000 -a 1 -a 2")), Ok(Command::Usage));
    assert_eq!(parse_command(&words("probe send 239.1.1.1 5000 --bogus=1")), Ok(Command::Usage));
    assert_eq!(parse_command(&Vec::new()), Ok(Command::Usage));
}

#[test]
fn the_first_failure_decides() {
    assert_eq!(parse_command(&words("probe send 10.0.0.1 5000")), Err(Error::NotMulticast));
    assert_eq!(parse_command(&words("probe recv 10.0.0.1 5000")), Err(Error::NotMulticast));
    assert_eq!(parse_command(&words("probe recv fe80::1 5000")), Err(Error::NotMulticast));
    assert_eq!(parse_command(&words("probe send group 5000")), Err(Error::InvalidAddress));
    assert_eq!(parse_command(&words("probe send group port -x")), Err(Error::InvalidAddress));
    assert_eq!(parse_command(&words("probe send 10.0.0.1 port")), Err(Error::NotMulticast));
    assert_eq!(parse_command(&words("probe send 239.1.1.1 port")), Err(Error::InvalidPort));
    assert_eq!(parse_command(&words("probe recv 239.1.1.1 65536")), Err(Error::InvalidPort));
    assert_eq!(parse_command(&words("probe send 239.1.1.1 port -a 0")), Err(Error::InvalidPort));
    assert_eq!(
        parse_command(&words("probe send 239.1.1.1 5000 -a 0")),
        Err(Error::InvalidNumericArgument(Argument::Amount))
    );
    assert_eq!(
        parse_command(&words("probe send 239.1.1.1 5000 -a=3")),
        Err(Error::InvalidNumericArgument(Argument::Amount))
    );
    assert_eq!(
        parse_command(&words("probe send 239.1.1.1 5000 -i soon")),
        Err(Error::InvalidNumericArgument(Argument::Interval))
    );
    assert_eq!(
        parse_command(&words("probe send 239.1.1.1 5000 -a 0 -s big")),
        Err(Error::InvalidNumericArgument(Argument::Size))
    );
    assert_eq!(
        parse_command(&words("probe send 239.1.1.1 5000 -s 65537")),
        Err(Error::PayloadTooLarge)
    );
}

#[test]
fn options_are_read_among_the_words_after_the_port() {
    let found = read_options(&words("-a 3 --size=10")).unwrap();
    assert_eq!(found.amount, Some("3".to_string()));
    assert_eq!(found.interval, None);
    assert_eq!(found.size, Some("10".to_string()));
    let found = read_options(&words("-ifast free")).unwrap();
    assert_eq!(found.amount, None);
    assert_eq!(found.interval, Some("fast".to_string()));
    assert_eq!(found.size, None);
    let found = read_options(&[]).unwrap();
    assert!(found.amount.is_none() && found.interval.is_none() && found.size.is_none());
    assert!(read_options(&words("-z")).is_none());
    assert!(read_options(&words("-s")).is_none());
    assert!(read_options(&words("-s 1 --size 2")).is_none());
}

#[test]
fn a_command_is_decided_from_the_words_and_the_options_found() {
    let args = words("probe send 239.1.1.1 5000 whatever");
    let values = OptionValues { amount: Some("2".to_string()), interval: None, size: None };
    match command_from(&args, Some(values)) {
        Ok(Command::Send { port, parameters, .. }) => {
            assert_eq!(port, 5000);
            assert_eq!(parameters.amount(), 2);
            assert_eq!(parameters.interval(), 1000);
            assert_eq!(parameters.size(), 1);
        }
        other => panic!("{:?}", other),
    }
    assert_eq!(command_from(&args, None), Ok(Command::Usage));
    let args = words("probe recv 239.1.1.1 5000");
    assert!(matches!(command_from(&args, None), Ok(Command::Receive { port: 5000, .. })));
    let values = OptionValues { amount: Some("x".to_string()), interval: None, size: None };
    assert!(matches!(command_from(&args, Some(values)), Ok(Command::Receive { port: 5000, .. })));
}

#[test]
fn the_brief_shows_both_shapes_of_an_invocation() {
    assert_eq!(
        brief("probe"),
        "usage:  probe send <MCAST IP> <PORT> [options]\n        probe recv <MCAST IP> <PORT>"
    );
}

#[test]
fn the_usage_text_lists_the_options_under_the_brief() {
    let text = usage_text("probe");
    let brief = brief("probe");
    assert_ne!(text, brief);
    assert!(text.starts_with(&format!("{}\n\nOptions:\n", brief)), "{}", text);
    assert!(text.contains("-a, --amount"));
    assert!(text.contains("amount of packets to send (default: 5)"));
    assert!(text.contains("-i, --interval"));
    assert!(text.contains("delay between sent packets in ms (default: 1000 ms)"));
    assert!(text.contains("-s, --size"));
    assert!(text.contains("payload size per packet in bytes (default: 1 byte)"));
    assert!(text.ends_with('\n'));
}

#[test]
fn only_a_run_that_went_well_ends_with_success() {
    assert_eq!(EXIT_SUCCESS, 0);
    assert_ne!(EXIT_FAILURE, 0);
    assert_eq!(exit_status(Ending::Completed), 0);
    assert_eq!(exit_status(Ending::Usage), EXIT_FAILURE);
    assert_eq!(exit_status(Ending::Failed(Error::BindError)), EXIT_FAILURE);
    assert_eq!(exit_status(Ending::Failed(Error::NotMulticast)), EXIT_FAILURE);
}

#[test]
fn a_send_invocation_runs_as_a_session_of_its_numbers() {
    let (group, port, parameters) = match parse_command(&words(
        "probe send 239.1.1.1 5000 -a 3 -i 100 -s 10",
    )) {
        Ok(Command::Send { group, port, parameters }) => (group, port, parameters),
        other => panic!("{:?}", other),
    };
    let mut session = SendSession::with_parameters(group, port, parameters);
    assert_eq!(session.payload(), vec![0, 1, 2, 3, 4, 5, 6, 7, 8, 9]);
    let mut sends = 0;
    let mut pauses = 0;
    loop {
        match session.next_action() {
            SendAction::Transmit { ttl: 255 } => sends += 1,
            SendAction::Pause { millis: 100 } => pauses += 1,
            SendAction::Bind { .. } => {}
            SendAction::Finish => break,
            other => panic!("{:?}", other),
        }
        session.record(Outcome::Done);
    }
    assert_eq!((sends, pauses), (3, 2));
}
