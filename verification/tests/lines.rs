use mcast_probe::address::{Family, IpAddress};
use mcast_probe::binder::{bind_endpoint, bind_failure, ANY_PORT};
use mcast_probe::clock::timestamp;
use mcast_probe::error::{Argument, Error};
use mcast_probe::report::{
    describe, diagnostic, endpoint, joined_line, listening_line, received_line,
    received_line_now, sent_line, sent_line_now,
};

#[test]
fn endpoints_are_written_as_socket_addresses() {
    assert_eq!(endpoint(&IpAddress::V4([239, 1, 1, 1]), 5000), "239.1.1.1:5000");
    assert_eq!(endpoint(&IpAddress::V6([0xff02, 0, 0, 0, 0, 0, 0, 1]), 5000), "[ff02::1]:5000");
    assert_eq!(endpoint(&IpAddress::V4([0, 0, 0, 0]), 0), "0.0.0.0:0");
    assert_eq!(endpoint(&IpAddress::V6([0; 8]), 65535), "[::]:65535");
}

#[test]
fn a_socket_is_bound_to_the_unspecified_address_of_the_family() {
    assert_eq!(ANY_PORT, 0);
    assert_eq!(IpAddress::unspecified(Family::V4), IpAddress::V4([0; 4]));
    assert_eq!(IpAddress::unspecified(Family::V6), IpAddress::V6([0; 8]));
    assert_eq!(bind_endpoint(Family::V4, 0), "0.0.0.0:0");
    assert_eq!(bind_endpoint(Family::V6, 0), "[::]:0");
    assert_eq!(bind_endpoint(Family::V4, 5000), "0.0.0.0:5000");
    assert_eq!(bind_endpoint(Family::V6, 5000), "[::]:5000");
    assert_eq!(
        bind_failure(Family::V4, 5000, "address in use"),
        "unable to bind to address & port 0.0.0.0:5000: address in use"
    );
}

#[test]
fn log_lines() {
    assert_eq!(
        sent_line("10:11:12.123 (+02:00)", 10, &IpAddress::V4([239, 1, 1, 1]), 5000),
        "10:11:12.123 (+02:00) : sent 10 byte(s) to 239.1.1.1:5000"
    );
    assert_eq!(
        sent_line("T", 65536, &IpAddress::V6([0xff0e, 0, 0, 0, 0, 0, 1, 2]), 1),
        "T : sent 65536 byte(s) to [ff0e::1:2]:1"
    );
    assert_eq!(
        received_line("10:11:12.123 (+02:00)", 10, "192.168.1.7:40000"),
        "10:11:12.123 (+02:00) : received 10 byte(s) from 192.168.1.7:40000"
    );
    assert_eq!(
        joined_line(&IpAddress::V6([0xff02, 0, 0, 0, 0, 0, 0, 1])),
        "Joined multicast group ff02::1 (press ENTER to exit)"
    );
    assert_eq!(listening_line("0.0.0.0:5000"), "Listening on socket 0.0.0.0:5000");
}

#[test]
fn the_time_stamp_is_the_time_of_day_with_the_offset() {
    let stamp = timestamp();
    assert_ne!(stamp, "%H:%M:%S%.3f (%Z)");
    let chars: Vec<char> = stamp.chars().collect();
    assert!(chars.len() == 21 || chars.len() == 24, "{}", stamp);
    let number = |at: usize| -> u32 {
        chars[at].to_digit(10).unwrap() * 10 + chars[at + 1].to_digit(10).unwrap()
    };
    assert!(number(0) <= 23, "{}", stamp);
    assert_eq!(chars[2], ':');
    assert!(number(3) <= 59, "{}", stamp);
    assert_eq!(chars[5], ':');
    assert!(number(6) <= 60, "{}", stamp);
    assert_eq!(chars[8], '.');
    assert!(chars[9..12].iter().all(|c| c.is_ascii_digit()));
    assert_eq!(chars[12], ' ');
    assert_eq!(chars[13], '(');
    assert!(chars[14] == '+' || chars[14] == '-', "{}", stamp);
    assert!(number(15) <= 23, "{}", stamp);
    assert_eq!(chars[17], ':');
    assert!(number(18) <= 59, "{}", stamp);
    if chars.len() == 24 {
        assert_eq!(chars[20], ':');
        assert!(number(21) <= 59, "{}", stamp);
    }
    assert_eq!(chars[chars.len() - 1], ')');
}

#[test]
fn lines_of_this_moment_end_as_the_lines_under_a_given_stamp() {
    let line = sent_line_now(10, &IpAddress::V4([239, 1, 1, 1]), 5000);
    assert!(line.ends_with(") : sent 10 byte(s) to 239.1.1.1:5000"), "{}", line);
    let line = received_line_now(7, "[fe80::1]:9");
    assert!(line.ends_with(") : received 7 byte(s) from [fe80::1]:9"), "{}", line);
}

#[test]
fn every_failure_has_its_words() {
    assert_eq!(describe(Error::InvalidAddress), "unable to parse multicast address");
    assert_eq!(describe(Error::NotMulticast), "specified address isn't a valid multicast address");
    assert_eq!(describe(Error::InvalidPort), "unable to parse port from string to integer");
    assert_eq!(
        describe(Error::InvalidNumericArgument(Argument::Amount)),
        "amount is no integer above zero"
    );
    assert_eq!(
        describe(Error::InvalidNumericArgument(Argument::Interval)),
        "interval is no integer above zero"
    );
    assert_eq!(
        describe(Error::InvalidNumericArgument(Argument::Size)),
        "size is no integer above zero"
    );
    assert_eq!(describe(Error::PayloadTooLarge), "size is above the limit of 65536 bytes");
    assert_eq!(describe(Error::BindError), "unable to bind to address & port");
    assert_eq!(describe(Error::JoinGroupError), "unable to join multicast group");
    assert_eq!(describe(Error::LeaveGroupError), "unable to leave multicast group");
    assert_eq!(describe(Error::SendError), "unable to send packets to");
    assert_eq!(describe(Error::ReceiveError), "got error while receiving from socket");
}

#[test]
fn diagnostics_name_the_operation_the_address_and_the_reason() {
    assert_eq!(
        diagnostic(Error::ReceiveError, None, "connection refused"),
        "got error while receiving from socket: connection refused"
    );
    assert_eq!(
        diagnostic(Error::SendError, Some("239.1.1.1:5000"), "network unreachable"),
        "unable to send packets to 239.1.1.1:5000: network unreachable"
    );
}
