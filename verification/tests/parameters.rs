use mcast_probe::error::{Argument, Error};
use mcast_probe::params::{
    SendParameters, DEFAULT_AMOUNT, DEFAULT_INTERVAL, DEFAULT_SIZE, MAX_SIZE,
};
use mcast_probe::payload::{build_payload, payload_of_size};

#[test]
fn limits_and_defaults() {
    assert_eq!(MAX_SIZE, 65536);
    assert_eq!(DEFAULT_AMOUNT, 5);
    assert_eq!(DEFAULT_INTERVAL, 1000);
    assert_eq!(DEFAULT_SIZE, 1);
    let defaults = SendParameters::default();
    assert_eq!((defaults.amount(), defaults.interval(), defaults.size()), (5, 1000, 1));
    assert_eq!(SendParameters::from_text(None, None, None), Ok(defaults));
}

#[test]
fn parameters_in_range_are_kept_as_given() {
    let p = SendParameters::new(3, 100, 10).unwrap();
    assert_eq!((p.amount(), p.interval(), p.size()), (3, 100, 10));
    let p = SendParameters::new(u64::MAX, u64::MAX, MAX_SIZE).unwrap();
    assert_eq!((p.amount(), p.interval(), p.size()), (u64::MAX, u64::MAX, 65536));
    assert!(SendParameters::new(1, 1, 1).is_ok());
}

#[test]
fn zero_is_refused_for_each_argument_in_turn() {
    assert_eq!(SendParameters::new(0, 100, 10), Err(Error::InvalidNumericArgument(Argument::Amount)));
    assert_eq!(SendParameters::new(3, 0, 10), Err(Error::InvalidNumericArgument(Argument::Interval)));
    assert_eq!(SendParameters::new(3, 100, 0), Err(Error::InvalidNumericArgument(Argument::Size)));
    assert_eq!(SendParameters::new(0, 0, 0), Err(Error::InvalidNumericArgument(Argument::Amount)));
    assert_eq!(SendParameters::new(3, 0, 0), Err(Error::InvalidNumericArgument(Argument::Interval)));
    assert_eq!(SendParameters::new(0, 1, 65537), Err(Error::InvalidNumericArgument(Argument::Amount)));
}

#[test]
fn size_above_the_limit_is_too_large() {
    assert_eq!(SendParameters::new(3, 100, 65537), Err(Error::PayloadTooLarge));
    assert_eq!(SendParameters::new(3, 100, usize::MAX), Err(Error::PayloadTooLarge));
}

#[test]
fn parameters_are_read_from_text() {
    let p = SendParameters::from_text(Some("3"), Some("100"), Some("10")).unwrap();
    assert_eq!((p.amount(), p.interval(), p.size()), (3, 100, 10));
    let p = SendParameters::from_text(Some("7"), None, None).unwrap();
    assert_eq!((p.amount(), p.interval(), p.size()), (7, 1000, 1));
    let p = SendParameters::from_text(None, Some("+20"), Some("065536")).unwrap();
    assert_eq!((p.amount(), p.interval(), p.size()), (5, 20, 65536));
}

#[test]
fn text_that_is_no_number_is_refused_before_any_number_is_checked() {
    let amount = Err(Error::InvalidNumericArgument(Argument::Amount));
    let interval = Err(Error::InvalidNumericArgument(Argument::Interval));
    let size = Err(Error::InvalidNumericArgument(Argument::Size));
    assert_eq!(SendParameters::from_text(Some("three"), None, None), amount);
    assert_eq!(SendParameters::from_text(Some(""), None, None), amount);
    assert_eq!(SendParameters::from_text(Some("-3"), None, None), amount);
    assert_eq!(SendParameters::from_text(Some("=3"), None, None), amount);
    assert_eq!(SendParameters::from_text(Some("18446744073709551616"), None, None), amount);
    assert_eq!(SendParameters::from_text(None, Some("1.5"), None), interval);
    assert_eq!(SendParameters::from_text(None, None, Some("1k")), size);
    assert_eq!(SendParameters::from_text(Some("0"), None, Some("x")), size);
    assert_eq!(SendParameters::from_text(Some("0"), Some("y"), Some("x")), interval);
    assert_eq!(SendParameters::from_text(Some("0"), None, None), amount);
    assert_eq!(SendParameters::from_text(None, Some("0"), None), interval);
    assert_eq!(SendParameters::from_text(None, None, Some("0")), size);
    assert_eq!(SendParameters::from_text(None, None, Some("65537")), Err(Error::PayloadTooLarge));
}

#[test]
fn payload_has_the_size_asked_for_and_counts_modulo_255() {
    let data = payload_of_size(10).unwrap();
    assert_eq!(data, vec![0, 1, 2, 3, 4, 5, 6, 7, 8, 9]);
    let data = payload_of_size(600).unwrap();
    assert_eq!(data.len(), 600);
    assert_eq!(data[254], 254);
    assert_eq!(data[255], 0);
    assert_eq!(data[256], 1);
    assert_eq!(data[509], 254);
    assert_eq!(data[510], 0);
    assert_eq!(data[599], 89);
}

#[test]
fn every_size_in_range_gives_a_payload_of_that_size() {
    for size in [1usize, 2, 254, 255, 256, 1500, 65535, 65536] {
        let data = payload_of_size(size).unwrap();
        assert_eq!(data.len(), size);
        assert!(data.iter().enumerate().all(|(i, b)| *b as usize == i % 255));
        let parameters = SendParameters::new(1, 1, size).unwrap();
        assert_eq!(build_payload(&parameters), data);
    }
}

#[test]
fn no_payload_of_size_zero_or_above_the_limit() {
    assert_eq!(payload_of_size(0), Err(Error::InvalidNumericArgument(Argument::Size)));
    assert_eq!(payload_of_size(65537), Err(Error::PayloadTooLarge));
    assert_eq!(payload_of_size(usize::MAX), Err(Error::PayloadTooLarge));
}
