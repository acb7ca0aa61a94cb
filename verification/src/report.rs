//! The lines that a run prints: one for each datagram, and one for each failure.

use vstd::prelude::*;
use crate::address::{address_text, AddressValue, IpAddress};
use crate::clock::timestamp;
use crate::error::{Argument, Error};
use crate::number::{decimal_text, push_decimal};
use crate::text::{push_str, string_of, view_of};

verus! {

/// An address with a port, as a socket address is written: the address, in
/// square brackets where it is of the eight-group family, a colon and the port.
pub open spec fn endpoint_text(address: AddressValue, port: u16) -> Seq<char> {
    match address {
        AddressValue::V4(_) => address_text(address) + ":"@ + decimal_text(port as nat),
        AddressValue::V6(_) => "["@ + address_text(address) + "]:"@ + decimal_text(port as nat),
    }
}

/// Appends an address with a port to `out`.
pub fn push_endpoint(out: &mut Vec<char>, address: &IpAddress, port: u16)
    ensures
        final(out)@ == old(out)@ + endpoint_text(address@, port),
{
    match address {
        IpAddress::V4(_) => {
            address.push_text(out);
            push_str(out, ":");
        },
        IpAddress::V6(_) => {
            push_str(out, "[");
            address.push_text(out);
            push_str(out, "]:");
        },
    }
    push_decimal(out, port as u64);
    assert(final(out)@ =~= old(out)@ + endpoint_text(address@, port));
}

/// An address with a port, as a socket address is written.
pub fn endpoint(address: &IpAddress, port: u16) -> (s: String)
    ensures
        s@ == endpoint_text(address@, port),
{
    let mut out: Vec<char> = Vec::new();
    push_endpoint(&mut out, address, port);
    assert(out@ =~= endpoint_text(address@, port));
    string_of(out.as_slice())
}

/// The line for a datagram that went out.
pub open spec fn sent_text(stamp: Seq<char>, size: nat, group: AddressValue, port: u16) -> Seq<char> {
    stamp + " : sent "@ + decimal_text(size) + " byte(s) to "@ + endpoint_text(group, port)
}

/// The line for a datagram that came in; `source` is the sender's socket address.
pub open spec fn received_text(stamp: Seq<char>, size: nat, source: Seq<char>) -> Seq<char> {
    stamp + " : received "@ + decimal_text(size) + " byte(s) from "@ + source
}

/// The line that reports the group a receiver has joined.
pub open spec fn joined_text(group: AddressValue) -> Seq<char> {
    "Joined multicast group "@ + address_text(group) + " (press ENTER to exit)"@
}

/// The line that reports the local socket address of a receiver.
pub open spec fn listening_text(local: Seq<char>) -> Seq<char> {
    "Listening on socket "@ + local
}

/// What went wrong, in words, for each kind of failure.
pub open spec fn error_text(error: Error) -> Seq<char> {
    match error {
        Error::InvalidAddress => "unable to parse multicast address"@,
        Error::NotMulticast => "specified address isn't a valid multicast address"@,
        Error::InvalidPort => "unable to parse port from string to integer"@,
        Error::InvalidNumericArgument(Argument::Amount) => "amount is no integer above zero"@,
        Error::InvalidNumericArgument(Argument::Interval) => "interval is no integer above zero"@,
        Error::InvalidNumericArgument(Argument::Size) => "size is no integer above zero"@,
        Error::PayloadTooLarge => "size is above the limit of 65536 bytes"@,
        Error::BindError => "unable to bind to address & port"@,
        Error::JoinGroupError => "unable to join multicast group"@,
        Error::LeaveGroupError => "unable to leave multicast group"@,
        Error::SendError => "unable to send packets to"@,
        Error::ReceiveError => "got error while receiving from socket"@,
    }
}

/// The diagnostic of a failed socket operation: what went wrong, on which address
/// where the operation has one, and the reason that the system gave.
pub open spec fn diagnostic_text(error: Error, subject: Option<Seq<char>>, detail: Seq<char>) -> Seq<
    char,
> {
    match subject {
        Some(s) => error_text(error) + " "@ + s + ": "@ + detail,
        None => error_text(error) + ": "@ + detail,
    }
}

/// What went wrong, in words.
pub fn describe(error: Error) -> (s: String)
    ensures
        s@ == error_text(error),
{
    let text = match error {
        Error::InvalidAddress => "unable to parse multicast address",
        Error::NotMulticast => "specified address isn't a valid multicast address",
        Error::InvalidPort => "unable to parse port from string to integer",
        Error::InvalidNumericArgument(Argument::Amount) => "amount is no integer above zero",
        Error::InvalidNumericArgument(Argument::Interval) => "interval is no integer above zero",
        Error::InvalidNumericArgument(Argument::Size) => "size is no integer above zero",
        Error::PayloadTooLarge => "size is above the limit of 65536 bytes",
        Error::BindError => "unable to bind to address & port",
        Error::JoinGroupError => "unable to join multicast group",
        Error::LeaveGroupError => "unable to leave multicast group",
        Error::SendError => "unable to send packets to",
        Error::ReceiveError => "got error while receiving from socket",
    };
    text.to_owned()
}

/// The line for a datagram of `size` bytes that went out to `group` at `port`.
pub fn sent_line(stamp: &str, size: usize, group: &IpAddress, port: u16) -> (s: String)
    ensures
        s@ == sent_text(stamp@, size as nat, group@, port),
{
    let mut out: Vec<char> = Vec::new();
    push_str(&mut out, stamp);
    push_str(&mut out, " : sent ");
    push_decimal(&mut out, size as u64);
    push_str(&mut out, " byte(s) to ");
    push_endpoint(&mut out, group, port);
    assert(out@ =~= sent_text(stamp@, size as nat, group@, port));
    string_of(out.as_slice())
}

/// The line for a datagram of `size` bytes that came in from `source`.
pub fn received_line(stamp: &str, size: usize, source: &str) -> (s: String)
    ensures
        s@ == received_text(stamp@, size as nat, source@),
{
    let mut out: Vec<char> = Vec::new();
    push_str(&mut out, stamp);
    push_str(&mut out, " : received ");
    push_decimal(&mut out, size as u64);
    push_str(&mut out, " byte(s) from ");
    push_str(&mut out, source);
    assert(out@ =~= received_text(stamp@, size as nat, source@));
    string_of(out.as_slice())
}

/// The line that reports the group a receiver has joined.
pub fn joined_line(group: &IpAddress) -> (s: String)
    ensures
        s@ == joined_text(group@),
{
    let mut out: Vec<char> = Vec::new();
    push_str(&mut out, "Joined multicast group ");
    group.push_text(&mut out);
    push_str(&mut out, " (press ENTER to exit)");
    assert(out@ =~= joined_text(group@));
    string_of(out.as_slice())
}

/// The line that reports the local socket address of a receiver.
pub fn listening_line(local: &str) -> (s: String)
    ensures
        s@ == listening_text(local@),
{
    let mut out: Vec<char> = Vec::new();
    push_str(&mut out, "Listening on socket ");
    push_str(&mut out, local);
    assert(out@ =~= listening_text(local@));
    string_of(out.as_slice())
}

/// The diagnostic of a failed socket operation.
pub fn diagnostic(error: Error, subject: Option<&str>, detail: &str) -> (s: String)
    ensures
        s@ == diagnostic_text(error, view_of(subject), detail@),
{
    let what = describe(error);
    let mut out: Vec<char> = Vec::new();
    push_str(&mut out, what.as_str());
    match subject {
        Some(subject) => {
            push_str(&mut out, " ");
            push_str(&mut out, subject);
        },
        None => {},
    }
    push_str(&mut out, ": ");
    push_str(&mut out, detail);
    assert(out@ =~= diagnostic_text(error, view_of(subject), detail@));
    string_of(out.as_slice())
}

/// The line for a datagram that goes out now: `sent_line` under the time stamp
/// of this moment, whatever that is.
pub fn sent_line_now(size: usize, group: &IpAddress, port: u16) -> (s: String)
    ensures
        exists|stamp: Seq<char>| s@ == sent_text(stamp, size as nat, group@, port),
{
    let stamp = timestamp();
    sent_line(stamp.as_str(), size, group, port)
}

/// The line for a datagram that comes in now: `received_line` under the time
/// stamp of this moment, whatever that is.
pub fn received_line_now(size: usize, source: &str) -> (s: String)
    ensures
        exists|stamp: Seq<char>| s@ == received_text(stamp, size as nat, source@),
{
    let stamp = timestamp();
    received_line(stamp.as_str(), size, source)
}

} // verus!
