//! The bytes that a send session transmits.

use vstd::prelude::*;
use crate::error::{Argument, Error};
use crate::params::{SendParameters, MAX_SIZE};

verus! {

/// The payload of a given size: the byte at position `i` is `i` modulo 255.
pub open spec fn payload_bytes(size: nat) -> Seq<u8> {
    Seq::new(size, |i: int| (i % 255) as u8)
}

/// Fills a fresh buffer of `size` bytes with the pattern.
fn fill(size: usize) -> (data: Vec<u8>)
    ensures
        data@ == payload_bytes(size as nat),
{
    let mut data: Vec<u8> = Vec::with_capacity(size);
    for i in 0..size
        invariant
            data@ == payload_bytes(i as nat),
    {
        data.push((i % 255) as u8);
        assert(data@ =~= payload_bytes((i + 1) as nat));
    }
    data
}

/// The payload for checked parameters. It has exactly the size they ask for.
pub fn build_payload(parameters: &SendParameters) -> (data: Vec<u8>)
    ensures
        data@ == payload_bytes(parameters@.size),
        data@.len() == parameters@.size,
        1 <= data@.len() <= MAX_SIZE,
{
    fill(parameters.size())
}

/// The payload of a given size. Every size from 1 to `MAX_SIZE` gives a buffer of
/// exactly that size; size zero and sizes above `MAX_SIZE` give none, and the
/// failure says which of the two it was.
pub fn payload_of_size(size: usize) -> (r: Result<Vec<u8>, Error>)
    ensures
        match r {
            Ok(data) => 1 <= size <= MAX_SIZE && data@ == payload_bytes(size as nat) && data@.len()
                == size,
            Err(e) => if size == 0 {
                e == Error::InvalidNumericArgument(Argument::Size)
            } else {
                size > MAX_SIZE && e == Error::PayloadTooLarge
            },
        },
{
    if size == 0 {
        Err(Error::InvalidNumericArgument(Argument::Size))
    } else if size > MAX_SIZE {
        Err(Error::PayloadTooLarge)
    } else {
        Ok(fill(size))
    }
}

} // verus!
