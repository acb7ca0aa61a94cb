//! The numbers of a send session: how many datagrams, how far apart, how large.

use vstd::prelude::*;
use crate::error::{Argument, Error};
use crate::number::{parse_unsigned, unsigned_of_text};
use crate::text::{chars_of, view_of};

verus! {

/// The largest payload, in bytes: the size of the buffer that a receiver reads into.
pub const MAX_SIZE: usize = 65536;

/// The number of datagrams sent where none is asked for.
pub const DEFAULT_AMOUNT: u64 = 5;

/// The pause between datagrams, in milliseconds, where none is asked for.
pub const DEFAULT_INTERVAL: u64 = 1000;

/// The payload size, in bytes, where none is asked for.
pub const DEFAULT_SIZE: usize = 1;

/// The mathematical value of checked send parameters.
pub struct ParametersValue {
    pub amount: nat,
    pub interval: nat,
    pub size: nat,
}

/// Send parameters that have passed the check: all three are above zero and the
/// size is at most `MAX_SIZE`.
#[derive(Clone, Copy, Debug, PartialEq, Eq)]
pub struct SendParameters {
    amount: u64,
    interval: u64,
    size: usize,
}

impl View for SendParameters {
    type V = ParametersValue;

    closed spec fn view(&self) -> ParametersValue {
        ParametersValue {
            amount: self.amount as nat,
            interval: self.interval as nat,
            size: self.size as nat,
        }
    }
}

/// The check on the three numbers, in the order in which it is made: none may be
/// zero, and the size may not be above `MAX_SIZE`.
pub open spec fn checked_parameters(amount: nat, interval: nat, size: nat) -> Result<
    ParametersValue,
    Error,
> {
    if amount == 0 {
        Err(Error::InvalidNumericArgument(Argument::Amount))
    } else if interval == 0 {
        Err(Error::InvalidNumericArgument(Argument::Interval))
    } else if size == 0 {
        Err(Error::InvalidNumericArgument(Argument::Size))
    } else if size > MAX_SIZE {
        Err(Error::PayloadTooLarge)
    } else {
        Ok(ParametersValue { amount, interval, size })
    }
}

/// The number that an argument text writes, or the default where there is no
/// text; nothing where the text writes no number of at most `max`.
pub open spec fn number_or_default(text: Option<Seq<char>>, default: nat, max: nat) -> Option<nat> {
    match text {
        None => Some(default),
        Some(s) => unsigned_of_text(s, max),
    }
}

/// What the three argument texts mean. Each is read as an unsigned number of its
/// type, amount first; a missing text stands for the default. Only when all three
/// are numbers are they checked.
pub open spec fn parameters_of_text(
    amount: Option<Seq<char>>,
    interval: Option<Seq<char>>,
    size: Option<Seq<char>>,
) -> Result<ParametersValue, Error> {
    match number_or_default(amount, DEFAULT_AMOUNT as nat, u64::MAX as nat) {
        None => Err(Error::InvalidNumericArgument(Argument::Amount)),
        Some(a) => match number_or_default(interval, DEFAULT_INTERVAL as nat, u64::MAX as nat) {
            None => Err(Error::InvalidNumericArgument(Argument::Interval)),
            Some(i) => match number_or_default(size, DEFAULT_SIZE as nat, usize::MAX as nat) {
                None => Err(Error::InvalidNumericArgument(Argument::Size)),
                Some(s) => checked_parameters(a, i, s),
            },
        },
    }
}

/// Whether checked parameters are what a check owes: the same numbers, or the
/// same failure.
pub open spec fn parameters_as(
    r: Result<SendParameters, Error>,
    expected: Result<ParametersValue, Error>,
) -> bool {
    match expected {
        Ok(v) => r is Ok && r->Ok_0@ == v,
        Err(e) => r == Err::<SendParameters, Error>(e),
    }
}

/// Reads one argument text, or takes the default.
fn read_number(text: Option<&str>, default: u64, max: u64) -> (r: Option<u64>)
    ensures
        match r {
            Some(v) => number_or_default(view_of(text), default as nat, max as nat) == Some(v as nat),
            None => number_or_default(view_of(text), default as nat, max as nat) is None,
        },
{
    match text {
        None => Some(default),
        Some(s) => {
            let chars = chars_of(s);
            parse_unsigned(chars.as_slice(), max)
        },
    }
}

impl SendParameters {
    #[verifier::type_invariant]
    spec fn in_range(self) -> bool {
        &&& self.amount > 0
        &&& self.interval > 0
        &&& 0 < self.size <= MAX_SIZE
    }

    /// Checks the three numbers.
    pub fn new(amount: u64, interval: u64, size: usize) -> (r: Result<SendParameters, Error>)
        ensures
            parameters_as(r, checked_parameters(amount as nat, interval as nat, size as nat)),
    {
        if amount == 0 {
            Err(Error::InvalidNumericArgument(Argument::Amount))
        } else if interval == 0 {
            Err(Error::InvalidNumericArgument(Argument::Interval))
        } else if size == 0 {
            Err(Error::InvalidNumericArgument(Argument::Size))
        } else if size > MAX_SIZE {
            Err(Error::PayloadTooLarge)
        } else {
            Ok(SendParameters { amount, interval, size })
        }
    }

    /// Reads and checks the three argument texts; a missing one stands for its
    /// default.
    pub fn from_text(amount: Option<&str>, interval: Option<&str>, size: Option<&str>) -> (r:
        Result<SendParameters, Error>)
        ensures
            parameters_as(
                r,
                parameters_of_text(view_of(amount), view_of(interval), view_of(size)),
            ),
    {
        let a = match read_number(amount, DEFAULT_AMOUNT, u64::MAX) {
            Some(v) => v,
            None => {
                return Err(Error::InvalidNumericArgument(Argument::Amount));
            },
        };
        let i = match read_number(interval, DEFAULT_INTERVAL, u64::MAX) {
            Some(v) => v,
            None => {
                return Err(Error::InvalidNumericArgument(Argument::Interval));
            },
        };
        let s = match read_number(size, DEFAULT_SIZE as u64, usize::MAX as u64) {
            Some(v) => v,
            None => {
                return Err(Error::InvalidNumericArgument(Argument::Size));
            },
        };
        SendParameters::new(a, i, s as usize)
    }

    /// The number of datagrams to send, which is at least one.
    pub fn amount(&self) -> (n: u64)
        ensures
            n == self@.amount,
            n >= 1,
    {
        proof {
            use_type_invariant(self);
        }
        self.amount
    }

    /// The pause between two datagrams in milliseconds, which is at least one.
    pub fn interval(&self) -> (n: u64)
        ensures
            n == self@.interval,
            n >= 1,
    {
        proof {
            use_type_invariant(self);
        }
        self.interval
    }

    /// The payload size in bytes, from 1 to `MAX_SIZE`.
    pub fn size(&self) -> (n: usize)
        ensures
            n == self@.size,
            1 <= n <= MAX_SIZE,
    {
        proof {
            use_type_invariant(self);
        }
        self.size
    }
}

impl Default for SendParameters {
    /// Five datagrams of one byte, a second apart.
    fn default() -> (r: SendParameters)
        ensures
            r@ == (ParametersValue {
                amount: DEFAULT_AMOUNT as nat,
                interval: DEFAULT_INTERVAL as nat,
                size: DEFAULT_SIZE as nat,
            }),
    {
        SendParameters { amount: DEFAULT_AMOUNT, interval: DEFAULT_INTERVAL, size: DEFAULT_SIZE }
    }
}

} // verus!
