//! Planning and validation for a multicast connectivity probe.
//!
//! The probe either joins a multicast group and reports every datagram that
//! arrives, or sends a run of datagrams to a group. This library decides; it
//! opens no socket and never sleeps. It resolves the group and the port from
//! text, checks the numbers of a send session, builds the payload, and says step
//! by step what a sender or a receiver has to do next and what it has to print.
//! The program around it performs the steps and reports how each one ended.
//!
//! - `address`, `address_laws`, `group`: addresses, their text, and the resolver.
//! - `params`, `payload`: the numbers of a send session and its bytes.
//! - `sender`, `receiver`, `binder`: the two sessions, step by step.
//! - `report`, `clock`: the lines that a run prints.
//! - `cli`, `options`: the command line.
//! - `text`, `number`, `error`: what the others share.

pub mod address;
pub mod address_laws;
pub mod binder;
pub mod cli;
pub mod clock;
pub mod error;
pub mod group;
pub mod number;
pub mod options;
pub mod params;
pub mod payload;
pub mod receiver;
pub mod report;
pub mod sender;
pub mod text;
