//! Verified decision core of a NAT hole-punch mediator.
//!
//! The mediator coordinates per-transport rendezvous and hole-punch attempts.
//! This crate holds its state machine: every transition takes the outcome of
//! the reactor or transport work that preceded it and returns the list of
//! actions the driver has to perform next.
//!
//! - [`hole_punch`]: the mediator, its handle and the values they exchange
//!   with the driver.
//! - [`model`]: the mediator as a mathematical state machine, which the
//!   contracts of `hole_punch` refer to.
//! - [`laws`]: what is proved of every mediator and every history.
//! - [`error`], [`addr`]: the error type and socket addresses.
//! - [`foreign`]: the reactor's types that are carried through unopened.

pub mod addr;
pub mod error;
pub mod foreign;
pub mod hole_punch;
pub mod laws;
pub mod model;
