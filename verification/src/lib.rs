//! A transparent TCP forwarding relay, modelled and verified as a pair of
//! unidirectional copy state machines.
//!
//! The library holds the decision logic of the relay: what a copy loop does
//! with each read result, how a connection pair is set up and torn down, and
//! how the listener reacts to accept and connect failures. The blocking
//! socket calls themselves live outside the library and drive these state
//! machines.

pub mod config;
pub mod copier;
pub mod listener;
pub mod pair;
