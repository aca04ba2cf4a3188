//! Disclosed-baseline benchmark harness for gossipsub at large message sizes:
//! the verified core (configuration, topology, link model, statistics).
use vstd::prelude::*;

pub mod config;
pub mod error;
pub mod report;
pub mod rng;
pub mod runner;
pub mod shaping;
pub mod text;
pub mod topology;

verus! {
} // verus!
