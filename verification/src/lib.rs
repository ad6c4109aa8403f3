//! A small engine that decides, per game-state event, whether a user-defined
//! trigger condition fires.
//!
//! A condition is written in a declarative comparison language ([`configs`]),
//! compiled once into a reusable predicate, and then checked against every
//! incoming event.

pub mod conditions;
pub mod configs;
pub mod registry;
pub mod triggers;
