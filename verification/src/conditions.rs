//! One compiled predicate per condition kind.  Every kind follows the same
//! pattern: compile the declarative rule once, then check it against each
//! incoming event.

pub mod charge_blade;
