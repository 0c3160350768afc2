//! The lifecycle operations: creation, deposit, withdrawal, and closure.

pub mod initialize;
pub mod deposit;
pub mod withdraw;
pub mod close;
