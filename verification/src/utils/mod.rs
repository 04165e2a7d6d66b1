//! Normalisers and the wide integers of the records.

pub mod format;
pub mod order;
pub mod time;
pub mod u256;
