//! Counting aggregate over Arrow columns, with one counter per group.

pub mod error;
pub mod scalar;
pub mod columnar;
pub mod accumulator;
pub mod aggregate;
pub mod laws;
