//! The typed values that operations return.

pub mod device;
