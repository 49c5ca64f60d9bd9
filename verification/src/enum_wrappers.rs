//! Enumerations of the native library, as types of their own.

pub mod device;
