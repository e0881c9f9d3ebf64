//! Block-device integrity checking: a deterministic keyed byte stream is
//! written across a device's full capacity and read back, so that any byte the
//! device failed to store faithfully is found and located exactly.

pub mod device;
pub mod engine;
pub mod hexcode;
pub mod run;
pub mod seed;
pub mod stream;
