//! Logic analyser core speaking the SUMP serial protocol.
pub mod arbiter;
pub mod meta;
pub mod protocol;
pub mod sampler;
