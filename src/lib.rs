//! Connection lifecycle for a single named wireless peripheral: adapter
//! choice, name matching, characteristic lookup, notification decoding,
//! teardown bookkeeping and the stage-by-stage controller that ties them.
pub mod error;
pub mod matching;
pub mod text;
pub mod notification;
pub mod config;
pub mod state;
pub mod lifecycle;
