//! FLV tags: types, muxing and demuxing.
pub mod mapping;
pub mod mux;
pub mod nesting;
pub mod packetizer;
pub mod script;
pub mod sink;
pub mod tag;
