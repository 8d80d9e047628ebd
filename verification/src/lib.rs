//! Live-streaming media library: packet formats, container framing, HLS
//! segmentation and the pipeline rules around them.
use vstd::prelude::*;

pub mod bits;
pub mod buffer;
pub mod channel;
pub mod codec;
pub mod config;
pub mod deferred;
pub mod engine;
pub mod factory;
pub mod flv;
pub mod frame_flow;
pub mod graph;
pub mod hls;
pub mod media;
pub mod otel;
pub mod pad;
pub mod rtp_depack;
pub mod sanitize;
pub mod seq_cache;
pub mod task;
pub mod telemetry;
pub mod text;
pub mod time;
pub mod traits;
pub mod transcode;
pub mod types;
pub mod upload;

verus! {

} // verus!
