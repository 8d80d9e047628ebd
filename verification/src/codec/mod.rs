//! Packet types and elementary-stream formats.
pub mod annexb;
pub mod avcc;
pub mod nal_data;
pub mod packet;
pub mod rtp;
