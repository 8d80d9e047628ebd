//! The media layer: what is decided around the codec library.
pub mod ids;
pub mod packet;
pub mod resources;
pub mod rtp_buffer;
pub mod status;
pub mod stream;
