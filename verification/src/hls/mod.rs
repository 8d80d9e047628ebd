//! HLS: segment names, playlists and segmentation.
pub mod flow;
pub mod names;
pub mod playlist;
pub mod recording;
pub mod segmenter;
