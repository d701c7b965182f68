//! Screen-recording support: the MP4 container writer, GIF frame
//! preparation, frame composition and the pipeline arithmetic.

pub mod annexb;
pub mod boxes;
pub mod mp4_muxer;
pub mod pipeline;
pub mod gif_frames;
pub mod neuquant;
pub mod gif_stream;
pub mod composite;
