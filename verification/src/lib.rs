//! Verified core of a screenshot and screen-recording tool: MP4 container
//! writing, capture geometry, overlay interaction, configuration handling.

pub mod bytes;
pub mod error;
pub mod recording;
pub mod geometry;
pub mod protocol;
pub mod live_renderer;
pub mod text;
pub mod config;
pub mod state;
pub mod overlay;
pub mod window_detect;
pub mod interaction;
pub mod daemon;
pub mod annotation;
pub mod tray;
pub mod ocr;
pub mod context_menu;
pub mod selection;
pub mod cli;
pub mod messages;
pub mod upload;
pub mod encode;
