//! Verified core of a recorder that drives yt-dlp.
pub mod assets;
pub mod clock;
pub mod command;
pub mod course;
pub mod encoding;
pub mod framing;
pub mod patterns;
pub mod recorder;
pub mod recording;
pub mod status;
pub mod task;
pub mod text;
pub mod views;
pub mod web;
