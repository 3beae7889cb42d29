//! Media acquisition for a chat bot: reading what the extraction tools print,
//! choosing among download backends, and fitting files under a size budget.
pub mod json;
pub mod number;
pub mod utils;
pub mod types;
pub mod metadata;
pub mod downloader;
pub mod gallery_dl;
pub mod ytdlp;
pub mod media;
pub mod resize;
pub mod config;
pub mod chat;
