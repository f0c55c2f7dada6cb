//! Durable application settings: where they live on each platform, and the
//! in-memory store that decides what is loaded, replaced and handed out for
//! saving. Reading and writing the file itself is left to the caller.

pub mod path;
pub mod settings;
pub mod settings_manager;
