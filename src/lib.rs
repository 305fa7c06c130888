//! Decision engine of a chat bot that answers meme-like messages, either with a
//! media file drawn from an asset pool or with a fixed line of text.

pub mod assets;
pub mod chance;
pub mod classify;
pub mod config;
pub mod policy;
