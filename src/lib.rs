//! Scanning and task-orchestration core of a key-value store browser.
//!
//! The engine decides; the caller performs the store requests that it asks
//! for and hands the replies back.
pub mod text;
pub mod value;
pub mod decode;
pub mod keys;
pub mod server;
pub mod laws;
pub mod app_state;
pub mod tree;
pub mod key_tree_view;
