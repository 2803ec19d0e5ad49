//! Core engine of a terminal checkbox-list editor: the document model, the
//! modal edit-session state machine, cursor-aware text input, bounded
//! undo/redo history, incremental search filtering, inline-markup word
//! wrapping, and viewport scrolling, with machine-checked contracts.

pub mod edit;
pub mod handlers;
pub mod history;
pub mod keys;
pub mod markdown;
pub mod model;
pub mod render;
pub mod search;
pub mod session;
pub mod storage;
pub mod strutil;
pub mod text_input;
pub mod width;
