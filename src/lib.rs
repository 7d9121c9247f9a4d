//! Edit engine for an interactive rebase instruction list: the plan model,
//! a grapheme-aware edit buffer, a viewport scroller, a render buffer and the
//! screen state machine that ties them together.
pub mod action;
pub mod application;
pub mod confirm_rebase;
pub mod edit_buffer;
pub mod line;
pub mod plan;
pub mod scroll;
pub mod state;
pub mod view;
