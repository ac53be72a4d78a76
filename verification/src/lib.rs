//! Core of a terminal browser for a remote object store: the page-stack
//! navigation state machine, the event model, and the preview renderer
//! (line splitting, width-aware wrapping, scrolling, save dialog).

pub mod error;
pub mod event;
pub mod object;
pub mod pages;
pub mod util;
pub mod widget;
