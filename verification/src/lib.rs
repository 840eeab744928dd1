//! Platform facts, the titlebar button's decisions and the browser clipboard
//! of a Freya application, with their contracts.

pub mod platform;
pub mod titlebar;
pub mod clipboard;
