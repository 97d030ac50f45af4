//! Decision logic of a USB hotplug notifier.
//!
//! The crate turns hotplug events into the actions a desktop session takes
//! for them: a diagnostic report, a notification rendered from a message
//! template, and a sound. It performs no input or output itself; callers feed
//! it plain values and carry out what it returns.

pub mod attributes;
pub mod config;
pub mod device;
pub mod dispatch;
pub mod monitor;
pub mod paths;
pub mod report;
pub mod sound;
pub mod template;
pub mod text;
