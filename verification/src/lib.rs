//! Screen-tint overlay: configuration, opacity synchronisation and the
//! decisions behind the per-monitor overlay windows.

pub mod config;
pub mod controller;
pub mod event_loop;
pub mod json;
pub mod launch;
pub mod render;
pub mod sync;
pub mod window;
