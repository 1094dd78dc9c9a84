//! Control core of a status-tray application that keeps a configuration
//! engine, a tray menu and a re-apply timer in step.
//!
//! The core performs no input or output of its own. A driver owns the engine
//! and the operating-system binding, asks the [`controller::Controller`] what
//! to do next, does it, and reports how it went.

pub mod text;
pub mod error;
pub mod codec;
pub mod engine;
pub mod apply;
pub mod tray;
pub mod command;
pub mod dispatch;
pub mod controller;
pub mod trace;
pub mod order;
pub mod menu;
