//! Command bridge and window-lifecycle controller for a desktop host shell.
//!
//! The rendered UI layer reaches host functionality only through the
//! [`dispatcher::Dispatcher`], which resolves a named command against the
//! [`registry::CommandRegistry`] and answers every request with exactly one
//! response. The [`window::WindowController`] owns the single main window and
//! its geometry constraints, and [`lifecycle::Application`] drives the startup
//! and shutdown order.

pub mod error;
pub mod value;
pub mod registry;
pub mod commands;
pub mod dispatcher;
pub mod window;
pub mod lifecycle;
