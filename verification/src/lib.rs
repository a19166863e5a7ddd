//! Lazy loading of functions that live in split-out binary modules.
//!
//! A split module is fetched on first use by an externally supplied load
//! routine that reports completion through a callback. The loader here
//! records the progress of that single-shot load, lets any number of
//! waiters await the same outcome, and gates a typed call path so that
//! an import can only be invoked once its module has loaded successfully.

pub mod cell;
pub mod error;
pub mod facade;
pub mod future;
pub mod loader;
pub mod state;
