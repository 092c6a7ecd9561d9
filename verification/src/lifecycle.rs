//! Shared hide/exit controller.
//!
//! One `Lifecycle` handle is cloned into every exit path (ESC key, window
//! close, Ctrl+C, tray "Quit"). Clones share one flag, so a shutdown requested
//! through any clone is seen through all of them.
use std::sync::atomic::{AtomicBool, Ordering};
use std::sync::Arc;
use vstd::prelude::*;

verus! {

/// Shared lifecycle controller for application hide/exit management.
///
/// The flag lives behind an `Arc`, so it can change between two reads (another
/// thread may request shutdown); no contract here says what a read returns.
#[derive(Clone)]
pub struct Lifecycle {
    flag: Arc<AtomicBool>,
}

impl Lifecycle {
    /// A controller in the running state.
    pub fn new() -> (l: Self) {
        Lifecycle { flag: Arc::new(AtomicBool::new(false)) }
    }

    /// Requests a graceful shutdown; safe to call from any thread.
    pub fn request_shutdown(&self) {
        self.flag.store(true, Ordering::SeqCst);
    }

    /// Whether a shutdown has been requested through any clone.
    pub fn is_shutdown_requested(&self) -> (r: bool) {
        self.flag.load(Ordering::SeqCst)
    }
}

impl Default for Lifecycle {
    fn default() -> (l: Self) {
        Lifecycle::new()
    }
}

} // verus!
