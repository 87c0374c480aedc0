//! Clipboard change-detection and deduplication core.
//!
//! The library watches a stream of clipboard readings, canonicalizes and
//! fingerprints their content, suppresses echoes of the application's own
//! writes, and decides for each tick whether to insert a new history entry,
//! resurface an existing one, or skip.

pub mod fingerprint;
pub mod laws;
pub mod sample;
pub mod settings;
pub mod store;
pub mod watch;
