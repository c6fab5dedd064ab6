//! Verified core of the PowerVoice voice-over editor's command layer: error and notice shapes,
//! marker naming, save-format rules, recording windows, job gating and events, housekeeping,
//! and the other decisions the editor's commands make before and after they hand work to the
//! audio engine and the session store.

pub mod devices;
pub mod document;
pub mod dto;
pub mod error;
pub mod events;
pub mod files;
pub mod format;
pub mod housekeeping;
pub mod jobs;
pub mod markers;
pub mod open;
pub mod order;
pub mod record;
pub mod recovery;
pub mod save;
pub mod settings;
pub mod text;
