//! Decision logic of a media downloader: progress arithmetic, the relay of
//! progress values into UI-visible state, the download lifecycle, and the
//! persisted preferences.
pub mod lifecycle;
pub mod preferences;
pub mod progress;
