//! Core of a minimal self-updater: the download protocol as a state machine,
//! the progress cell it shares with a render loop, and the fixed strings the
//! updater shows. The surrounding process (HTTP transfer, file writes, the
//! window) performs each action the machine asks for and feeds the result
//! back as an event; everything the machine decides is verified here.

pub mod downloader;
pub mod progress;
pub mod trace;
