//! Batch PNG optimisation: the per-file record and its display row, the
//! worker's decisions and the message protocol, and the display state that
//! the messages drive.
pub mod display;
pub mod item;
pub mod laws;
pub mod options;
pub mod protocol;
pub mod size;
