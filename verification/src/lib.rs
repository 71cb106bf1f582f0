//! Core engine of a terminal typing trainer.
//!
//! The library owns the typing-session state machine: the rolling window of
//! target lines, the cursor and error marks within the current line, the
//! incremental correctness check for each keystroke, and the metrics
//! formulas (words per minute, accuracy, remaining time) that a periodic
//! clock reports while the user types. Terminal input and drawing are left
//! to the surrounding program, which feeds abstract key events in and takes
//! abstract render instructions out.

pub mod menu;
pub mod metrics;
pub mod session;
pub mod types;
pub mod words;
