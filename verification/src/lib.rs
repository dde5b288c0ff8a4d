//! Decision logic of a chat bridge that forwards typed text to VRChat's chatbox over OSC,
//! with a local IPC channel that shows, hides or toggles the input window.

pub mod cli;
pub mod ipc;
pub mod osc;
pub mod ui;
