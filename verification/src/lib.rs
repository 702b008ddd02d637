//! Decision logic of a desktop voice-input tool for Qwen3-ASR: where the
//! model directory is found, how the recording / transcription state machine
//! answers clicks, key presses and the results of capture and recognition,
//! what the window shows, and the small decisions of the command line.
//!
//! Every executable function here carries its contract and its proof; the
//! audio capture, the recogniser, the clipboard, keyboard injection and the
//! window live in the application around this crate and talk to it in plain
//! values.

pub mod model_dir;
pub mod voice_input;
pub mod view;
pub mod cli;
pub mod laws;
pub mod decision_laws;
