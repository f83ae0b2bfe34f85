//! Verified logic of a DualSense-to-keyboard mapper.
//!
//! The crate holds everything the mapper decides or computes: decoding of evdev
//! events, key mapping, dictation, calibration and the text of the status
//! screen. Devices, sockets, the terminal and floating-point signal processing
//! belong to the program around it.

pub mod calibration;
pub mod calibration_laws;
pub mod cli;
pub mod clipboard;
pub mod clipboard_laws;
pub mod codes;
pub mod device;
pub mod device_laws;
pub mod focus;
pub mod focus_laws;
pub mod input;
pub mod input_laws;
pub mod json;
pub mod keyboard;
pub mod keyboard_laws;
pub mod keymap;
pub mod light;
pub mod microphone;
pub mod outputs;
pub mod paths;
pub mod screen;
pub mod screen_laws;
pub mod session;
pub mod session_laws;
pub mod state;
pub mod state_laws;
pub mod tables;
pub mod text;
pub mod text_input;
pub mod text_input_laws;
pub mod text_laws;
pub mod tui;
pub mod voice;
