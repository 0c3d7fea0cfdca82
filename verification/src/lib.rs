//! Decision logic of a desktop-monitoring agent: what to name the files it
//! writes, what to send to the vision model and how to read its reply, how the
//! audio recorder rotates its segments, and what the capture loop does next.
//!
//! Nothing here touches the screen, the microphone, the network or the disk.
//! The caller performs those effects and hands their plain results in.

pub mod audio;
pub mod describe;
pub mod encoding;
pub mod microphone;
pub mod naming;
pub mod schedule;
pub mod settings;
pub mod text;
pub mod window;
