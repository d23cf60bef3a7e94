//! The rules behind a small audio toolbox: which file may be opened, what a
//! decoded clip must look like, which effect a control stands for, and how
//! long to keep waiting for a sound that is playing.
//!
//! Nothing here touches a sound card, a file or a window. Fractional
//! quantities are held as whole thousandths, so a playback rate of `2.0` is
//! `2_000` and a gain of fifteen decibels is `15_000`.

pub mod buffer;
pub mod effect;
pub mod failure;
pub mod input;
pub mod playback;
pub mod settings;
pub mod units;
