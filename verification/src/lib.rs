//! A hardware abstraction layer for video capture: a portable pixel-format
//! vocabulary with its native-code translation, and a bridge that turns a
//! backend's push-style frame delivery into a blocking pull interface.

pub mod bridge;
pub mod pixel_format;
