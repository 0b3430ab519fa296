//! Verified core of a small video-capture viewer: the decisions and
//! formatting rules of the viewer, separated from the Windows calls that
//! feed them.

pub mod app;
pub mod guid_names;
pub mod text;
pub mod media;
pub mod window;
pub mod selection;
pub mod string_attribute;
pub mod hotkey;
pub mod cli;
