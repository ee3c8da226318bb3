//! The backends that ship with the library.

pub mod cpal;
pub mod native;
pub mod ring;
