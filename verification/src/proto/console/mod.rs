//! Console protocols.

pub mod edid;
pub mod graphics;
pub mod ptr;
pub mod serial;
pub mod text;
