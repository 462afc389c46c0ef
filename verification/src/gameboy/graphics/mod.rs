//! The pixel processing unit.

pub mod gpu;
pub mod lcd;
pub mod tile;
