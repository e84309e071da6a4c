//! Decision logic of a small real-time rendering host: buffer layouts,
//! surface sizing, frame planning and event routing, with proved contracts.

pub mod buffers;
pub mod bytes;
pub mod frame;
pub mod geometry;
pub mod grid;
pub mod input;
pub mod layout;
pub mod pipeline;
pub mod state;
pub mod surface;
