//! Frame composition and resource binding for a small real-time renderer,
//! stated over plain values so that every decision can be proved.

pub mod buffer;
pub mod command;
pub mod data;
pub mod depth;
pub mod event;
pub mod keys;
pub mod layout;
pub mod light;
pub mod recorder;
pub mod registry;
pub mod render;
pub mod screenshot;
pub mod state;
pub mod surface;
pub mod vertex;
