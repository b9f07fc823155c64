//! Protocol logic of the vr.p8 helper: the byte layouts shared with a
//! PICO-8 cartridge, the decoding of its transform buffer into triangles,
//! and the decisions of the helper's connect-and-sync loop.

pub mod bytes;
pub mod error;
pub mod magic;
pub mod constants;
pub mod renderer;
pub mod transform;
pub mod input;
pub mod helper;
pub mod memory_map;
