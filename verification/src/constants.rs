//! Constants shared with the cartridge.

use vstd::prelude::*;

verus! {

/// Value of the magic byte sequence used to identify vr-enabled cartridges;
/// its 16 bytes in big-endian order spell `omgVRonPICO8!Wow`.
pub const MAGIC: u128 = 0x6F6D6756526F6E5049434F3821576F77;

/// 60 Hz.
pub const FRAME_DURATION_MS: i64 = 16;

/// 1 Hz between attempts to connect to the runtime.
pub const SCAN_INTERVAL_MS: i64 = 1000;

/// Bytes per transform in the transform buffer.
pub const VR_VERT_STRIDE: usize = 8;

/// Bytes of the transform buffer in upper memory.
pub const VR_VERT_BUFFER_SIZE: usize = 16384;

/// Number of transforms the buffer holds.
pub const VR_MAX_VERTS: usize = VR_VERT_BUFFER_SIZE / VR_VERT_STRIDE;

/// Bytes per transform in the transform buffer.
pub const VR_TRANS_STRIDE: usize = VR_VERT_STRIDE;

/// Bytes of the transform buffer in upper memory.
pub const VR_TRANSBUFFER_SIZE: usize = VR_VERT_BUFFER_SIZE;

/// Number of transforms the buffer holds.
pub const VR_MAX_TRANSFORMS: usize = VR_MAX_VERTS;

/// Address of the GPIO area in PICO-8 memory.
pub const P8_GPIO: usize = 0x5f80;

/// Address of upper memory in PICO-8 memory.
pub const P8_UPPER: usize = 0x8000;

} // verus!
