//! The controller and headset block that the helper shares with the
//! cartridge at the start of PICO-8's GPIO area.
//!
//! Layout (little-endian, 52 bytes):
//! byte 0 unused; byte 1 buttons; bytes 2..6 left/right trigger and grip;
//! bytes 6..14 the two sticks (x, y as `i16`); bytes 14, 15 left/right rumble;
//! bytes 16..52 the poses of the headset, the left and the right controller,
//! each as x, y, z, yaw, pitch, roll (`i16`).

use vstd::prelude::*;
use crate::bytes::{i16_from_le, i16_to_le, le_i16, i16_le_bytes, i16_lo, i16_hi};

verus! {

/// Length in bytes of the GPIO block.
pub const GPIO_BLOCK_LEN: usize = 52;

/// Gamepad informational flags.
#[derive(Clone, Copy, Debug, PartialEq, Eq, Structural)]
pub struct ControllerFlags {
    pub bits: u8,
}

impl ControllerFlags {
    /// This gamepad is connected (bit 0).
    pub fn connected() -> (r: ControllerFlags)
        ensures
            r.bits == 1,
    {
        ControllerFlags { bits: 1 }
    }

    /// This controller supports vibration (bit 1).
    pub fn has_rumble() -> (r: ControllerFlags)
        ensures
            r.bits == 2,
    {
        ControllerFlags { bits: 2 }
    }

    /// The set of no flags.
    pub fn empty() -> (r: ControllerFlags)
        ensures
            r.bits == 0,
    {
        ControllerFlags { bits: 0 }
    }

    /// Whether every flag of `other` is set in `self`.
    pub fn contains(&self, other: ControllerFlags) -> (r: bool)
        ensures
            r == (self.bits & other.bits == other.bits),
    {
        self.bits & other.bits == other.bits
    }

    /// Sets every flag of `other`.
    pub fn insert(&mut self, other: ControllerFlags)
        ensures
            final(self).bits == old(self).bits | other.bits,
    {
        self.bits = self.bits | other.bits;
    }
}

/// The bit of the `i`-th button of a, b, x, y, left stick, right stick,
/// left menu, right menu (bit 0 first).
pub open spec fn button_mask(i: int) -> u8 {
    if i == 0 {
        1
    } else if i == 1 {
        2
    } else if i == 2 {
        4
    } else if i == 3 {
        8
    } else if i == 4 {
        16
    } else if i == 5 {
        32
    } else if i == 6 {
        64
    } else {
        128
    }
}

/// Flags indicating which buttons are currently pressed: bit `i` is the
/// `i`-th of a, b, x, y, left stick, right stick, left menu, right menu.
#[derive(Clone, Copy, Debug, PartialEq, Eq, Structural)]
pub struct ControllerButtons {
    pub bits: u8,
}

impl ControllerButtons {
    /// The a button (bit 0).
    pub fn a() -> (r: ControllerButtons)
        ensures
            r.bits == 1,
            r.bits == button_mask(0),
    {
        ControllerButtons { bits: 1 }
    }

    /// The b button (bit 1).
    pub fn b() -> (r: ControllerButtons)
        ensures
            r.bits == 2,
            r.bits == button_mask(1),
    {
        ControllerButtons { bits: 2 }
    }

    /// The x button (bit 2).
    pub fn x() -> (r: ControllerButtons)
        ensures
            r.bits == 4,
            r.bits == button_mask(2),
    {
        ControllerButtons { bits: 4 }
    }

    /// The y button (bit 3).
    pub fn y() -> (r: ControllerButtons)
        ensures
            r.bits == 8,
            r.bits == button_mask(3),
    {
        ControllerButtons { bits: 8 }
    }

    /// The left stick button (bit 4).
    pub fn left_stick() -> (r: ControllerButtons)
        ensures
            r.bits == 16,
            r.bits == button_mask(4),
    {
        ControllerButtons { bits: 16 }
    }

    /// The right stick button (bit 5).
    pub fn right_stick() -> (r: ControllerButtons)
        ensures
            r.bits == 32,
            r.bits == button_mask(5),
    {
        ControllerButtons { bits: 32 }
    }

    /// The left menu button (bit 6).
    pub fn left_menu() -> (r: ControllerButtons)
        ensures
            r.bits == 64,
            r.bits == button_mask(6),
    {
        ControllerButtons { bits: 64 }
    }

    /// The right menu button (bit 7).
    pub fn right_menu() -> (r: ControllerButtons)
        ensures
            r.bits == 128,
            r.bits == button_mask(7),
    {
        ControllerButtons { bits: 128 }
    }

    /// No button pressed.
    pub fn empty() -> (r: ControllerButtons)
        ensures
            r.bits == 0,
    {
        ControllerButtons { bits: 0 }
    }

    /// Whether every button of `other` is pressed in `self`.
    pub fn contains(&self, other: ControllerButtons) -> (r: bool)
        ensures
            r == (self.bits & other.bits == other.bits),
    {
        self.bits & other.bits == other.bits
    }

    /// Marks every button of `other` as pressed.
    pub fn insert(&mut self, other: ControllerButtons)
        ensures
            final(self).bits == old(self).bits | other.bits,
    {
        self.bits = self.bits | other.bits;
    }

    /// Marks every button of `other` as released.
    pub fn remove(&mut self, other: ControllerButtons)
        ensures
            final(self).bits == old(self).bits & !other.bits,
    {
        self.bits = self.bits & !other.bits;
    }
}

/// After pressing the buttons of `other`, all of them are pressed, and
/// every button pressed before still is.
pub proof fn lemma_insert_presses(before: ControllerButtons, other: ControllerButtons)
    ensures
        ({
            let after = ControllerButtons { bits: before.bits | other.bits };
            &&& after.bits & other.bits == other.bits
            &&& after.bits & before.bits == before.bits
        }),
{
    let (a, b) = (before.bits, other.bits);
    assert((a | b) & b == b && (a | b) & a == a) by (bit_vector);
}

/// After releasing the buttons of `other`, none of them is pressed, and
/// every other button is as it was.
pub proof fn lemma_remove_releases(before: ControllerButtons, other: ControllerButtons)
    ensures
        ({
            let after = ControllerButtons { bits: before.bits & !other.bits };
            &&& after.bits & other.bits == 0
            &&& after.bits & !other.bits == before.bits & !other.bits
        }),
{
    let (a, b) = (before.bits, other.bits);
    assert((a & !b) & b == 0 && (a & !b) & !b == a & !b) by (bit_vector);
}

/// The buttons byte of the GPIO block (byte 1) has bit `i` set exactly when
/// the `i`-th button (a, b, x, y, left stick, right stick, left menu, right
/// menu) is pressed in the interface.
pub proof fn lemma_buttons_byte(h: HMDInterface, i: int)
    requires
        0 <= i < 8,
    ensures
        (h.spec_gpio()[1] & button_mask(i) != 0) <==> (h.buttons.bits & button_mask(i) != 0),
        (h.spec_gpio()[1] & button_mask(i) != 0) <==> ((h.spec_gpio()[1] >> i as u8) & 1u8 == 1u8),
{
    lemma_gpio_layout(h);
    let b = h.spec_gpio()[1];
    assert(b & 1 != 0 <==> (b >> 0u8) & 1 == 1) by (bit_vector);
    assert(b & 2 != 0 <==> (b >> 1u8) & 1 == 1) by (bit_vector);
    assert(b & 4 != 0 <==> (b >> 2u8) & 1 == 1) by (bit_vector);
    assert(b & 8 != 0 <==> (b >> 3u8) & 1 == 1) by (bit_vector);
    assert(b & 16 != 0 <==> (b >> 4u8) & 1 == 1) by (bit_vector);
    assert(b & 32 != 0 <==> (b >> 5u8) & 1 == 1) by (bit_vector);
    assert(b & 64 != 0 <==> (b >> 6u8) & 1 == 1) by (bit_vector);
    assert(b & 128 != 0 <==> (b >> 7u8) & 1 == 1) by (bit_vector);
}

/// Structure representing the headset and its controllers to the cartridge.
/// All fields are written to the cartridge except the rumble fields, which
/// the cartridge writes. Positions are in cm.
#[derive(Clone, Copy, Debug, PartialEq, Eq, Structural)]
pub struct HMDInterface {
    pub buttons: ControllerButtons,
    pub left_trigger: u8,
    pub right_trigger: u8,
    pub left_grip: u8,
    pub right_grip: u8,
    pub left_stick_x: i16,
    pub left_stick_y: i16,
    pub right_stick_x: i16,
    pub right_stick_y: i16,
    /// Output from the cartridge.
    pub left_rumble: u8,
    pub right_rumble: u8,
    pub hmd_x: i16,
    pub hmd_y: i16,
    pub hmd_z: i16,
    pub hmd_yaw: i16,
    pub hmd_pitch: i16,
    pub hmd_roll: i16,
    pub left_x: i16,
    pub left_y: i16,
    pub left_z: i16,
    pub left_yaw: i16,
    pub left_pitch: i16,
    pub left_roll: i16,
    pub right_x: i16,
    pub right_y: i16,
    pub right_z: i16,
    pub right_yaw: i16,
    pub right_pitch: i16,
    pub right_roll: i16,
}

/// There is only one headset.
pub type HMDInterfaceArray = [HMDInterface; 1];

/// The `i16` stored little-endian at `off` and `off + 1` of `b`.
pub open spec fn i16_at(b: Seq<u8>, off: int) -> i16 {
    le_i16(b[off], b[off + 1]) as i16
}

impl HMDInterface {
    /// The interface with every field zero and no button pressed.
    pub open spec fn spec_zero() -> HMDInterface {
        HMDInterface {
            buttons: ControllerButtons { bits: 0 },
            left_trigger: 0,
            right_trigger: 0,
            left_grip: 0,
            right_grip: 0,
            left_stick_x: 0,
            left_stick_y: 0,
            right_stick_x: 0,
            right_stick_y: 0,
            left_rumble: 0,
            right_rumble: 0,
            hmd_x: 0,
            hmd_y: 0,
            hmd_z: 0,
            hmd_yaw: 0,
            hmd_pitch: 0,
            hmd_roll: 0,
            left_x: 0,
            left_y: 0,
            left_z: 0,
            left_yaw: 0,
            left_pitch: 0,
            left_roll: 0,
            right_x: 0,
            right_y: 0,
            right_z: 0,
            right_yaw: 0,
            right_pitch: 0,
            right_roll: 0,
        }
    }

    /// The 52 bytes of the GPIO block that hold this interface.
    pub open spec fn spec_gpio(self) -> Seq<u8> {
        seq![0u8, self.buttons.bits, self.left_trigger, self.right_trigger, self.left_grip, self.right_grip]
            + i16_le_bytes(self.left_stick_x)
            + i16_le_bytes(self.left_stick_y)
            + i16_le_bytes(self.right_stick_x)
            + i16_le_bytes(self.right_stick_y)
            + seq![self.left_rumble, self.right_rumble]
            + i16_le_bytes(self.hmd_x)
            + i16_le_bytes(self.hmd_y)
            + i16_le_bytes(self.hmd_z)
            + i16_le_bytes(self.hmd_yaw)
            + i16_le_bytes(self.hmd_pitch)
            + i16_le_bytes(self.hmd_roll)
            + i16_le_bytes(self.left_x)
            + i16_le_bytes(self.left_y)
            + i16_le_bytes(self.left_z)
            + i16_le_bytes(self.left_yaw)
            + i16_le_bytes(self.left_pitch)
            + i16_le_bytes(self.left_roll)
            + i16_le_bytes(self.right_x)
            + i16_le_bytes(self.right_y)
            + i16_le_bytes(self.right_z)
            + i16_le_bytes(self.right_yaw)
            + i16_le_bytes(self.right_pitch)
            + i16_le_bytes(self.right_roll)
    }

    /// The interface that a 52-byte GPIO block holds.
    pub open spec fn spec_from_gpio(b: Seq<u8>) -> HMDInterface {
        HMDInterface {
            buttons: ControllerButtons { bits: b[1] },
            left_trigger: b[2],
            right_trigger: b[3],
            left_grip: b[4],
            right_grip: b[5],
            left_rumble: b[14],
            right_rumble: b[15],
            left_stick_x: i16_at(b, 6),
            left_stick_y: i16_at(b, 8),
            right_stick_x: i16_at(b, 10),
            right_stick_y: i16_at(b, 12),
            hmd_x: i16_at(b, 16),
            hmd_y: i16_at(b, 18),
            hmd_z: i16_at(b, 20),
            hmd_yaw: i16_at(b, 22),
            hmd_pitch: i16_at(b, 24),
            hmd_roll: i16_at(b, 26),
            left_x: i16_at(b, 28),
            left_y: i16_at(b, 30),
            left_z: i16_at(b, 32),
            left_yaw: i16_at(b, 34),
            left_pitch: i16_at(b, 36),
            left_roll: i16_at(b, 38),
            right_x: i16_at(b, 40),
            right_y: i16_at(b, 42),
            right_z: i16_at(b, 44),
            right_yaw: i16_at(b, 46),
            right_pitch: i16_at(b, 48),
            right_roll: i16_at(b, 50),
        }
    }

    /// This interface with the fixed device poses that the helper reports
    /// until real tracking is wired in.
    pub open spec fn spec_with_placeholder_poses(self) -> HMDInterface {
        HMDInterface {
            hmd_x: 0,
            hmd_y: 150,
            hmd_z: 0,
            hmd_yaw: 0,
            hmd_pitch: 0,
            hmd_roll: 0,
            left_x: -10i16,
            left_y: 80,
            left_z: -5i16,
            left_yaw: -360i16,
            left_pitch: 360,
            left_roll: 0,
            right_x: 10,
            right_y: 80,
            right_z: -5i16,
            right_yaw: 360,
            right_pitch: 360,
            right_roll: 0,
            ..self
        }
    }

    /// Writes the fixed device poses: the headset at 150 cm height, the
    /// left and right controllers at 80 cm height, 10 cm to either side.
    pub fn apply_placeholder_poses(&mut self)
        ensures
            *final(self) == old(self).spec_with_placeholder_poses(),
    {
        self.hmd_x = 0;
        self.hmd_y = 150;
        self.hmd_z = 0;
        self.hmd_yaw = 0;
        self.hmd_pitch = 0;
        self.hmd_roll = 0;
        self.left_x = -10;
        self.left_y = 80;
        self.left_z = -5;
        self.left_yaw = -360;
        self.left_pitch = 360;
        self.left_roll = 0;
        self.right_x = 10;
        self.right_y = 80;
        self.right_z = -5;
        self.right_yaw = 360;
        self.right_pitch = 360;
        self.right_roll = 0;
    }

    /// Encodes this interface as the 52-byte GPIO block.
    pub fn to_gpio_bytes(&self) -> (r: Vec<u8>)
        ensures
            r@ == self.spec_gpio(),
    {
        let mut v: Vec<u8> = Vec::new();
        v.push(0u8);
        v.push(self.buttons.bits);
        v.push(self.left_trigger);
        v.push(self.right_trigger);
        v.push(self.left_grip);
        v.push(self.right_grip);
        push_i16(&mut v, self.left_stick_x);
        push_i16(&mut v, self.left_stick_y);
        push_i16(&mut v, self.right_stick_x);
        push_i16(&mut v, self.right_stick_y);
        v.push(self.left_rumble);
        v.push(self.right_rumble);
        push_i16(&mut v, self.hmd_x);
        push_i16(&mut v, self.hmd_y);
        push_i16(&mut v, self.hmd_z);
        push_i16(&mut v, self.hmd_yaw);
        push_i16(&mut v, self.hmd_pitch);
        push_i16(&mut v, self.hmd_roll);
        push_i16(&mut v, self.left_x);
        push_i16(&mut v, self.left_y);
        push_i16(&mut v, self.left_z);
        push_i16(&mut v, self.left_yaw);
        push_i16(&mut v, self.left_pitch);
        push_i16(&mut v, self.left_roll);
        push_i16(&mut v, self.right_x);
        push_i16(&mut v, self.right_y);
        push_i16(&mut v, self.right_z);
        push_i16(&mut v, self.right_yaw);
        push_i16(&mut v, self.right_pitch);
        push_i16(&mut v, self.right_roll);
        assert(v@ =~= self.spec_gpio());
        v
    }

    /// Decodes a GPIO block; `None` unless it is exactly 52 bytes long.
    pub fn from_gpio_bytes(b: &[u8]) -> (r: Option<HMDInterface>)
        ensures
            r == (if b@.len() == GPIO_BLOCK_LEN {
                Some(HMDInterface::spec_from_gpio(b@))
            } else {
                None
            }),
    {
        if b.len() != GPIO_BLOCK_LEN {
            return None;
        }
        Some(HMDInterface {
            buttons: ControllerButtons { bits: b[1] },
            left_trigger: b[2],
            right_trigger: b[3],
            left_grip: b[4],
            right_grip: b[5],
            left_rumble: b[14],
            right_rumble: b[15],
            left_stick_x: i16_from_le(b[6], b[7]),
            left_stick_y: i16_from_le(b[8], b[9]),
            right_stick_x: i16_from_le(b[10], b[11]),
            right_stick_y: i16_from_le(b[12], b[13]),
            hmd_x: i16_from_le(b[16], b[17]),
            hmd_y: i16_from_le(b[18], b[19]),
            hmd_z: i16_from_le(b[20], b[21]),
            hmd_yaw: i16_from_le(b[22], b[23]),
            hmd_pitch: i16_from_le(b[24], b[25]),
            hmd_roll: i16_from_le(b[26], b[27]),
            left_x: i16_from_le(b[28], b[29]),
            left_y: i16_from_le(b[30], b[31]),
            left_z: i16_from_le(b[32], b[33]),
            left_yaw: i16_from_le(b[34], b[35]),
            left_pitch: i16_from_le(b[36], b[37]),
            left_roll: i16_from_le(b[38], b[39]),
            right_x: i16_from_le(b[40], b[41]),
            right_y: i16_from_le(b[42], b[43]),
            right_z: i16_from_le(b[44], b[45]),
            right_yaw: i16_from_le(b[46], b[47]),
            right_pitch: i16_from_le(b[48], b[49]),
            right_roll: i16_from_le(b[50], b[51]),
        })
    }
}

impl Default for HMDInterface {
    fn default() -> (r: HMDInterface)
        ensures
            r == HMDInterface::spec_zero(),
    {
        HMDInterface {
            buttons: ControllerButtons { bits: 0 },
            left_trigger: 0,
            right_trigger: 0,
            left_grip: 0,
            right_grip: 0,
            left_stick_x: 0,
            left_stick_y: 0,
            right_stick_x: 0,
            right_stick_y: 0,
            left_rumble: 0,
            right_rumble: 0,
            hmd_x: 0,
            hmd_y: 0,
            hmd_z: 0,
            hmd_yaw: 0,
            hmd_pitch: 0,
            hmd_roll: 0,
            left_x: 0,
            left_y: 0,
            left_z: 0,
            left_yaw: 0,
            left_pitch: 0,
            left_roll: 0,
            right_x: 0,
            right_y: 0,
            right_z: 0,
            right_yaw: 0,
            right_pitch: 0,
            right_roll: 0,
        }
    }
}

/// Appends the little-endian bytes of `x`.
fn push_i16(v: &mut Vec<u8>, x: i16)
    ensures
        final(v)@ == old(v)@ + i16_le_bytes(x),
{
    let (lo, hi) = i16_to_le(x);
    v.push(lo);
    v.push(hi);
    assert(final(v)@ =~= old(v)@ + i16_le_bytes(x));
}

/// Each `i16` field stands little-endian in the GPIO block: the stick
/// values at bytes 6..14 and the poses from byte 16, two bytes each, low byte
/// first, in two's complement.
#[verifier::spinoff_prover]
#[verifier::rlimit(50)]
pub proof fn lemma_gpio_little_endian(h: HMDInterface)
    ensures
        h.spec_gpio()[6] + 256 * h.spec_gpio()[7] == (h.left_stick_x + 0x10000) % 0x10000,
        h.spec_gpio()[8] + 256 * h.spec_gpio()[9] == (h.left_stick_y + 0x10000) % 0x10000,
        h.spec_gpio()[10] + 256 * h.spec_gpio()[11] == (h.right_stick_x + 0x10000) % 0x10000,
        h.spec_gpio()[12] + 256 * h.spec_gpio()[13] == (h.right_stick_y + 0x10000) % 0x10000,
        h.spec_gpio()[16] + 256 * h.spec_gpio()[17] == (h.hmd_x + 0x10000) % 0x10000,
        h.spec_gpio()[28] + 256 * h.spec_gpio()[29] == (h.left_x + 0x10000) % 0x10000,
        h.spec_gpio()[40] + 256 * h.spec_gpio()[41] == (h.right_x + 0x10000) % 0x10000,
        h.spec_gpio()[50] + 256 * h.spec_gpio()[51] == (h.right_roll + 0x10000) % 0x10000,
{
    lemma_gpio_layout(h);
    crate::bytes::lemma_i16_le_value(h.left_stick_x, 0, 0);
    crate::bytes::lemma_i16_le_value(h.left_stick_y, 0, 0);
    crate::bytes::lemma_i16_le_value(h.right_stick_x, 0, 0);
    crate::bytes::lemma_i16_le_value(h.right_stick_y, 0, 0);
    crate::bytes::lemma_i16_le_value(h.hmd_x, 0, 0);
    crate::bytes::lemma_i16_le_value(h.left_x, 0, 0);
    crate::bytes::lemma_i16_le_value(h.right_x, 0, 0);
    crate::bytes::lemma_i16_le_value(h.right_roll, 0, 0);
}

/// The placeholder poses put the headset at 150 cm height and the two
/// controllers at 80 cm height, 5 cm forward, 10 cm to either side: the left
/// one at x = -10 and the right one mirrored at x = 10, turned by the
/// mirrored yaw; nothing but the poses changes. In the GPIO block the right
/// controller's x (bytes 40, 41) reads 0x0a, 0x00 and the left's (bytes 28,
/// 29) 0xf6, 0xff.
#[verifier::spinoff_prover]
#[verifier::rlimit(50)]
pub proof fn lemma_placeholder_poses(h: HMDInterface)
    ensures
        ({
            let p = h.spec_with_placeholder_poses();
            &&& p.hmd_x == 0 && p.hmd_y == 150 && p.hmd_z == 0
            &&& p.hmd_yaw == 0 && p.hmd_pitch == 0 && p.hmd_roll == 0
            &&& p.left_x == -10 && p.right_x == 10 && p.right_x == -p.left_x
            &&& p.left_y == 80 && p.right_y == p.left_y
            &&& p.left_z == -5 && p.right_z == p.left_z
            &&& p.left_yaw == -360 && p.right_yaw == -p.left_yaw
            &&& p.left_pitch == 360 && p.right_pitch == p.left_pitch
            &&& p.left_roll == 0 && p.right_roll == 0
            &&& p.buttons == h.buttons && p.left_trigger == h.left_trigger
            &&& p.right_trigger == h.right_trigger && p.left_grip == h.left_grip
            &&& p.right_grip == h.right_grip && p.left_stick_x == h.left_stick_x
            &&& p.left_stick_y == h.left_stick_y && p.right_stick_x == h.right_stick_x
            &&& p.right_stick_y == h.right_stick_y && p.left_rumble == h.left_rumble
            &&& p.right_rumble == h.right_rumble
            &&& p.spec_gpio()[40] == 0x0a && p.spec_gpio()[41] == 0x00
            &&& p.spec_gpio()[28] == 0xf6 && p.spec_gpio()[29] == 0xff
            &&& p.spec_gpio()[18] == 150 && p.spec_gpio()[19] == 0
        }),
{
    lemma_gpio_layout(h.spec_with_placeholder_poses());
}

/// Decoding the encoding of an interface gives it back.
#[verifier::spinoff_prover]
#[verifier::rlimit(50)]
pub proof fn lemma_gpio_roundtrip(h: HMDInterface)
    ensures
        h.spec_gpio().len() == GPIO_BLOCK_LEN,
        HMDInterface::spec_from_gpio(h.spec_gpio()) == h,
{
    lemma_gpio_layout(h);
}

/// Encoding a decoded 52-byte block gives the block back, with its unused
/// first byte cleared.
pub proof fn lemma_gpio_bytes_roundtrip(b: Seq<u8>)
    requires
        b.len() == GPIO_BLOCK_LEN,
    ensures
        HMDInterface::spec_from_gpio(b).spec_gpio() == b.update(0, 0u8),
{
    let h = HMDInterface::spec_from_gpio(b);
    let e = h.spec_gpio();
    lemma_gpio_layout(h);
    crate::bytes::lemma_le_i16_roundtrip(b[6], b[7]);
    crate::bytes::lemma_le_i16_roundtrip(b[8], b[9]);
    crate::bytes::lemma_le_i16_roundtrip(b[10], b[11]);
    crate::bytes::lemma_le_i16_roundtrip(b[12], b[13]);
    crate::bytes::lemma_le_i16_roundtrip(b[16], b[17]);
    crate::bytes::lemma_le_i16_roundtrip(b[18], b[19]);
    crate::bytes::lemma_le_i16_roundtrip(b[20], b[21]);
    crate::bytes::lemma_le_i16_roundtrip(b[22], b[23]);
    crate::bytes::lemma_le_i16_roundtrip(b[24], b[25]);
    crate::bytes::lemma_le_i16_roundtrip(b[26], b[27]);
    crate::bytes::lemma_le_i16_roundtrip(b[28], b[29]);
    crate::bytes::lemma_le_i16_roundtrip(b[30], b[31]);
    crate::bytes::lemma_le_i16_roundtrip(b[32], b[33]);
    crate::bytes::lemma_le_i16_roundtrip(b[34], b[35]);
    crate::bytes::lemma_le_i16_roundtrip(b[36], b[37]);
    crate::bytes::lemma_le_i16_roundtrip(b[38], b[39]);
    crate::bytes::lemma_le_i16_roundtrip(b[40], b[41]);
    crate::bytes::lemma_le_i16_roundtrip(b[42], b[43]);
    crate::bytes::lemma_le_i16_roundtrip(b[44], b[45]);
    crate::bytes::lemma_le_i16_roundtrip(b[46], b[47]);
    crate::bytes::lemma_le_i16_roundtrip(b[48], b[49]);
    crate::bytes::lemma_le_i16_roundtrip(b[50], b[51]);
    assert(e =~= b.update(0, 0u8));
}

/// Where each field of an interface stands in its GPIO block.
pub proof fn lemma_gpio_layout(h: HMDInterface)
    ensures
        h.spec_gpio().len() == GPIO_BLOCK_LEN,
        h.spec_gpio()[0] == 0,
        h.spec_gpio()[1] == h.buttons.bits,
        h.spec_gpio()[2] == h.left_trigger,
        h.spec_gpio()[3] == h.right_trigger,
        h.spec_gpio()[4] == h.left_grip,
        h.spec_gpio()[5] == h.right_grip,
        h.spec_gpio()[14] == h.left_rumble,
        h.spec_gpio()[15] == h.right_rumble,
        h.spec_gpio()[6] == i16_lo(h.left_stick_x),
        h.spec_gpio()[7] == i16_hi(h.left_stick_x),
        h.spec_gpio()[8] == i16_lo(h.left_stick_y),
        h.spec_gpio()[9] == i16_hi(h.left_stick_y),
        h.spec_gpio()[10] == i16_lo(h.right_stick_x),
        h.spec_gpio()[11] == i16_hi(h.right_stick_x),
        h.spec_gpio()[12] == i16_lo(h.right_stick_y),
        h.spec_gpio()[13] == i16_hi(h.right_stick_y),
        h.spec_gpio()[16] == i16_lo(h.hmd_x),
        h.spec_gpio()[17] == i16_hi(h.hmd_x),
        h.spec_gpio()[18] == i16_lo(h.hmd_y),
        h.spec_gpio()[19] == i16_hi(h.hmd_y),
        h.spec_gpio()[20] == i16_lo(h.hmd_z),
        h.spec_gpio()[21] == i16_hi(h.hmd_z),
        h.spec_gpio()[22] == i16_lo(h.hmd_yaw),
        h.spec_gpio()[23] == i16_hi(h.hmd_yaw),
        h.spec_gpio()[24] == i16_lo(h.hmd_pitch),
        h.spec_gpio()[25] == i16_hi(h.hmd_pitch),
        h.spec_gpio()[26] == i16_lo(h.hmd_roll),
        h.spec_gpio()[27] == i16_hi(h.hmd_roll),
        h.spec_gpio()[28] == i16_lo(h.left_x),
        h.spec_gpio()[29] == i16_hi(h.left_x),
        h.spec_gpio()[30] == i16_lo(h.left_y),
        h.spec_gpio()[31] == i16_hi(h.left_y),
        h.spec_gpio()[32] == i16_lo(h.left_z),
        h.spec_gpio()[33] == i16_hi(h.left_z),
        h.spec_gpio()[34] == i16_lo(h.left_yaw),
        h.spec_gpio()[35] == i16_hi(h.left_yaw),
        h.spec_gpio()[36] == i16_lo(h.left_pitch),
        h.spec_gpio()[37] == i16_hi(h.left_pitch),
        h.spec_gpio()[38] == i16_lo(h.left_roll),
        h.spec_gpio()[39] == i16_hi(h.left_roll),
        h.spec_gpio()[40] == i16_lo(h.right_x),
        h.spec_gpio()[41] == i16_hi(h.right_x),
        h.spec_gpio()[42] == i16_lo(h.right_y),
        h.spec_gpio()[43] == i16_hi(h.right_y),
        h.spec_gpio()[44] == i16_lo(h.right_z),
        h.spec_gpio()[45] == i16_hi(h.right_z),
        h.spec_gpio()[46] == i16_lo(h.right_yaw),
        h.spec_gpio()[47] == i16_hi(h.right_yaw),
        h.spec_gpio()[48] == i16_lo(h.right_pitch),
        h.spec_gpio()[49] == i16_hi(h.right_pitch),
        h.spec_gpio()[50] == i16_lo(h.right_roll),
        h.spec_gpio()[51] == i16_hi(h.right_roll),
{
}

} // verus!
