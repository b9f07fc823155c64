//! Finding a vr-enabled cartridge: the magic byte sequence that it writes to
//! the start of its GPIO area, and where the rest of PICO-8 memory lies
//! once that sequence has been found.

use vstd::prelude::*;
use vstd::arithmetic::power::pow;
use crate::constants::{MAGIC, P8_GPIO, P8_UPPER};

verus! {

/// Length in bytes of the magic sequence.
pub const MAGIC_LEN: usize = 16;

/// The 16 bytes of `v`, most significant first.
pub open spec fn u128_be_bytes(v: u128) -> Seq<u8> {
    Seq::new(16, |i: int| ((v as int / pow(256, (15 - i) as nat)) % 256) as u8)
}

/// The magic byte sequence.
pub open spec fn spec_magic() -> Seq<u8> {
    u128_be_bytes(MAGIC)
}

/// Calls `uuid::Uuid::from_u128` and takes the UUID's bytes with
/// `Uuid::as_bytes`. The crate's source builds the UUID from
/// `v.to_be_bytes()`, so the bytes are those of `v`, most significant first.
#[verifier::external_body]
fn uuid_bytes_from_u128(v: u128) -> (r: [u8; 16])
    ensures
        r@ == u128_be_bytes(v),
{
    *uuid::Uuid::from_u128(v).as_bytes()
}

/// The magic sequence is the ASCII text `omgVRonPICO8!Wow`.
pub proof fn lemma_magic_text()
    ensures
        spec_magic() == seq![
            0x6fu8, 0x6du8, 0x67u8, 0x56u8, 0x52u8, 0x6fu8, 0x6eu8, 0x50u8,
            0x49u8, 0x43u8, 0x4fu8, 0x38u8, 0x21u8, 0x57u8, 0x6fu8, 0x77u8,
        ],
{
    reveal(pow);
    assert(pow(256, 0) == 1);
    assert(pow(256, 1) == 0x100);
    assert(pow(256, 2) == 0x10000);
    assert(pow(256, 3) == 0x1000000);
    assert(pow(256, 4) == 0x100000000);
    assert(pow(256, 5) == 0x10000000000);
    assert(pow(256, 6) == 0x1000000000000);
    assert(pow(256, 7) == 0x100000000000000);
    assert(pow(256, 8) == 0x10000000000000000);
    assert(pow(256, 9) == 0x1000000000000000000);
    assert(pow(256, 10) == 0x100000000000000000000);
    assert(pow(256, 11) == 0x10000000000000000000000);
    assert(pow(256, 12) == 0x1000000000000000000000000);
    assert(pow(256, 13) == 0x100000000000000000000000000);
    assert(pow(256, 14) == 0x10000000000000000000000000000);
    assert(pow(256, 15) == 0x1000000000000000000000000000000);
    assert((0x6f6d6756526f6e5049434f3821576f77int / pow(256, 15)) % 256 == 0x6f);
    assert((0x6f6d6756526f6e5049434f3821576f77int / pow(256, 14)) % 256 == 0x6d);
    assert((0x6f6d6756526f6e5049434f3821576f77int / pow(256, 13)) % 256 == 0x67);
    assert((0x6f6d6756526f6e5049434f3821576f77int / pow(256, 12)) % 256 == 0x56);
    assert((0x6f6d6756526f6e5049434f3821576f77int / pow(256, 11)) % 256 == 0x52);
    assert((0x6f6d6756526f6e5049434f3821576f77int / pow(256, 10)) % 256 == 0x6f);
    assert((0x6f6d6756526f6e5049434f3821576f77int / pow(256, 9)) % 256 == 0x6e);
    assert((0x6f6d6756526f6e5049434f3821576f77int / pow(256, 8)) % 256 == 0x50);
    assert((0x6f6d6756526f6e5049434f3821576f77int / pow(256, 7)) % 256 == 0x49);
    assert((0x6f6d6756526f6e5049434f3821576f77int / pow(256, 6)) % 256 == 0x43);
    assert((0x6f6d6756526f6e5049434f3821576f77int / pow(256, 5)) % 256 == 0x4f);
    assert((0x6f6d6756526f6e5049434f3821576f77int / pow(256, 4)) % 256 == 0x38);
    assert((0x6f6d6756526f6e5049434f3821576f77int / pow(256, 3)) % 256 == 0x21);
    assert((0x6f6d6756526f6e5049434f3821576f77int / pow(256, 2)) % 256 == 0x57);
    assert((0x6f6d6756526f6e5049434f3821576f77int / pow(256, 1)) % 256 == 0x6f);
    assert((0x6f6d6756526f6e5049434f3821576f77int / pow(256, 0)) % 256 == 0x77);
    assert(spec_magic() =~= seq![
        0x6fu8, 0x6du8, 0x67u8, 0x56u8, 0x52u8, 0x6fu8, 0x6eu8, 0x50u8,
        0x49u8, 0x43u8, 0x4fu8, 0x38u8, 0x21u8, 0x57u8, 0x6fu8, 0x77u8,
    ]);
}

/// The magic byte sequence, as the bytes of the UUID `MAGIC`.
pub fn magic_bytes() -> (r: [u8; 16])
    ensures
        r@ == spec_magic(),
{
    uuid_bytes_from_u128(MAGIC)
}

/// Whether the 16 bytes of `region` from `off` are the magic sequence.
pub open spec fn magic_at(region: Seq<u8>, off: int) -> bool {
    0 <= off && off + 16 <= region.len() && region.subrange(off, off + 16) == spec_magic()
}

/// Whether `region` from `off` holds the bytes of `magic`.
fn matches_at(region: &[u8], off: usize, magic: &[u8; 16]) -> (r: bool)
    requires
        off + 16 <= region@.len(),
    ensures
        r == (region@.subrange(off as int, off + 16) == magic@),
{
    let n: usize = region.len();
    let mut j: usize = 0;
    while j < MAGIC_LEN
        invariant
            j <= 16,
            off + 16 <= region@.len(),
            n == region@.len(),
            forall|k: int| 0 <= k < j ==> region@[off + k] == magic@[k],
        decreases 16 - j,
    {
        if region[off + j] != magic[j] {
            assert(region@.subrange(off as int, off + 16)[j as int] != magic@[j as int]);
            return false;
        }
        j = j + 1;
    }
    assert(region@.subrange(off as int, off + 16) =~= magic@);
    true
}

/// Whether `bytes` is exactly the magic sequence.
pub fn is_magic(bytes: &[u8]) -> (r: bool)
    ensures
        r == (bytes@ == spec_magic()),
{
    if bytes.len() != MAGIC_LEN {
        return false;
    }
    let magic = magic_bytes();
    let r = matches_at(bytes, 0, &magic);
    assert(bytes@.subrange(0, 16) =~= bytes@);
    r
}

/// The first offset in `region` at which the magic sequence starts, if any.
pub fn find_magic(region: &[u8]) -> (r: Option<usize>)
    ensures
        r matches Some(off) ==> magic_at(region@, off as int),
        r matches Some(off) ==> forall|j: int| 0 <= j < off ==> !magic_at(region@, j),
        r is None ==> forall|j: int| 0 <= j < region@.len() ==> !magic_at(region@, j),
{
    let magic = magic_bytes();
    if region.len() < MAGIC_LEN {
        return None;
    }
    let last = region.len() - MAGIC_LEN;
    let mut off: usize = 0;
    while off <= last
        invariant
            last + 16 == region@.len(),
            region@.len() <= usize::MAX,
            magic@ == spec_magic(),
            forall|j: int| 0 <= j < off ==> !magic_at(region@, j),
        decreases last + 1 - off,
    {
        if matches_at(region, off, &magic) {
            return Some(off);
        }
        off = off + 1;
    }
    None
}

/// Where the helper reads and writes a connected cartridge's memory, as
/// addresses in the PICO-8 process.
#[derive(Clone, Copy, Debug, PartialEq, Eq, Structural)]
pub struct RuntimeLayout {
    /// Start of the GPIO area, where the magic sequence was found.
    pub gpio: usize,
    /// Start of upper memory, where the transform buffer lies.
    pub upper: usize,
}

impl RuntimeLayout {
    /// The layout of a PICO-8 memory whose GPIO area starts at `gpio_address`:
    /// the memory starts `P8_GPIO` bytes before it, and upper memory
    /// `P8_UPPER` bytes after that start. `None` when either address falls
    /// outside the address space.
    pub fn from_gpio_address(gpio_address: usize) -> (r: Option<RuntimeLayout>)
        ensures
            r is Some <==> (P8_GPIO <= gpio_address && gpio_address - P8_GPIO + P8_UPPER <= usize::MAX),
            r matches Some(l) ==> l.gpio == gpio_address && l.upper == gpio_address - P8_GPIO + P8_UPPER,
    {
        if gpio_address < P8_GPIO {
            return None;
        }
        let base = gpio_address - P8_GPIO;
        if base > usize::MAX - P8_UPPER {
            return None;
        }
        Some(RuntimeLayout { gpio: gpio_address, upper: base + P8_UPPER })
    }
}

} // verus!
