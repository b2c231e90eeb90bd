//! The central's BLE address, derived from the chip's factory device ID.

use vstd::prelude::*;

verus! {

/// Bits 46 and 47 of the 48-bit address: the two top bits of a static random
/// BLE address.
pub const STATIC_RANDOM_MARK: u64 = 0x0000_c000_0000_0000;

/// The 64-bit device ID `id1:id0` with the static random mark set.
pub open spec fn marked_device_id(id0: u32, id1: u32) -> u64 {
    (((id1 as u64) << 32u64) | (id0 as u64)) | STATIC_RANDOM_MARK
}

/// Byte `i` (little-endian) of `v`.
pub open spec fn le_byte(v: u64, i: int) -> u8 {
    ((v >> ((8 * i) as u64)) & 0xffu64) as u8
}

/// The BLE address built from the two words of the factory device ID: the
/// first six little-endian bytes of `id1:id0` with the static random mark set.
pub fn ble_address(device_id0: u32, device_id1: u32) -> (addr: [u8; 6])
    ensures
        addr@.len() == 6,
        forall|i: int| 0 <= i < 6 ==> addr@[i] == le_byte(marked_device_id(device_id0, device_id1), i),
{
    let id: u64 = (((device_id1 as u64) << 32u64) | (device_id0 as u64)) | STATIC_RANDOM_MARK;
    let b0: u8 = (id & 0xff) as u8;
    let b1: u8 = ((id >> 8u64) & 0xff) as u8;
    let b2: u8 = ((id >> 16u64) & 0xff) as u8;
    let b3: u8 = ((id >> 24u64) & 0xff) as u8;
    let b4: u8 = ((id >> 32u64) & 0xff) as u8;
    let b5: u8 = ((id >> 40u64) & 0xff) as u8;
    let addr: [u8; 6] = [b0, b1, b2, b3, b4, b5];
    proof {
        let v = marked_device_id(device_id0, device_id1);
        assert(id == v);
        assert(v >> 0u64 == v) by (bit_vector);
        assert(addr@[0] == le_byte(v, 0));
        assert(addr@[1] == le_byte(v, 1));
        assert(addr@[2] == le_byte(v, 2));
        assert(addr@[3] == le_byte(v, 3));
        assert(addr@[4] == le_byte(v, 4));
        assert(addr@[5] == le_byte(v, 5));
    }
    addr
}

/// The address is a static random one (the two top bits of its last byte are
/// set), and otherwise carries the device ID unchanged: the four bytes of
/// `id0`, the low byte of `id1`, and the low six bits of `id1`'s second byte.
pub proof fn lemma_address_layout(id0: u32, id1: u32)
    ensures
        le_byte(marked_device_id(id0, id1), 5) & 0xc0u8 == 0xc0u8,
        le_byte(marked_device_id(id0, id1), 0) == (id0 & 0xffu32) as u8,
        le_byte(marked_device_id(id0, id1), 1) == ((id0 >> 8u32) & 0xffu32) as u8,
        le_byte(marked_device_id(id0, id1), 2) == ((id0 >> 16u32) & 0xffu32) as u8,
        le_byte(marked_device_id(id0, id1), 3) == ((id0 >> 24u32) & 0xffu32) as u8,
        le_byte(marked_device_id(id0, id1), 4) == (id1 & 0xffu32) as u8,
        le_byte(marked_device_id(id0, id1), 5) & 0x3fu8 == ((id1 >> 8u32) & 0x3fu32) as u8,
{
    let v = marked_device_id(id0, id1);
    assert(((((((id1 as u64) << 32u64) | (id0 as u64)) | 0x0000_c000_0000_0000u64) >> 40u64) & 0xffu64) as u8
        & 0xc0u8 == 0xc0u8) by (bit_vector);
    assert(((((((id1 as u64) << 32u64) | (id0 as u64)) | 0x0000_c000_0000_0000u64) >> 0u64) & 0xffu64) as u8
        == (id0 & 0xffu32) as u8) by (bit_vector);
    assert(((((((id1 as u64) << 32u64) | (id0 as u64)) | 0x0000_c000_0000_0000u64) >> 8u64) & 0xffu64) as u8
        == ((id0 >> 8u32) & 0xffu32) as u8) by (bit_vector);
    assert(((((((id1 as u64) << 32u64) | (id0 as u64)) | 0x0000_c000_0000_0000u64) >> 16u64) & 0xffu64) as u8
        == ((id0 >> 16u32) & 0xffu32) as u8) by (bit_vector);
    assert(((((((id1 as u64) << 32u64) | (id0 as u64)) | 0x0000_c000_0000_0000u64) >> 24u64) & 0xffu64) as u8
        == ((id0 >> 24u32) & 0xffu32) as u8) by (bit_vector);
    assert(((((((id1 as u64) << 32u64) | (id0 as u64)) | 0x0000_c000_0000_0000u64) >> 32u64) & 0xffu64) as u8
        == (id1 & 0xffu32) as u8) by (bit_vector);
    assert(((((((id1 as u64) << 32u64) | (id0 as u64)) | 0x0000_c000_0000_0000u64) >> 40u64) & 0xffu64) as u8
        & 0x3fu8 == ((id1 >> 8u32) & 0x3fu32) as u8) by (bit_vector);
    assert(le_byte(v, 0) == ((v >> 0u64) & 0xffu64) as u8);
}

} // verus!
