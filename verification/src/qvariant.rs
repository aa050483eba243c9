//! A `QVariant` holding a boolean, laid out as Qt expects it in generic surface
//! properties.
use vstd::prelude::*;

verus! {

/// The Qt meta type id of `bool` (`QMetaType::Bool`).
pub const QMETATYPE_BOOL: i32 = 1;

/// The number of bytes of a `QVariant`: an 8-byte header (type id and flags) followed by
/// an 8-byte data union.
pub const QVARIANT_SIZE: usize = 16;

/// A `QVariant` whose data holds a boolean as a 32-bit integer.
#[derive(Debug, Clone, Copy, PartialEq, Eq, Structural)]
pub struct QVariant {
    /// The Qt meta type id.
    pub type_id: i32,
    /// Flags such as shared and null.
    pub flags: u32,
    /// The boolean, as 1 or 0.
    pub bool_val: i32,
}

/// The little-endian bytes of a 32-bit value.
pub open spec fn le_bytes(x: u32) -> Seq<u8> {
    seq![
        (x & 0xff) as u8,
        ((x >> 8u32) & 0xff) as u8,
        ((x >> 16u32) & 0xff) as u8,
        ((x >> 24u32) & 0xff) as u8,
    ]
}

/// The memory image of a `QVariant` on a little-endian machine: type id, flags, the
/// 32-bit boolean, and four zero bytes that fill the data union up to its 8 bytes.
pub open spec fn qvariant_bytes(v: QVariant) -> Seq<u8> {
    le_bytes(v.type_id as u32) + le_bytes(v.flags) + le_bytes(v.bool_val as u32) + seq![
        0u8,
        0u8,
        0u8,
        0u8,
    ]
}

/// Appends the little-endian bytes of `x` to `out`.
fn push_le_bytes(out: &mut Vec<u8>, x: u32)
    ensures
        final(out)@ == old(out)@ + le_bytes(x),
{
    out.push((x & 0xff) as u8);
    out.push(((x >> 8u32) & 0xff) as u8);
    out.push(((x >> 16u32) & 0xff) as u8);
    out.push(((x >> 24u32) & 0xff) as u8);
    proof {
        assert(final(out)@ =~= old(out)@ + le_bytes(x));
    }
}

impl QVariant {
    /// A `QVariant` of meta type `Bool`, not shared and not null, holding `value`.
    pub fn from_bool(value: bool) -> (v: Self)
        ensures
            v.type_id == QMETATYPE_BOOL,
            v.flags == 0,
            v.bool_val == if value {
                1i32
            } else {
                0i32
            },
    {
        QVariant {
            type_id: QMETATYPE_BOOL,
            flags: 0,
            bool_val: if value {
                1
            } else {
                0
            },
        }
    }

    /// The bytes of the `QVariant` as it is laid out in memory on a little-endian machine,
    /// with the unused half of the data union zeroed.
    pub fn as_bytes(&self) -> (bytes: Vec<u8>)
        ensures
            bytes@ == qvariant_bytes(*self),
            bytes@.len() == QVARIANT_SIZE,
    {
        let mut bytes: Vec<u8> = Vec::new();
        push_le_bytes(&mut bytes, self.type_id as u32);
        push_le_bytes(&mut bytes, self.flags);
        push_le_bytes(&mut bytes, self.bool_val as u32);
        bytes.push(0);
        bytes.push(0);
        bytes.push(0);
        bytes.push(0);
        proof {
            assert(bytes@ =~= qvariant_bytes(*self));
        }
        bytes
    }
}

} // verus!
