//! The reparse-point buffer of a junction.
//!
//! Layout, all integers little-endian:
//!
//! | offset | size | field                                   |
//! |--------|------|-----------------------------------------|
//! | 0      | 4    | reparse tag                             |
//! | 4      | 2    | declared data length                    |
//! | 6      | 2    | reserved, zero                          |
//! | 8      | 2    | substitute-name offset, zero            |
//! | 10     | 2    | substitute-name length in bytes         |
//! | 12     | 2n   | the target's code units, no terminator  |
//! | 12+2n  | 8    | zero padding up to the declared length  |
//!
//! The declared data length counts everything after the first eight bytes.

use vstd::prelude::*;

use crate::error::LinkError;
use crate::wide::is_wide_string;

verus! {

/// Size of the header that precedes the declared data.
pub const REPARSE_HEADER_SIZE: usize = 8;

/// Size of the mount-point header inside the declared data.
pub const MOUNT_POINT_HEADER_SIZE: usize = 8;

/// Room kept after the name for its terminator.
pub const TERMINATOR_SPACE: usize = 4;

/// The reparse tag of a mount point, which is what a junction is.
pub const IO_REPARSE_TAG_MOUNT_POINT: u32 = 0xA0000003;

/// Offset of the first byte of the substitute name.
pub const PATH_OFFSET: usize = 12;

/// The largest value a 16-bit length field can hold.
pub const MAX_FIELD: usize = 0xFFFF;

/// The two bytes of `x`, low byte first.
pub open spec fn le_bytes_u16(x: u16) -> Seq<u8> {
    seq![(x % 256) as u8, (x / 256) as u8]
}

/// The four bytes of `x`, lowest byte first.
pub open spec fn le_bytes_u32(x: u32) -> Seq<u8> {
    seq![
        (x % 256) as u8,
        (x / 256 % 256) as u8,
        (x / 65536 % 256) as u8,
        (x / 16777216) as u8,
    ]
}

/// The 16-bit value whose little-endian bytes stand at `at` in `bytes`.
pub open spec fn u16_at(bytes: Seq<u8>, at: int) -> int {
    bytes[at] + 256 * bytes[at + 1]
}

/// The 32-bit value whose little-endian bytes stand at `at` in `bytes`.
pub open spec fn u32_at(bytes: Seq<u8>, at: int) -> int {
    bytes[at] + 256 * bytes[at + 1] + 65536 * bytes[at + 2] + 16777216 * bytes[at + 3]
}

/// The code units as bytes, each unit low byte first.
pub open spec fn wide_bytes(units: Seq<u16>) -> Seq<u8> {
    Seq::new(
        2 * units.len(),
        |i: int|
            if i % 2 == 0 {
                (units[i / 2] % 256) as u8
            } else {
                (units[i / 2] / 256) as u8
            },
    )
}

/// `count` zero bytes.
pub open spec fn zero_bytes(count: nat) -> Seq<u8> {
    Seq::new(count, |i: int| 0u8)
}

/// The declared data length for a name of `units` code units: the
/// mount-point header, two bytes for each unit, and the terminator space.
pub open spec fn declared_length(units: nat) -> nat {
    (MOUNT_POINT_HEADER_SIZE + 2 * units + TERMINATOR_SPACE) as nat
}

/// Whether a name of `units` code units can be described by the 16-bit
/// length fields.
pub open spec fn fits_length_fields(units: nat) -> bool {
    declared_length(units) <= MAX_FIELD
}

/// The buffer for a junction that points at the path `name` (code units
/// without terminator). Meaningful where `fits_length_fields(name.len())`.
pub open spec fn reparse_buffer(name: Seq<u16>) -> Seq<u8> {
    le_bytes_u32(IO_REPARSE_TAG_MOUNT_POINT)
        + le_bytes_u16(declared_length(name.len()) as u16)
        + zero_bytes(2)
        + le_bytes_u16(0)
        + le_bytes_u16((2 * name.len()) as u16)
        + wide_bytes(name)
        + zero_bytes(8)
}

/// The reparse tag that `buffer` carries.
pub open spec fn tag_of(buffer: Seq<u8>) -> int {
    u32_at(buffer, 0)
}

/// The data length that `buffer` declares.
pub open spec fn declared_length_of(buffer: Seq<u8>) -> int {
    u16_at(buffer, 4)
}

/// The substitute name that `buffer` carries, decoded back to code units.
pub open spec fn substitute_name_of(buffer: Seq<u8>) -> Seq<u16> {
    let start = PATH_OFFSET + u16_at(buffer, 8);
    let units = u16_at(buffer, 10) / 2;
    Seq::new(units as nat, |i: int| u16_at(buffer, start + 2 * i) as u16)
}

/// Whether `buffer` is the reparse buffer of the name it carries: the length
/// fields describe what follows them, and the buffer ends where the declared
/// data ends.
pub open spec fn is_reparse_buffer(buffer: Seq<u8>) -> bool {
    &&& fits_length_fields(substitute_name_of(buffer).len())
    &&& buffer == reparse_buffer(substitute_name_of(buffer))
}

/// Appends the two bytes of `x`, low byte first.
fn push_u16_le(buffer: &mut Vec<u8>, x: u16)
    ensures
        final(buffer)@ == old(buffer)@ + le_bytes_u16(x),
{
    buffer.push((x % 256) as u8);
    buffer.push((x / 256) as u8);
    assert(buffer@ == old(buffer)@ + le_bytes_u16(x));
}

/// Appends the four bytes of `x`, lowest byte first.
fn push_u32_le(buffer: &mut Vec<u8>, x: u32)
    ensures
        final(buffer)@ == old(buffer)@ + le_bytes_u32(x),
{
    buffer.push((x % 256) as u8);
    buffer.push((x / 256 % 256) as u8);
    buffer.push((x / 65536 % 256) as u8);
    buffer.push((x / 16777216) as u8);
    assert(buffer@ == old(buffer)@ + le_bytes_u32(x));
}

/// Appends `count` zero bytes.
fn push_zeros(buffer: &mut Vec<u8>, count: usize)
    ensures
        final(buffer)@ == old(buffer)@ + zero_bytes(count as nat),
{
    let mut i: usize = 0;
    while i < count
        invariant
            i <= count,
            buffer@ == old(buffer)@ + zero_bytes(i as nat),
        decreases count - i,
    {
        buffer.push(0);
        i = i + 1;
        assert(buffer@ == old(buffer)@ + zero_bytes(i as nat));
    }
}

/// Appends the first `count` code units of `units`, each low byte first.
fn push_wide(buffer: &mut Vec<u8>, units: &[u16], count: usize)
    requires
        count <= units@.len(),
    ensures
        final(buffer)@ == old(buffer)@ + wide_bytes(units@.take(count as int)),
{
    let mut i: usize = 0;
    while i < count
        invariant
            i <= count <= units@.len(),
            buffer@ == old(buffer)@ + wide_bytes(units@.take(i as int)),
        decreases count - i,
    {
        let unit = units[i];
        buffer.push((unit % 256) as u8);
        buffer.push((unit / 256) as u8);
        i = i + 1;
        assert(buffer@ == old(buffer)@ + wide_bytes(units@.take(i as int)));
    }
}

/// Builds the reparse buffer for `target`, a wide string with its
/// terminator. The terminator is not part of the name that is written.
///
/// A target whose declared data length would not fit the 16-bit field is
/// refused; nothing is truncated.
pub fn create_reparse_data(target: &[u16]) -> (outcome: Result<Vec<u8>, LinkError>)
    requires
        is_wide_string(target@),
    ensures
        fits_length_fields((target@.len() - 1) as nat) ==> outcome is Ok,
        !fits_length_fields((target@.len() - 1) as nat) ==> outcome == Err::<Vec<u8>, LinkError>(
            LinkError::TargetPathTooLong,
        ),
        outcome matches Ok(buffer) ==> {
            &&& buffer@ == reparse_buffer(target@.drop_last())
            &&& declared_length_of(buffer@) == 8 + 2 * (target@.len() - 1) + 4
            &&& buffer@.len() >= 8 + declared_length_of(buffer@)
            &&& buffer@.len() == 8 + declared_length_of(buffer@)
            &&& tag_of(buffer@) == IO_REPARSE_TAG_MOUNT_POINT
            &&& substitute_name_of(buffer@) == target@.drop_last()
            &&& is_reparse_buffer(buffer@)
        },
{
    let units = target.len() - 1;
    if units > (MAX_FIELD - MOUNT_POINT_HEADER_SIZE - TERMINATOR_SPACE) / 2 {
        return Err(LinkError::TargetPathTooLong);
    }
    let name_len = units * 2;
    let data_len = MOUNT_POINT_HEADER_SIZE + name_len + TERMINATOR_SPACE;
    let mut buffer: Vec<u8> = Vec::with_capacity(REPARSE_HEADER_SIZE + data_len);
    push_u32_le(&mut buffer, IO_REPARSE_TAG_MOUNT_POINT);
    push_u16_le(&mut buffer, data_len as u16);
    push_zeros(&mut buffer, 2);
    push_u16_le(&mut buffer, 0);
    push_u16_le(&mut buffer, name_len as u16);
    push_wide(&mut buffer, target, units);
    push_zeros(&mut buffer, REPARSE_HEADER_SIZE + data_len - PATH_OFFSET - name_len);
    proof {
        assert(target@.take(units as int) == target@.drop_last());
        lemma_declared_length(target@.drop_last());
        lemma_name_round_trip(target@.drop_last());
    }
    Ok(buffer)
}

/// A buffer built for a name of `n` code units declares `8 + 2n + 4` bytes
/// of data: the mount-point header, the name, and the terminator space. The
/// buffer is exactly eight bytes longer than it declares, so it covers its
/// header and all the data it declares. It carries the mount-point tag, a
/// zero reserved field, a zero name offset and the name's length in bytes.
pub proof fn lemma_declared_length(name: Seq<u16>)
    requires
        fits_length_fields(name.len()),
    ensures
        declared_length_of(reparse_buffer(name)) == 8 + 2 * name.len() + 4,
        reparse_buffer(name).len() >= 8 + declared_length_of(reparse_buffer(name)),
        reparse_buffer(name).len() == 8 + declared_length_of(reparse_buffer(name)),
        tag_of(reparse_buffer(name)) == IO_REPARSE_TAG_MOUNT_POINT,
        u16_at(reparse_buffer(name), 6) == 0,
        u16_at(reparse_buffer(name), 8) == 0,
        u16_at(reparse_buffer(name), 10) == 2 * name.len(),
{
    let buffer = reparse_buffer(name);
    let declared = declared_length(name.len()) as u16;
    let name_len = (2 * name.len()) as u16;
    assert(buffer.len() == 20 + 2 * name.len());
    assert(buffer[0] == 0x03 && buffer[1] == 0x00 && buffer[2] == 0x00 && buffer[3] == 0xA0);
    assert(buffer[4] == (declared % 256) as u8 && buffer[5] == (declared / 256) as u8);
    assert(buffer[6] == 0 && buffer[7] == 0 && buffer[8] == 0 && buffer[9] == 0);
    assert(buffer[10] == (name_len % 256) as u8 && buffer[11] == (name_len / 256) as u8);
}

/// Decoding the substitute-name region of a buffer gives back exactly the
/// code units the buffer was built for; so the buffer is the reparse buffer
/// of the name it carries.
pub proof fn lemma_name_round_trip(name: Seq<u16>)
    requires
        fits_length_fields(name.len()),
    ensures
        substitute_name_of(reparse_buffer(name)) == name,
        is_reparse_buffer(reparse_buffer(name)),
{
    let buffer = reparse_buffer(name);
    lemma_declared_length(name);
    assert forall|i: int| 0 <= i < name.len() implies #[trigger] substitute_name_of(buffer)[i]
        == name[i] by {
        assert(buffer[12 + 2 * i] == wide_bytes(name)[2 * i]);
        assert(buffer[12 + 2 * i + 1] == wide_bytes(name)[2 * i + 1]);
    }
    assert(substitute_name_of(buffer) =~= name);
}

} // verus!
