//! Shared buffers of Linux: what a consumer needs to import one, and the message that
//! tells it.

use vstd::prelude::*;

use crate::memory::{is_picked, pick_memory_type, MAX_MEMORY_TYPES};
use crate::pixels::{pack_rows, packed, packed_rows_are_the_rows, rows_within};
use crate::protocol::{magic, sent_length};
use crate::wire::{
    get_u32, get_u64, push_u32, push_u64, u32_at, u32_bytes_round_trip, u32_field, u32_le, u64_at,
    u64_le, ReadError,
};

verus! {

/// The layout in which row follows row.
pub const DRM_FORMAT_MOD_LINEAR: u64 = 0;

/// The format whose bytes in memory are red, green, blue and alpha. Its code spells
/// the depth with digits: `AB24`.
pub const DRM_FORMAT_ABGR8888: u32 = 0x3432_4241;

/// The four characters of a format's code as a number, the first lowest.
pub open spec fn fourcc_spec(a: u8, b: u8, c: u8, d: u8) -> u32 {
    (a + 256 * b + 65536 * c + 16777216 * d) as u32
}

/// The four characters of a format's code as a number.
pub fn fourcc(a: u8, b: u8, c: u8, d: u8) -> (code: u32)
    ensures
        code == fourcc_spec(a, b, c, d),
{
    assert((a as u32) | ((b as u32) << 8) | ((c as u32) << 16) | ((d as u32) << 24) == a as u32
        + 256 * b as u32 + 65536 * c as u32 + 16777216 * d as u32) by (bit_vector);
    (a as u32) | ((b as u32) << 8) | ((c as u32) << 16) | ((d as u32) << 24)
}

/// The format's code is the one that its characters spell, and as bytes it reads as
/// they do.
pub proof fn format_spells_its_code()
    ensures
        DRM_FORMAT_ABGR8888 == fourcc_spec('A' as u8, 'B' as u8, '2' as u8, '4' as u8),
        u32_le(DRM_FORMAT_ABGR8888) == seq!['A' as u8, 'B' as u8, '2' as u8, '4' as u8],
{
    assert(u32_le(DRM_FORMAT_ABGR8888) =~= seq!['A' as u8, 'B' as u8, '2' as u8, '4' as u8]);
}

/// Everything the consumer needs to import one buffer.
#[derive(Clone, Copy, Debug, PartialEq, Eq, Structural)]
pub struct DmabufInfo {
    pub width: u32,
    pub height: u32,
    pub stride: u32,
    pub offset: u32,
    pub modifier: u64,
    pub fourcc: u32,
}

/// What is told of an exported buffer.
pub type ExportInfo = DmabufInfo;

/// What a buffer is exported as: a file descriptor.
pub type ExportHandle = i32;

/// The geometry of a buffer of at least one by one pixels, from where its rows lie.
pub open spec fn plane(width: u32, height: u32, row_pitch: u64, offset: u64) -> DmabufInfo {
    DmabufInfo {
        width: if width < 1 {
            1
        } else {
            width
        },
        height: if height < 1 {
            1
        } else {
            height
        },
        stride: (row_pitch % 0x1_0000_0000) as u32,
        offset: (offset % 0x1_0000_0000) as u32,
        modifier: DRM_FORMAT_MOD_LINEAR,
        fourcc: DRM_FORMAT_ABGR8888,
    }
}

/// The geometry of a buffer.
pub fn plane_info(width: u32, height: u32, row_pitch: u64, offset: u64) -> (info: DmabufInfo)
    ensures
        info == plane(width, height, row_pitch, offset),
{
    DmabufInfo {
        width: if width < 1 {
            1
        } else {
            width
        },
        height: if height < 1 {
            1
        } else {
            height
        },
        stride: (row_pitch % 0x1_0000_0000) as u32,
        offset: (offset % 0x1_0000_0000) as u32,
        modifier: DRM_FORMAT_MOD_LINEAR,
        fourcc: DRM_FORMAT_ABGR8888,
    }
}

/// Why a buffer could not be exported.
#[derive(Clone, Copy, Debug, PartialEq, Eq, Structural)]
pub enum ExportError {
    /// No type of memory suits the image.
    NoMemoryType,
    /// The descriptor that came back is none.
    InvalidDescriptor,
}

/// The type of memory to allocate for an image, or the reason to give up.
pub fn export_memory_type(types: &[u32], type_bits: u32) -> (result: Result<u32, ExportError>)
    requires
        types@.len() <= MAX_MEMORY_TYPES,
    ensures
        match result {
            Ok(index) => is_picked(types@, type_bits, Some(index)),
            Err(error) => error == ExportError::NoMemoryType && is_picked(types@, type_bits, None),
        },
{
    match pick_memory_type(types, type_bits) {
        Some(index) => Ok(index),
        None => Err(ExportError::NoMemoryType),
    }
}

/// What a consumer is told of a buffer that was exported as a descriptor.
pub open spec fn exported(
    descriptor: ExportHandle,
    width: u32,
    height: u32,
    row_pitch: u64,
    offset: u64,
) -> Result<DmabufInfo, ExportError> {
    if descriptor < 0 {
        Err(ExportError::InvalidDescriptor)
    } else {
        Ok(plane(width, height, row_pitch, offset))
    }
}

/// What to tell the consumer of an exported buffer, given the descriptor and the
/// layout that the driver answered with.
pub fn exported_plane(
    descriptor: ExportHandle,
    width: u32,
    height: u32,
    row_pitch: u64,
    offset: u64,
) -> (result: Result<DmabufInfo, ExportError>)
    ensures
        result == exported(descriptor, width, height, row_pitch, offset),
{
    if descriptor < 0 {
        return Err(ExportError::InvalidDescriptor);
    }
    Ok(plane_info(width, height, row_pitch, offset))
}

/// The message that goes with the buffers' descriptors.
pub open spec fn handshake_message(info: DmabufInfo, descriptors: nat) -> Seq<u8> {
    magic('D', 'M', 'A', 'B') + u32_le(sent_length(descriptors)) + u32_le(info.width) + u32_le(
        info.height,
    ) + u32_le(info.stride) + u32_le(info.offset) + u64_le(info.modifier) + u32_le(info.fourcc)
}

/// Appends the message that goes with the buffers' descriptors.
pub fn send_handshake(out: &mut Vec<u8>, info: &DmabufInfo, descriptors: usize)
    ensures
        final(out)@ == old(out)@ + handshake_message(*info, descriptors as nat),
{
    out.push('D' as u8);
    out.push('M' as u8);
    out.push('A' as u8);
    out.push('B' as u8);
    push_u32(out, (descriptors as u64 % 0x1_0000_0000) as u32);
    push_u32(out, info.width);
    push_u32(out, info.height);
    push_u32(out, info.stride);
    push_u32(out, info.offset);
    push_u64(out, info.modifier);
    push_u32(out, info.fourcc);
    assert(out@ =~= old(out)@ + handshake_message(*info, descriptors as nat));
}

/// What a received message says, given how many descriptors came with it.
pub open spec fn handshake(bytes: Seq<u8>, descriptors: nat) -> Result<DmabufInfo, ReadError> {
    if bytes.take(4) != magic('D', 'M', 'A', 'B') {
        Err(ReadError::BadMagic)
    } else if u32_at(bytes, 4) != descriptors {
        Err(
            ReadError::FdCountMismatch {
                got: descriptors as usize,
                want: u32_at(bytes, 4) as usize,
            },
        )
    } else {
        Ok(
            DmabufInfo {
                width: u32_at(bytes, 8),
                height: u32_at(bytes, 12),
                stride: u32_at(bytes, 16),
                offset: u32_at(bytes, 20),
                modifier: u64_at(bytes, 24),
                fourcc: u32_at(bytes, 32),
            },
        )
    }
}

/// Reads a handshake out of the buffer it was received in.
pub fn recv_handshake(bytes: &[u8], descriptors: usize) -> (result: Result<DmabufInfo, ReadError>)
    requires
        bytes.len() >= 36,
    ensures
        result == handshake(bytes@, descriptors as nat),
{
    assert(bytes@.take(4) == magic('D', 'M', 'A', 'B') <==> bytes@[0] == 'D' as u8 && bytes@[1]
        == 'M' as u8 && bytes@[2] == 'A' as u8 && bytes@[3] == 'B' as u8) by {
        if bytes@[0] == 'D' as u8 && bytes@[1] == 'M' as u8 && bytes@[2] == 'A' as u8 && bytes@[3]
            == 'B' as u8 {
            assert(bytes@.take(4) =~= magic('D', 'M', 'A', 'B'));
        } else if bytes@.take(4) == magic('D', 'M', 'A', 'B') {
            assert(bytes@.take(4)[0] == bytes@[0]);
            assert(bytes@.take(4)[1] == bytes@[1]);
            assert(bytes@.take(4)[2] == bytes@[2]);
            assert(bytes@.take(4)[3] == bytes@[3]);
        }
    }
    if bytes[0] != 'D' as u8 || bytes[1] != 'M' as u8 || bytes[2] != 'A' as u8 || bytes[3]
        != 'B' as u8 {
        return Err(ReadError::BadMagic);
    }
    let want: usize = get_u32(bytes, 4) as usize;
    if descriptors != want {
        return Err(ReadError::FdCountMismatch { got: descriptors, want });
    }
    Ok(
        DmabufInfo {
            width: get_u32(bytes, 8),
            height: get_u32(bytes, 12),
            stride: get_u32(bytes, 16),
            offset: get_u32(bytes, 20),
            modifier: get_u64(bytes, 24),
            fourcc: get_u32(bytes, 32),
        },
    )
}

/// A consumer reads the geometry that the producer wrote, whatever else its buffer
/// holds behind it.
#[verifier::rlimit(50)]
pub proof fn handshake_round_trip(info: DmabufInfo, descriptors: nat, rest: Seq<u8>)
    requires
        descriptors <= u32::MAX,
    ensures
        handshake_message(info, descriptors).len() == 36,
        handshake(handshake_message(info, descriptors) + rest, descriptors) == Ok::<
            DmabufInfo,
            ReadError,
        >(info),
{
    let message = handshake_message(info, descriptors);
    let bytes = message + rest;
    let low = (info.modifier % 0x1_0000_0000) as u32;
    let high = (info.modifier / 0x1_0000_0000) as u32;
    assert(message.len() == 36);
    assert(bytes.take(4) == magic('D', 'M', 'A', 'B')) by {
        assert(bytes.take(4) =~= magic('D', 'M', 'A', 'B'));
    }
    assert(u32_at(bytes, 4) == descriptors) by {
        assert(bytes.subrange(4, 8) =~= u32_le(sent_length(descriptors)));
        u32_field(bytes, 4, sent_length(descriptors));
    }
    assert(u32_at(bytes, 8) == info.width) by {
        assert(bytes.subrange(8, 12) =~= u32_le(info.width));
        u32_field(bytes, 8, info.width);
    }
    assert(u32_at(bytes, 12) == info.height) by {
        assert(bytes.subrange(12, 16) =~= u32_le(info.height));
        u32_field(bytes, 12, info.height);
    }
    assert(u32_at(bytes, 16) == info.stride) by {
        assert(bytes.subrange(16, 20) =~= u32_le(info.stride));
        u32_field(bytes, 16, info.stride);
    }
    assert(u32_at(bytes, 20) == info.offset) by {
        assert(bytes.subrange(20, 24) =~= u32_le(info.offset));
        u32_field(bytes, 20, info.offset);
    }
    assert(u64_at(bytes, 24) == info.modifier) by {
        assert(bytes.subrange(24, 28) =~= u32_le(low));
        assert(bytes.subrange(28, 32) =~= u32_le(high));
        u32_field(bytes, 24, low);
        u32_field(bytes, 28, high);
    }
    assert(u32_at(bytes, 32) == info.fourcc) by {
        assert(bytes.subrange(32, 36) =~= u32_le(info.fourcc));
        u32_field(bytes, 32, info.fourcc);
    }
}

/// The memory of a buffer cannot be mapped.
#[derive(Clone, Copy, Debug, PartialEq, Eq, Structural)]
pub struct NotHostVisible;

/// The image in a buffer's memory as it is mapped.
pub open spec fn mapped_image(info: DmabufInfo, mapped: Seq<u8>) -> Seq<u8> {
    packed(
        mapped,
        info.offset as int,
        info.stride as int,
        info.width * 4,
        info.height as int,
    )
}

/// Reads a buffer back without its padding, out of its memory as it is mapped.
pub fn map_and_read(info: &DmabufInfo, host_visible: bool, mapped: &[u8]) -> (image: Result<
    Vec<u8>,
    NotHostVisible,
>)
    requires
        0 < info.width * 4 <= usize::MAX,
        host_visible ==> rows_within(
            mapped.len() as int,
            info.offset as int,
            info.stride as int,
            info.width * 4,
            info.height as int,
        ),
    ensures
        match image {
            Ok(image) => host_visible && image@ == mapped_image(*info, mapped@),
            Err(_) => !host_visible,
        },
{
    if !host_visible {
        return Err(NotHostVisible);
    }
    let tight: usize = info.width as usize * 4;
    Ok(
        pack_rows(
            mapped,
            info.offset as usize,
            info.stride as usize,
            tight,
            info.height as usize,
        ),
    )
}

/// A consumer is told of a buffer where it lies: its rows are as far apart as the driver
/// answered, so that a row that fits the driver's pitch fits the consumer's, and they start
/// where the driver answered. The buffer is as large as was asked for but never empty, its
/// rows follow one another, and its bytes are red, green, blue and alpha.
pub proof fn a_consumer_is_told_where_the_rows_lie(
    descriptor: ExportHandle,
    width: u32,
    height: u32,
    row_pitch: u64,
    offset: u64,
)
    requires
        row_pitch < 0x1_0000_0000,
        offset < 0x1_0000_0000,
    ensures
        exported(descriptor, width, height, row_pitch, offset) is Ok <==> descriptor >= 0,
        exported(descriptor, width, height, row_pitch, offset) matches Ok(info) ==> {
            &&& info.stride as int == row_pitch as int
            &&& info.offset as int == offset as int
            &&& width * 4 <= row_pitch ==> width * 4 <= info.stride
            &&& info.width >= 1 && info.height >= 1
            &&& width >= 1 ==> info.width == width
            &&& height >= 1 ==> info.height == height
            &&& width == 0 ==> info.width == 1
            &&& height == 0 ==> info.height == 1
            &&& info.modifier == 0
            &&& u32_le(info.fourcc) == seq![0x41u8, 0x42u8, 0x32u8, 0x34u8]
        },
{
    assert(u32_le(DRM_FORMAT_ABGR8888) =~= seq![0x41u8, 0x42u8, 0x32u8, 0x34u8]);
}

/// The characters of a format's code are the bytes of its number, in their order.
pub proof fn a_code_is_its_characters(a: u8, b: u8, c: u8, d: u8)
    ensures
        u32_le(fourcc_spec(a, b, c, d)) == seq![a, b, c, d],
{
    let characters = seq![a, b, c, d];
    assert(fourcc_spec(a, b, c, d) == u32_at(characters, 0));
    u32_bytes_round_trip(characters);
}

/// A handshake is taken only with as many descriptors as it announces, and only with its
/// own name in front.
#[verifier::rlimit(50)]
pub proof fn handshakes_are_taken_whole(
    info: DmabufInfo,
    announced: nat,
    came: nat,
    name: Seq<u8>,
    rest: Seq<u8>,
)
    requires
        announced <= u32::MAX,
        came <= usize::MAX,
        name.len() == 4,
    ensures
        handshake(handshake_message(info, announced) + rest, came) is Ok <==> announced == came,
        announced != came ==> handshake(handshake_message(info, announced) + rest, came) == Err::<
            DmabufInfo,
            ReadError,
        >(ReadError::FdCountMismatch { got: came as usize, want: announced as usize }),
        handshake(name + rest, came) == Err::<DmabufInfo, ReadError>(ReadError::BadMagic) <==> name
            != seq![0x44u8, 0x4Du8, 0x41u8, 0x42u8],
{
    let bytes = handshake_message(info, announced) + rest;
    handshake_round_trip(info, announced, rest);
    assert(bytes.take(4) =~= magic('D', 'M', 'A', 'B'));
    assert(bytes.subrange(4, 8) =~= u32_le(sent_length(announced)));
    u32_field(bytes, 4, sent_length(announced));
    assert((name + rest).take(4) =~= name);
    assert(magic('D', 'M', 'A', 'B') =~= seq![0x44u8, 0x4Du8, 0x41u8, 0x42u8]);
}

/// A consumer finds every byte of every pixel where the geometry says: as many rows as the
/// image is high, one stride apart from the offset on, and four bytes for each pixel of them.
pub proof fn a_mapped_pixel_lies_where_the_geometry_says(
    info: DmabufInfo,
    mapped: Seq<u8>,
    x: u32,
    y: u32,
    channel: int,
)
    requires
        x < info.width,
        y < info.height,
        0 <= channel < 4,
    ensures
        mapped_image(info, mapped).len() == info.width * 4 * info.height,
        mapped_image(info, mapped)[(y * info.width + x) * 4 + channel] == mapped[info.offset + y
            * info.stride + x * 4 + channel],
{
    let tight = info.width * 4;
    packed_rows_are_the_rows(
        mapped,
        info.offset as int,
        info.stride as int,
        tight,
        info.height as int,
        y as int,
        x * 4 + channel,
    );
    assert((y * info.width + x) * 4 + channel == y * tight + (x * 4 + channel))
        by (nonlinear_arith)
        requires
            tight == info.width * 4,
    ;
}

} // verus!
