//! A small producer and its probe: a triangle that follows the pointer, served over a
//! unix socket as copied frames or as shared buffers.

use vstd::prelude::*;

use crate::dmabuf::{a_mapped_pixel_lies_where_the_geometry_says, mapped_image, DmabufInfo};
use crate::pixels::{
    pack_rows, packed, packed_rows_are_the_rows, padded_row,
    padded_row_spec, padded_rows_are_tight,
};
use crate::protocol::{
    frame_message, magic, notices_read_back, ready_message, send_ready, sent_length,
};
use crate::text::{copy_range, same_text};
use crate::wire::{
    advance, eof, get_u32, push_u32, u32_at, u32_field, u32_le, ReadError,
};

verus! {

/// The size of the image.
pub const WIDTH: u32 = 256;

/// See [`WIDTH`].
pub const HEIGHT: u32 = 256;

/// What a consumer sends. Coordinates are in pixels from the top left, as the bits of
/// `f32`s.
#[derive(Clone, Copy, Debug, PartialEq, Eq, Structural)]
pub enum Input {
    PointerMove { x_bits: u32, y_bits: u32 },
    Button { button: u8, pressed: bool },
    Key { keyval: u32, pressed: bool },
    Scroll { dx_bits: u32, dy_bits: u32 },
}

/// A flag as it is sent.
pub open spec fn flag(set: bool) -> u8 {
    if set {
        1
    } else {
        0
    }
}

/// An input as it is sent.
pub open spec fn input_bytes(input: Input) -> Seq<u8> {
    match input {
        Input::PointerMove { x_bits, y_bits } => seq![0x01u8] + u32_le(x_bits) + u32_le(y_bits),
        Input::Button { button, pressed } => seq![0x02u8, button, flag(pressed)],
        Input::Key { keyval, pressed } => seq![0x03u8] + u32_le(keyval) + seq![flag(pressed)],
        Input::Scroll { dx_bits, dy_bits } => seq![0x04u8] + u32_le(dx_bits) + u32_le(dy_bits),
    }
}

/// An input of `size` bytes, if they are all there.
pub open spec fn sized(bytes: Seq<u8>, size: int, input: Input) -> Result<(Input, int), ReadError> {
    if bytes.len() < size {
        Err(eof(bytes.len() as int, size))
    } else {
        Ok((input, size))
    }
}

/// The input at the front of `bytes` and its length.
pub open spec fn received_input(bytes: Seq<u8>) -> Result<(Input, int), ReadError> {
    if bytes.len() == 0 {
        Err(eof(0, 1))
    } else if bytes[0] == 0x01 {
        sized(
            bytes,
            9,
            Input::PointerMove { x_bits: u32_at(bytes, 1), y_bits: u32_at(bytes, 5) },
        )
    } else if bytes[0] == 0x02 {
        sized(bytes, 3, Input::Button { button: bytes[1], pressed: bytes[2] != 0 })
    } else if bytes[0] == 0x03 {
        sized(bytes, 6, Input::Key { keyval: u32_at(bytes, 1), pressed: bytes[5] != 0 })
    } else if bytes[0] == 0x04 {
        sized(bytes, 9, Input::Scroll { dx_bits: u32_at(bytes, 1), dy_bits: u32_at(bytes, 5) })
    } else {
        Err(ReadError::BadTag { tag: bytes[0] })
    }
}

impl Input {
    /// Appends the input.
    pub fn write(&self, out: &mut Vec<u8>)
        ensures
            final(out)@ == old(out)@ + input_bytes(*self),
    {
        match *self {
            Input::PointerMove { x_bits, y_bits } => {
                out.push(0x01);
                push_u32(out, x_bits);
                push_u32(out, y_bits);
            },
            Input::Button { button, pressed } => {
                out.push(0x02);
                out.push(button);
                out.push(if pressed {
                    1
                } else {
                    0
                });
            },
            Input::Key { keyval, pressed } => {
                out.push(0x03);
                push_u32(out, keyval);
                out.push(if pressed {
                    1
                } else {
                    0
                });
            },
            Input::Scroll { dx_bits, dy_bits } => {
                out.push(0x04);
                push_u32(out, dx_bits);
                push_u32(out, dy_bits);
            },
        }
        assert(out@ =~= old(out)@ + input_bytes(*self));
    }

    fn decode(bytes: &[u8]) -> (result: Result<(Input, usize), ReadError>)
        ensures
            match result {
                Ok((input, length)) => received_input(bytes@) == Ok::<(Input, int), ReadError>(
                    (input, length as int),
                ),
                Err(error) => received_input(bytes@) == Err::<(Input, int), ReadError>(error),
            },
    {
        let have: usize = bytes.len();
        if have == 0 {
            return Err(ReadError::UnexpectedEof { missing: 1 });
        }
        let tag: u8 = bytes[0];
        let size: usize = if tag == 0x01 || tag == 0x04 {
            9
        } else if tag == 0x02 {
            3
        } else if tag == 0x03 {
            6
        } else {
            return Err(ReadError::BadTag { tag });
        };
        if have < size {
            return Err(ReadError::UnexpectedEof { missing: size - have });
        }
        let input = if tag == 0x01 {
            Input::PointerMove { x_bits: get_u32(bytes, 1), y_bits: get_u32(bytes, 5) }
        } else if tag == 0x02 {
            Input::Button { button: bytes[1], pressed: bytes[2] != 0 }
        } else if tag == 0x03 {
            Input::Key { keyval: get_u32(bytes, 1), pressed: bytes[5] != 0 }
        } else {
            Input::Scroll { dx_bits: get_u32(bytes, 1), dy_bits: get_u32(bytes, 5) }
        };
        Ok((input, size))
    }

    /// Reads an input: the reader moves past it, or past a tag that nobody knows. Where
    /// the input's bytes are not all there the reader stays.
    pub fn read(reader: &mut &[u8]) -> (result: Result<Input, ReadError>)
        ensures
            match received_input(old(reader)@) {
                Ok((input, length)) => {
                    &&& result == Ok::<Input, ReadError>(input)
                    &&& final(reader)@ == old(reader)@.skip(length)
                },
                Err(error) => {
                    &&& result == Err::<Input, ReadError>(error)
                    &&& final(reader)@ == if error is BadTag {
                        old(reader)@.skip(1)
                    } else {
                        old(reader)@
                    }
                },
            },
    {
        match Input::decode(*reader) {
            Ok((input, length)) => {
                advance(reader, length);
                Ok(input)
            },
            Err(error) => {
                if let ReadError::BadTag { .. } = error {
                    advance(reader, 1);
                }
                Err(error)
            },
        }
    }
}

/// What was sent is what is received, whatever follows it.
pub proof fn input_round_trip(input: Input, rest: Seq<u8>)
    ensures
        received_input(input_bytes(input) + rest) == Ok::<(Input, int), ReadError>(
            (input, input_bytes(input).len() as int),
        ),
{
    let bytes = input_bytes(input) + rest;
    match input {
        Input::PointerMove { x_bits, y_bits } => {
            assert(bytes.subrange(1, 5) =~= u32_le(x_bits));
            assert(bytes.subrange(5, 9) =~= u32_le(y_bits));
            u32_field(bytes, 1, x_bits);
            u32_field(bytes, 5, y_bits);
        },
        Input::Button { .. } => {},
        Input::Key { keyval, .. } => {
            assert(bytes.subrange(1, 5) =~= u32_le(keyval));
            u32_field(bytes, 1, keyval);
        },
        Input::Scroll { dx_bits, dy_bits } => {
            assert(bytes.subrange(1, 5) =~= u32_le(dx_bits));
            assert(bytes.subrange(5, 9) =~= u32_le(dy_bits));
            u32_field(bytes, 1, dx_bits);
            u32_field(bytes, 5, dy_bits);
        },
    }
}

/// A frame that was copied over the socket.
#[derive(Debug)]
pub struct Frame {
    pub width: u32,
    pub height: u32,
    pub stride: u32,
    pub data: Vec<u8>,
}

/// What a frame holds.
#[verifier::ext_equal]
pub struct FrameView {
    pub width: u32,
    pub height: u32,
    pub stride: u32,
    pub data: Seq<u8>,
}

impl View for Frame {
    type V = FrameView;

    open spec fn view(&self) -> FrameView {
        FrameView {
            width: self.width,
            height: self.height,
            stride: self.stride,
            data: self.data@,
        }
    }
}

/// Whether bytes start with a frame's magic.
pub open spec fn starts_a_frame(bytes: Seq<u8>) -> bool {
    bytes[0] == 'F' as u8 && bytes[1] == 'R' as u8 && bytes[2] == 'A' as u8 && bytes[3]
        == 'M' as u8
}

/// The frame at the front of `bytes` and its length.
pub open spec fn received_frame(bytes: Seq<u8>) -> Result<(FrameView, int), ReadError> {
    let have = bytes.len() as int;
    let end = 20 + u32_at(bytes, 16) as int;
    if have < 4 {
        Err(eof(have, 4))
    } else if !starts_a_frame(bytes) {
        Err(ReadError::BadMagic)
    } else if have < 20 {
        Err(eof(have, 20))
    } else if have < end {
        Err(eof(have, end))
    } else {
        Ok(
            (
                FrameView {
                    width: u32_at(bytes, 4),
                    height: u32_at(bytes, 8),
                    stride: u32_at(bytes, 12),
                    data: bytes.subrange(20, end),
                },
                end,
            ),
        )
    }
}

/// Reads a frame: the reader moves past it, or past four bytes that name no frame. Where
/// the frame's bytes are not all there the reader stays.
pub fn read_frame(reader: &mut &[u8]) -> (result: Result<Frame, ReadError>)
    ensures
        match received_frame(old(reader)@) {
            Ok((view, length)) => {
                &&& result matches Ok(frame) && frame@ == view
                &&& final(reader)@ == old(reader)@.skip(length)
            },
            Err(error) => {
                &&& result == Err::<Frame, ReadError>(error)
                &&& final(reader)@ == if error is BadMagic {
                    old(reader)@.skip(4)
                } else {
                    old(reader)@
                }
            },
        },
{
    let bytes: &[u8] = *reader;
    let have: usize = bytes.len();
    if have < 4 {
        return Err(ReadError::UnexpectedEof { missing: 4 - have });
    }
    if bytes[0] != 'F' as u8 || bytes[1] != 'R' as u8 || bytes[2] != 'A' as u8 || bytes[3]
        != 'M' as u8 {
        advance(reader, 4);
        return Err(ReadError::BadMagic);
    }
    if have < 20 {
        return Err(ReadError::UnexpectedEof { missing: 20 - have });
    }
    let length: usize = get_u32(bytes, 16) as usize;
    if have - 20 < length {
        return Err(ReadError::UnexpectedEof { missing: length - (have - 20) });
    }
    let frame = Frame {
        width: get_u32(bytes, 4),
        height: get_u32(bytes, 8),
        stride: get_u32(bytes, 12),
        data: copy_range(bytes, 20, 20 + length),
    };
    advance(reader, 20 + length);
    Ok(frame)
}

/// What was sent as a frame is what is received, whatever follows it, as long as its
/// length fits the field for it.
pub proof fn frame_round_trip(width: u32, height: u32, stride: u32, data: Seq<u8>, rest: Seq<u8>)
    requires
        data.len() <= u32::MAX,
    ensures
        received_frame(frame_message(width, height, stride, data) + rest) == Ok::<
            (FrameView, int),
            ReadError,
        >((FrameView { width, height, stride, data }, (20 + data.len()) as int)),
{
    let bytes = frame_message(width, height, stride, data) + rest;
    let length = sent_length(data.len());
    assert(bytes.subrange(4, 8) =~= u32_le(width));
    assert(bytes.subrange(8, 12) =~= u32_le(height));
    assert(bytes.subrange(12, 16) =~= u32_le(stride));
    assert(bytes.subrange(16, 20) =~= u32_le(length));
    u32_field(bytes, 4, width);
    u32_field(bytes, 8, height);
    u32_field(bytes, 12, stride);
    u32_field(bytes, 16, length);
    assert(bytes.subrange(20, (20 + data.len()) as int) =~= data);
}

/// The notice that a buffer as large as the image holds a finished frame.
pub open spec fn frame_ready(index: u32) -> Seq<u8> {
    ready_message(index, WIDTH, HEIGHT)
}

/// Appends the notice that a buffer holds a finished frame. Buffers are as large as the
/// image.
pub fn send_frame_ready(out: &mut Vec<u8>, index: u32)
    ensures
        final(out)@ == old(out)@ + frame_ready(index),
{
    send_ready(out, index, WIDTH, HEIGHT);
}

/// The index in the notice at the front of `bytes`, and the notice's length.
pub open spec fn received_ready(bytes: Seq<u8>) -> Result<(u32, int), ReadError> {
    let have = bytes.len() as int;
    if have < 4 {
        Err(eof(have, 4))
    } else if bytes.take(4) != magic('R', 'D', 'Y', '!') {
        Err(ReadError::BadMagic)
    } else if have < 16 {
        Err(eof(have, 16))
    } else {
        Ok((u32_at(bytes, 4), 16))
    }
}

/// Reads a notice and returns its index; its size is not looked at. The reader moves past
/// the notice, or past four bytes that name none. Where the notice's bytes are not all
/// there the reader stays.
pub fn read_ready(reader: &mut &[u8]) -> (result: Result<u32, ReadError>)
    ensures
        match received_ready(old(reader)@) {
            Ok((index, length)) => {
                &&& result == Ok::<u32, ReadError>(index)
                &&& final(reader)@ == old(reader)@.skip(length)
            },
            Err(error) => {
                &&& result == Err::<u32, ReadError>(error)
                &&& final(reader)@ == if error is BadMagic {
                    old(reader)@.skip(4)
                } else {
                    old(reader)@
                }
            },
        },
{
    let bytes: &[u8] = *reader;
    let have: usize = bytes.len();
    if have < 4 {
        return Err(ReadError::UnexpectedEof { missing: 4 - have });
    }
    if bytes[0] != 'R' as u8 || bytes[1] != 'D' as u8 || bytes[2] != 'Y' as u8 || bytes[3]
        != '!' as u8 {
        assert(bytes@.take(4)[0] == bytes@[0]);
        assert(bytes@.take(4)[1] == bytes@[1]);
        assert(bytes@.take(4)[2] == bytes@[2]);
        assert(bytes@.take(4)[3] == bytes@[3]);
        advance(reader, 4);
        return Err(ReadError::BadMagic);
    }
    assert(bytes@.take(4) =~= magic('R', 'D', 'Y', '!'));
    if have < 16 {
        return Err(ReadError::UnexpectedEof { missing: 16 - have });
    }
    let index: u32 = get_u32(bytes, 4);
    advance(reader, 16);
    Ok(index)
}

/// A consumer reads the index that the producer wrote, and what follows the notice is
/// left for the next one.
pub proof fn ready_round_trip(index: u32, width: u32, height: u32, rest: Seq<u8>)
    ensures
        received_ready(ready_message(index, width, height) + rest) == Ok::<(u32, int), ReadError>(
            (index, 16),
        ),
        (ready_message(index, width, height) + rest).skip(16) == rest,
{
    let bytes = ready_message(index, width, height) + rest;
    assert(bytes.take(4) =~= magic('R', 'D', 'Y', '!'));
    assert(bytes.subrange(4, 8) =~= u32_le(index));
    u32_field(bytes, 4, index);
    assert(bytes.skip(16) =~= rest);
}

/// Notices that were sent one after the other.
pub open spec fn notices(indices: Seq<u32>) -> Seq<u8>
    decreases indices.len(),
{
    if indices.len() == 0 {
        seq![]
    } else {
        ready_message(indices[0], WIDTH, HEIGHT) + notices(indices.skip(1))
    }
}

/// What is left of notices once the first `count` were read.
pub open spec fn left_after(bytes: Seq<u8>, count: nat) -> Seq<u8>
    decreases count,
{
    match received_ready(bytes) {
        Ok((_, length)) if count > 0 => left_after(bytes.skip(length), (count - 1) as nat),
        _ => bytes,
    }
}

/// A consumer never loses step: however many notices it has read, the next one it reads
/// is the next one that was sent.
pub proof fn notices_are_read_one_after_the_other(indices: Seq<u32>, count: nat)
    requires
        count < indices.len(),
    ensures
        received_ready(left_after(notices(indices), count)) == Ok::<(u32, int), ReadError>(
            (indices[count as int], 16),
        ),
    decreases count,
{
    ready_round_trip(indices[0], WIDTH, HEIGHT, notices(indices.skip(1)));
    if count > 0 {
        notices_are_read_one_after_the_other(indices.skip(1), (count - 1) as nat);
    }
}

/// What the program is asked to do.
#[derive(Clone, Copy, Debug, PartialEq, Eq, Structural)]
pub enum Mode {
    /// Render one frame, read it back and print a pixel.
    Once,
    /// Serve copied frames.
    Producer,
    /// Connect to a producer and check that the triangle follows the pointer.
    Probe,
    /// Export a buffer, render into it and check a pixel.
    DmabufOnce,
    /// Serve shared buffers.
    DmabufProducer,
    /// The same check on shared buffers.
    DmabufProbe,
}

/// The mode that an argument names; without one a frame is rendered once.
pub open spec fn mode_spec(argument: Option<Seq<char>>) -> Option<Mode> {
    match argument {
        None => Some(Mode::Once),
        Some(name) => if name == "once"@ {
            Some(Mode::Once)
        } else if name == "producer"@ {
            Some(Mode::Producer)
        } else if name == "probe"@ {
            Some(Mode::Probe)
        } else if name == "dmabuf-once"@ {
            Some(Mode::DmabufOnce)
        } else if name == "dmabuf-producer"@ {
            Some(Mode::DmabufProducer)
        } else if name == "dmabuf-probe"@ {
            Some(Mode::DmabufProbe)
        } else {
            None
        },
    }
}

/// The mode that an argument names, if it names one.
pub fn parse_mode(argument: Option<&str>) -> (mode: Option<Mode>)
    ensures
        mode == mode_spec(
            match argument {
                Some(name) => Some(name@),
                None => None,
            },
        ),
{
    let name: &str = match argument {
        Some(name) => name,
        None => return Some(Mode::Once),
    };
    if same_text(name, "once") {
        Some(Mode::Once)
    } else if same_text(name, "producer") {
        Some(Mode::Producer)
    } else if same_text(name, "probe") {
        Some(Mode::Probe)
    } else if same_text(name, "dmabuf-once") {
        Some(Mode::DmabufOnce)
    } else if same_text(name, "dmabuf-producer") {
        Some(Mode::DmabufProducer)
    } else if same_text(name, "dmabuf-probe") {
        Some(Mode::DmabufProbe)
    } else {
        None
    }
}

/// A pixel.
#[derive(Clone, Copy, Debug, PartialEq, Eq, Structural)]
pub struct Pixel {
    pub red: u8,
    pub green: u8,
    pub blue: u8,
    pub alpha: u8,
}

impl Pixel {
    /// Whether the pixel is about as orange as the triangle.
    pub open spec fn orange(self) -> bool {
        self.red > 180 && 60 < self.green < 160 && self.blue < 90
    }

    /// Whether the pixel shows the triangle.
    pub fn is_orange(self) -> (orange: bool)
        ensures
            orange == self.orange(),
    {
        self.red > 180 && self.green > 60 && self.green < 160 && self.blue < 90
    }
}

/// The pixel whose four bytes start at `at`.
pub open spec fn pixel_spec(bytes: Seq<u8>, at: int) -> Pixel {
    Pixel { red: bytes[at], green: bytes[at + 1], blue: bytes[at + 2], alpha: bytes[at + 3] }
}

fn pixel_at(bytes: &[u8], at: usize) -> (pixel: Pixel)
    requires
        at + 4 <= bytes.len(),
    ensures
        pixel == pixel_spec(bytes@, at as int),
{
    Pixel { red: bytes[at], green: bytes[at + 1], blue: bytes[at + 2], alpha: bytes[at + 3] }
}

/// The pixel at a place in an image without padding.
pub open spec fn image_pixel_spec(data: Seq<u8>, width: u32, x: u32, y: u32) -> Pixel {
    pixel_spec(data, (y * width + x) * 4)
}

/// The pixel at a place in an image without padding.
pub fn image_pixel(data: &[u8], width: u32, x: u32, y: u32) -> (pixel: Pixel)
    requires
        y * width + x <= u32::MAX,
        (y * width + x) * 4 + 4 <= data.len(),
    ensures
        pixel == image_pixel_spec(data@, width, x, y),
{
    assert(y * width >= 0) by (nonlinear_arith)
        requires
            y >= 0,
            width >= 0,
    ;
    let index: usize = (y * width + x) as usize;
    pixel_at(data, index * 4)
}

/// An image that was copied out of its texture, without the padding.
pub open spec fn unpadded(mapped: Seq<u8>) -> Seq<u8> {
    packed(mapped, 0, padded_row_spec(WIDTH), WIDTH * 4, HEIGHT as int)
}

/// Takes the padding out of an image that was copied out of its texture.
pub fn unpad_image(mapped: &[u8]) -> (image: Vec<u8>)
    requires
        mapped.len() >= padded_row_spec(WIDTH) * HEIGHT,
    ensures
        image@ == unpadded(mapped@),
{
    let stride: u32 = padded_row(WIDTH);
    proof {
        padded_rows_are_tight(WIDTH);
        assert forall|row: int| 0 <= row < HEIGHT implies 0 + #[trigger] (row * stride) + WIDTH * 4
            <= mapped.len() by {
            assert(row * stride + stride <= stride * HEIGHT) by (nonlinear_arith)
                requires
                    0 <= row < HEIGHT,
                    stride >= 0,
            ;
        }
    }
    pack_rows(mapped, 0, stride as usize, (WIDTH * 4) as usize, HEIGHT as usize)
}

/// How many bytes of a shared buffer to map.
pub open spec fn mapped_length_spec(info: DmabufInfo) -> int {
    info.offset + info.stride * info.height
}

/// How many bytes of a shared buffer to map.
pub fn mapped_length(info: &DmabufInfo) -> (length: usize)
    requires
        info.offset + info.stride * info.height <= u32::MAX,
    ensures
        length == mapped_length_spec(*info),
{
    assert(info.stride * info.height >= 0) by (nonlinear_arith)
        requires
            info.stride >= 0,
            info.height >= 0,
    ;
    (info.offset + info.stride * info.height) as usize
}

/// The pixel at a place in a shared buffer that is mapped as `bytes`.
pub open spec fn shared_pixel(bytes: Seq<u8>, info: DmabufInfo, x: u32, y: u32) -> Pixel {
    pixel_spec(bytes, info.offset + y * info.stride + x * 4)
}

/// The pixel at a place in a shared buffer that is mapped as `bytes`.
pub fn read_dmabuf_pixel(bytes: &[u8], info: &DmabufInfo, x: u32, y: u32) -> (pixel: Pixel)
    requires
        info.offset + y * info.stride + x * 4 + 4 <= bytes.len(),
    ensures
        pixel == shared_pixel(bytes@, *info, x, y),
{
    assert(y * info.stride >= 0) by (nonlinear_arith)
        requires
            y >= 0,
            info.stride >= 0,
    ;
    let row: usize = y as usize * info.stride as usize;
    pixel_at(bytes, info.offset as usize + row + x as usize * 4)
}

/// A place within the image has its pixel within the mapped bytes.
pub proof fn pixels_lie_within_the_mapping(info: DmabufInfo, x: u32, y: u32)
    requires
        x < info.width,
        y < info.height,
        info.width * 4 <= info.stride,
    ensures
        info.offset + y * info.stride + x * 4 + 4 <= info.offset + info.stride * info.height,
{
    assert(y * info.stride + info.stride <= info.stride * info.height) by (nonlinear_arith)
        requires
            y + 1 <= info.height,
            info.stride >= 0,
    ;
}

/// A check whether the triangle arrives where the pointer was moved: how many frames
/// were looked at.
#[derive(Clone, Copy, Debug, PartialEq, Eq, Structural)]
pub struct Probe {
    pub frames: u32,
}

impl Probe {
    /// No frame yet.
    pub fn new() -> (probe: Probe)
        ensures
            probe == (Probe { frames: 0 }),
    {
        Probe { frames: 0 }
    }

    /// Looks at the pixel of one more frame; says whether the triangle is there.
    pub fn look(&mut self, pixel: Pixel) -> (arrived: bool)
        requires
            old(self).frames < u32::MAX,
        ensures
            final(self).frames == old(self).frames + 1,
            arrived == pixel.orange(),
    {
        self.frames = self.frames + 1;
        pixel.is_orange()
    }
}

/// The buffer that the next frame goes into.
pub open spec fn other(index: usize) -> usize {
    (1 - index) as usize
}

/// The buffer that the next frame goes into.
pub fn other_buffer(index: usize) -> (other: usize)
    requires
        index < 2,
    ensures
        other == self::other(index),
{
    1 - index
}

/// Where the triangle is after an input.
pub open spec fn followed(pointer: (u32, u32), input: Input) -> (u32, u32) {
    match input {
        Input::PointerMove { x_bits, y_bits } => (x_bits, y_bits),
        _ => pointer,
    }
}

/// Where the triangle goes: where the pointer was moved last.
pub fn follow(pointer: &mut (u32, u32), input: Input)
    ensures
        *final(pointer) == followed(*old(pointer), input),
{
    if let Input::PointerMove { x_bits, y_bits } = input {
        *pointer = (x_bits, y_bits);
    }
}

/// A pixel is read as its four bytes, red first and alpha last, wherever they stand.
pub proof fn a_pixel_is_its_four_bytes(before: Seq<u8>, pixel: Pixel, after: Seq<u8>)
    ensures
        pixel_spec(
            before + seq![pixel.red, pixel.green, pixel.blue, pixel.alpha] + after,
            before.len() as int,
        ) == pixel,
{
}

/// The triangle's orange is seen and the background is not, within what a renderer may be
/// off: strong red, some green, little blue, and whatever alpha.
pub proof fn the_triangle_stands_out(pixel: Pixel, alpha: u8)
    ensures
        205 <= pixel.red && 90 <= pixel.green <= 130 && pixel.blue <= 60 ==> pixel.orange(),
        pixel.red <= 100 ==> !pixel.orange(),
        pixel.orange() <==> 181 <= pixel.red && 61 <= pixel.green <= 159 && pixel.blue <= 89,
        (Pixel { alpha, ..pixel }).orange() == pixel.orange(),
{
}

/// A frame that is cut short is incomplete, and what is said to be missing is not more than
/// was cut off: the name, then the rest of the head, then the bytes.
#[verifier::rlimit(50)]
pub proof fn a_cut_frame_is_incomplete(
    width: u32,
    height: u32,
    stride: u32,
    data: Seq<u8>,
    cut: int,
)
    requires
        data.len() <= u32::MAX,
        0 <= cut < 20 + data.len(),
    ensures
        received_frame(frame_message(width, height, stride, data).take(cut)) == Err::<
            (FrameView, int),
            ReadError,
        >(
            ReadError::UnexpectedEof {
                missing: (if cut < 4 {
                    4 - cut
                } else if cut < 20 {
                    20 - cut
                } else {
                    20 + data.len() - cut
                }) as usize,
            },
        ),
{
    let whole = frame_message(width, height, stride, data);
    let part = whole.take(cut);
    let length = sent_length(data.len());
    assert(whole.subrange(16, 20) =~= u32_le(length));
    u32_field(whole, 16, length);
    if cut >= 4 {
        assert(starts_a_frame(part));
        if cut >= 20 {
            assert(u32_at(part, 16) == u32_at(whole, 16));
        }
    }
}

/// An input that is cut short is missing exactly what was cut off, once its tag is there.
#[verifier::rlimit(50)]
pub proof fn a_cut_input_is_incomplete(input: Input, cut: int)
    requires
        0 < cut < input_bytes(input).len(),
    ensures
        received_input(input_bytes(input).take(cut)) == Err::<(Input, int), ReadError>(
            ReadError::UnexpectedEof { missing: (input_bytes(input).len() - cut) as usize },
        ),
{
    assert(input_bytes(input).take(cut)[0] == input_bytes(input)[0]);
}

/// Other tags than the four are refused, and any flag but zero is a press.
pub proof fn flags_and_tags_of_the_demo(bytes: Seq<u8>)
    ensures
        bytes.len() > 0 ==> (received_input(bytes) matches Err(ReadError::BadTag { tag }) <==> !(1
            <= bytes[0] <= 4)),
        bytes.len() >= 3 && bytes[0] == 2 ==> received_input(bytes) == Ok::<(Input, int), ReadError>(
            (Input::Button { button: bytes[1], pressed: bytes[2] != 0 }, 3),
        ),
        bytes.len() >= 6 && bytes[0] == 3 ==> (received_input(bytes) matches Ok(
            (Input::Key { pressed, .. }, length),
        ) && length == 6 && pressed == (bytes[5] != 0)),
{
}

/// Every mode has a name of its own, and no other name has a mode; to name none is to render
/// once.
#[verifier::rlimit(50)]
pub proof fn modes_have_names(name: Seq<char>)
    ensures
        mode_spec(None) == Some(Mode::Once),
        mode_spec(Some(name)) == Some(Mode::Once) <==> name == "once"@,
        mode_spec(Some(name)) == Some(Mode::Producer) <==> name == "producer"@,
        mode_spec(Some(name)) == Some(Mode::Probe) <==> name == "probe"@,
        mode_spec(Some(name)) == Some(Mode::DmabufOnce) <==> name == "dmabuf-once"@,
        mode_spec(Some(name)) == Some(Mode::DmabufProducer) <==> name == "dmabuf-producer"@,
        mode_spec(Some(name)) == Some(Mode::DmabufProbe) <==> name == "dmabuf-probe"@,
{
    reveal_strlit("once");
    reveal_strlit("producer");
    reveal_strlit("probe");
    reveal_strlit("dmabuf-once");
    reveal_strlit("dmabuf-producer");
    reveal_strlit("dmabuf-probe");
    assert("once"@.len() == 4 && "producer"@.len() == 8 && "probe"@.len() == 5);
    assert("dmabuf-once"@.len() == 11 && "dmabuf-producer"@.len() == 15);
    assert("dmabuf-probe"@.len() == 12);
}

/// The notice of a frame says which buffer it is in, and that it is 256 pixels wide and high.
pub proof fn a_frame_is_as_large_as_the_image(index: u32)
    ensures
        frame_ready(index).len() == 16,
        u32_at(frame_ready(index), 4) == index,
        u32_at(frame_ready(index), 8) == 256,
        u32_at(frame_ready(index), 12) == 256,
{
    notices_read_back(index, WIDTH, HEIGHT);
}

/// A pixel of a row is that of the image: rows follow one another without padding.
pub proof fn an_image_is_its_rows(data: Seq<u8>, width: u32, x: u32, y: u32)
    requires
        x < width,
        (y + 1) * width * 4 <= data.len(),
    ensures
        image_pixel_spec(data, width, x, y) == pixel_spec(
            data.subrange(y * width * 4, (y + 1) * width * 4),
            x * 4,
        ),
{
    assert(y * width * 4 + width * 4 == (y + 1) * width * 4 && 0 <= y * width * 4 && (y * width + x)
        * 4 == y * width * 4 + x * 4) by (nonlinear_arith)
        requires
            y >= 0,
            width >= 0,
    ;
}

/// A pixel that is read in place in a shared buffer is the one in the image that the buffer
/// holds.
pub proof fn a_shared_pixel_is_that_of_the_image(bytes: Seq<u8>, info: DmabufInfo, x: u32, y: u32)
    requires
        x < info.width,
        y < info.height,
    ensures
        shared_pixel(bytes, info, x, y) == image_pixel_spec(
            mapped_image(info, bytes),
            info.width,
            x,
            y,
        ),
{
    a_mapped_pixel_lies_where_the_geometry_says(info, bytes, x, y, 0);
    a_mapped_pixel_lies_where_the_geometry_says(info, bytes, x, y, 1);
    a_mapped_pixel_lies_where_the_geometry_says(info, bytes, x, y, 2);
    a_mapped_pixel_lies_where_the_geometry_says(info, bytes, x, y, 3);
}

/// As much of a buffer is mapped as its rows take: the last row ends where the mapping does,
/// and a row more is a stride more.
pub proof fn the_mapping_ends_with_the_last_row(info: DmabufInfo)
    requires
        info.height > 0,
    ensures
        mapped_length_spec(info) == info.offset + (info.height - 1) * info.stride + info.stride,
        info.stride > 0 ==> mapped_length_spec(info) > info.offset,
{
    assert(info.stride * info.height == (info.height - 1) * info.stride + info.stride)
        by (nonlinear_arith);
    if info.stride > 0 {
        assert((info.height - 1) * info.stride >= 0) by (nonlinear_arith)
            requires
                info.height >= 1,
                info.stride >= 0,
        ;
    }
}

/// Rows of 256 pixels need no padding: the image is what was copied out of the texture.
pub proof fn the_image_is_what_was_copied(mapped: Seq<u8>, at: int)
    requires
        mapped.len() == 256 * 256 * 4,
        0 <= at < mapped.len(),
    ensures
        unpadded(mapped).len() == mapped.len(),
        unpadded(mapped)[at] == mapped[at],
{
    padded_rows_are_tight(WIDTH);
    assert(padded_row_spec(WIDTH) == 1024);
    packed_rows_are_the_rows(mapped, 0, 1024, 1024, 256, at / 1024, at % 1024);
}

/// Buffers take turns, and there are two.
pub proof fn the_other_buffer_is_another(index: usize)
    requires
        index < 2,
    ensures
        self::other(index) < 2,
        self::other(index) != index,
        self::other(self::other(index)) == index,
{
}

/// The triangle is where the pointer was moved last, and nothing else moves it.
pub proof fn only_the_pointer_moves_the_triangle(pointer: (u32, u32), input: Input)
    ensures
        input matches Input::PointerMove { x_bits, y_bits } ==> followed(pointer, input).0 == x_bits
            && followed(pointer, input).1 == y_bits,
        !(input is PointerMove) ==> followed(pointer, input) == pointer,
{
}

/// A press is sent as a one and a release as a zero, behind the button or the key.
pub proof fn a_press_is_sent_as_a_one(button: u8, keyval: u32, pressed: bool)
    ensures
        input_bytes(Input::Button { button, pressed }) == seq![
            2u8,
            button,
            if pressed {
                1u8
            } else {
                0u8
            },
        ],
        input_bytes(Input::Key { keyval, pressed }).len() == 6,
        input_bytes(Input::Key { keyval, pressed })[0] == 3,
        input_bytes(Input::Key { keyval, pressed })[5] == if pressed {
            1u8
        } else {
            0u8
        },
{
}

/// A notice that is cut short is incomplete, and what is said to be missing is not more than
/// was cut off: the name, then the rest. Four bytes that are no notice's name are refused.
#[verifier::rlimit(50)]
pub proof fn a_cut_notice_is_incomplete(
    index: u32,
    width: u32,
    height: u32,
    cut: int,
    name: Seq<u8>,
    rest: Seq<u8>,
)
    requires
        0 <= cut < 16,
        name.len() == 4,
        name != seq![0x52u8, 0x44u8, 0x59u8, 0x21u8],
    ensures
        received_ready(ready_message(index, width, height).take(cut)) == Err::<
            (u32, int),
            ReadError,
        >(
            ReadError::UnexpectedEof {
                missing: (if cut < 4 {
                    4 - cut
                } else {
                    16 - cut
                }) as usize,
            },
        ),
        received_ready(name + rest) == Err::<(u32, int), ReadError>(ReadError::BadMagic),
{
    let part = ready_message(index, width, height).take(cut);
    if cut >= 4 {
        assert(part.take(4) =~= magic('R', 'D', 'Y', '!'));
    }
    assert((name + rest).take(4) =~= name);
    assert(magic('R', 'D', 'Y', '!') =~= seq![0x52u8, 0x44u8, 0x59u8, 0x21u8]);
}

} // verus!
