//! The messages between a producer and its consumer, apart from input.
//!
//! Every message starts with four bytes that name it. A producer assembles each
//! into one buffer, so that nothing can come between its parts.

use vstd::prelude::*;
use vstd::utf8::{
    decode_utf8, encode_utf8, encode_utf8_decode_utf8, encode_utf8_valid_utf8, valid_utf8,
};

use crate::text::{fitting, fitting_length, fitting_text_is_the_longest};
use crate::wire::{
    push_bytes, push_u32, push_u64, u32_at, u32_field, u32_le, u64_at, u64_le,
};

verus! {

/// The longest title that is sent, in bytes.
pub const MAX_TITLE_BYTES: usize = 1024;

/// The longest cursor name that macOS and Windows send, in bytes.
pub const MAX_CURSOR_BYTES: usize = 64;

/// The four bytes that name a message.
pub open spec fn magic(a: char, b: char, c: char, d: char) -> Seq<u8> {
    seq![a as u8, b as u8, c as u8, d as u8]
}

/// A length as it is sent: its low 32 bits.
pub open spec fn sent_length(length: nat) -> u32 {
    (length % 0x1_0000_0000) as u32
}

/// The smaller of two lengths.
pub open spec fn at_most(length: nat, limit: nat) -> nat {
    if length <= limit {
        length
    } else {
        limit
    }
}

/// A whole frame's pixels: width, height, bytes per row, byte count and bytes.
pub open spec fn frame_message(width: u32, height: u32, stride: u32, data: Seq<u8>) -> Seq<u8> {
    magic('F', 'R', 'A', 'M') + u32_le(width) + u32_le(height) + u32_le(stride) + u32_le(
        sent_length(data.len()),
    ) + data
}

/// A finished frame in a shared buffer: which buffer, and the size of the part
/// of it to sample.
pub open spec fn ready_message(index: u32, width: u32, height: u32) -> Seq<u8> {
    magic('R', 'D', 'Y', '!') + u32_le(index) + u32_le(width) + u32_le(height)
}

/// The window's title: the longest beginning of it that takes at most
/// [`MAX_TITLE_BYTES`].
pub open spec fn title_message(title: Seq<char>) -> Seq<u8> {
    let bytes = encode_utf8(fitting(title, MAX_TITLE_BYTES as nat));
    magic('T', 'I', 'T', 'L') + u32_le(bytes.len() as u32) + bytes
}

/// Text copied inside the embed.
pub open spec fn clipboard_copy_message(text: Seq<char>) -> Seq<u8> {
    let bytes = encode_utf8(text);
    magic('C', 'L', 'I', 'P') + u32_le(sent_length(bytes.len())) + bytes
}

/// A cursor's name, cut off behind [`MAX_CURSOR_BYTES`].
pub open spec fn cursor_message(name: Seq<char>) -> Seq<u8> {
    let bytes = encode_utf8(name);
    let length = at_most(bytes.len(), MAX_CURSOR_BYTES as nat);
    magic('C', 'U', 'R', 'S') + seq![length as u8] + bytes.take(length as int)
}

/// A cursor's name as Linux sends it: in full, behind the low byte of its length.
pub open spec fn whole_cursor_message(name: Seq<char>) -> Seq<u8> {
    let bytes = encode_utf8(name);
    magic('C', 'U', 'R', 'S') + seq![(bytes.len() % 256) as u8] + bytes
}

/// The transport the frames will use: one byte, 1 for shared buffers.
pub open spec fn mode_message(zero_copy: bool) -> Seq<u8> {
    if zero_copy {
        seq![1u8]
    } else {
        seq![0u8]
    }
}

/// The surfaces of a macOS producer: the name of the service that hands them out,
/// how many there are, and their size.
pub open spec fn iosurface_message(
    service_name: Seq<char>,
    buffer_count: u32,
    max_width: u32,
    max_height: u32,
) -> Seq<u8> {
    let name = encode_utf8(service_name);
    magic('I', 'O', 'S', 'F') + u32_le(sent_length(name.len())) + name + u32_le(buffer_count)
        + u32_le(max_width) + u32_le(max_height)
}

/// The first shared texture of a Windows producer: its handle in the consumer, and
/// its size.
pub open spec fn shared_texture_message(handle: u64, width: u32, height: u32) -> Seq<u8> {
    magic('S', 'H', 'T', 'X') + u64_le(handle) + u32_le(width) + u32_le(height)
}

/// The second shared texture, and the fence on which frames complete: 0 where it
/// was sent before.
pub open spec fn shared_extra_message(handle: u64, fence: u64) -> Seq<u8> {
    magic('S', 'H', 'T', '2') + u64_le(handle) + u64_le(fence)
}

/// The value of the fence at which the frame announced next is complete.
pub open spec fn fence_value_message(value: u64) -> Seq<u8> {
    magic('F', 'N', 'C', 'V') + u64_le(value)
}

fn push_magic(out: &mut Vec<u8>, a: char, b: char, c: char, d: char)
    ensures
        final(out)@ == old(out)@ + magic(a, b, c, d),
{
    out.push(a as u8);
    out.push(b as u8);
    out.push(c as u8);
    out.push(d as u8);
    assert(out@ =~= old(out)@ + magic(a, b, c, d));
}

fn push_length(out: &mut Vec<u8>, length: usize)
    ensures
        final(out)@ == old(out)@ + u32_le(sent_length(length as nat)),
{
    push_u32(out, (length as u64 % 0x1_0000_0000) as u32);
}

/// Appends the byte that says which transport the frames will use. The consumer
/// reads it before any message.
pub fn send_mode(out: &mut Vec<u8>, zero_copy: bool)
    ensures
        final(out)@ == old(out)@ + mode_message(zero_copy),
{
    if zero_copy {
        out.push(1);
    } else {
        out.push(0);
    }
    assert(out@ =~= old(out)@ + mode_message(zero_copy));
}

/// Appends a frame with `stride` bytes per row.
pub fn write_frame(out: &mut Vec<u8>, width: u32, height: u32, stride: u32, data: &[u8])
    ensures
        final(out)@ == old(out)@ + frame_message(width, height, stride, data@),
{
    push_magic(out, 'F', 'R', 'A', 'M');
    push_u32(out, width);
    push_u32(out, height);
    push_u32(out, stride);
    push_length(out, data.len());
    push_bytes(out, data);
    assert(out@ =~= old(out)@ + frame_message(width, height, stride, data@));
}

/// A frame of four bytes per pixel without padding.
pub open spec fn embed_frame_message(width: u32, height: u32, data: Seq<u8>) -> Seq<u8> {
    frame_message(width, height, (width * 4) as u32, data)
}

/// Appends a frame of four bytes per pixel without padding.
pub fn write_embed_frame(out: &mut Vec<u8>, width: u32, height: u32, data: &[u8])
    requires
        width * 4 <= u32::MAX,
    ensures
        final(out)@ == old(out)@ + embed_frame_message(width, height, data@),
{
    write_frame(out, width, height, width * 4, data);
}

/// Appends the notice that a shared buffer holds a finished frame.
pub fn send_ready(out: &mut Vec<u8>, index: u32, width: u32, height: u32)
    ensures
        final(out)@ == old(out)@ + ready_message(index, width, height),
{
    push_magic(out, 'R', 'D', 'Y', '!');
    push_u32(out, index);
    push_u32(out, width);
    push_u32(out, height);
    assert(out@ =~= old(out)@ + ready_message(index, width, height));
}

/// Appends the window's title.
pub fn write_title(out: &mut Vec<u8>, title: &str)
    ensures
        final(out)@ == old(out)@ + title_message(title@),
{
    let bytes: &[u8] = title.as_bytes();
    let length: usize = fitting_length(title, MAX_TITLE_BYTES);
    proof {
        fitting_text_is_the_longest(title@, MAX_TITLE_BYTES as nat);
    }
    push_magic(out, 'T', 'I', 'T', 'L');
    push_u32(out, length as u32);
    push_bytes(out, vstd::slice::slice_subrange(bytes, 0, length));
    assert(bytes@.subrange(0, length as int) =~= bytes@.take(length as int));
    assert(out@ =~= old(out)@ + title_message(title@));
}

/// Appends text that was copied inside the embed.
pub fn write_clipboard(out: &mut Vec<u8>, text: &str)
    ensures
        final(out)@ == old(out)@ + clipboard_copy_message(text@),
{
    let bytes: &[u8] = text.as_bytes();
    push_magic(out, 'C', 'L', 'I', 'P');
    push_length(out, bytes.len());
    push_bytes(out, bytes);
    assert(out@ =~= old(out)@ + clipboard_copy_message(text@));
}

/// Appends a cursor's name, as Linux sends it.
pub fn write_cursor(out: &mut Vec<u8>, name: &str)
    ensures
        final(out)@ == old(out)@ + whole_cursor_message(name@),
{
    let bytes: &[u8] = name.as_bytes();
    push_magic(out, 'C', 'U', 'R', 'S');
    out.push((bytes.len() % 256) as u8);
    push_bytes(out, bytes);
    assert(out@ =~= old(out)@ + whole_cursor_message(name@));
}

/// Appends a cursor's name, as macOS and Windows send it.
pub fn send_cursor(out: &mut Vec<u8>, name: &str)
    ensures
        final(out)@ == old(out)@ + cursor_message(name@),
{
    let bytes: &[u8] = name.as_bytes();
    let length: usize = if bytes.len() < MAX_CURSOR_BYTES {
        bytes.len()
    } else {
        MAX_CURSOR_BYTES
    };
    push_magic(out, 'C', 'U', 'R', 'S');
    out.push(length as u8);
    push_bytes(out, vstd::slice::slice_subrange(bytes, 0, length));
    assert(bytes@.subrange(0, length as int) =~= bytes@.take(length as int));
    assert(out@ =~= old(out)@ + cursor_message(name@));
}

/// Appends what a consumer needs to find the surfaces of a macOS producer.
pub fn send_iosurface_handshake(
    out: &mut Vec<u8>,
    service_name: &str,
    buffer_count: u32,
    max_width: u32,
    max_height: u32,
)
    ensures
        final(out)@ == old(out)@ + iosurface_message(
            service_name@,
            buffer_count,
            max_width,
            max_height,
        ),
{
    let name: &[u8] = service_name.as_bytes();
    push_magic(out, 'I', 'O', 'S', 'F');
    push_length(out, name.len());
    push_bytes(out, name);
    push_u32(out, buffer_count);
    push_u32(out, max_width);
    push_u32(out, max_height);
    assert(out@ =~= old(out)@ + iosurface_message(
        service_name@,
        buffer_count,
        max_width,
        max_height,
    ));
}

/// A handle's bits as they are sent.
pub open spec fn handle_bits(handle: i64) -> u64 {
    if handle >= 0 {
        handle as u64
    } else {
        (handle + 0x1_0000_0000_0000_0000) as u64
    }
}

fn bits_of(handle: i64) -> (bits: u64)
    ensures
        bits == handle_bits(handle),
{
    if handle >= 0 {
        handle as u64
    } else {
        u64::MAX - (-(handle + 1)) as u64
    }
}

/// Appends the first shared texture of a Windows producer. Its length never
/// changes: the consumer reads it without one being sent.
pub fn send_shared_handshake(out: &mut Vec<u8>, handle: i64, width: u32, height: u32)
    ensures
        final(out)@ == old(out)@ + shared_texture_message(handle_bits(handle), width, height),
{
    push_magic(out, 'S', 'H', 'T', 'X');
    push_u64(out, bits_of(handle));
    push_u32(out, width);
    push_u32(out, height);
    assert(out@ =~= old(out)@ + shared_texture_message(handle_bits(handle), width, height));
}

/// Appends the second shared texture and the fence.
pub fn send_shared_extra(out: &mut Vec<u8>, handle: i64, fence: i64)
    ensures
        final(out)@ == old(out)@ + shared_extra_message(handle_bits(handle), handle_bits(fence)),
{
    push_magic(out, 'S', 'H', 'T', '2');
    push_u64(out, bits_of(handle));
    push_u64(out, bits_of(fence));
    assert(out@ =~= old(out)@ + shared_extra_message(handle_bits(handle), handle_bits(fence)));
}

/// Appends the value of the fence at which the frame announced next is complete.
pub fn send_fence_value(out: &mut Vec<u8>, value: u64)
    ensures
        final(out)@ == old(out)@ + fence_value_message(value),
{
    push_magic(out, 'F', 'N', 'C', 'V');
    push_u64(out, value);
    assert(out@ =~= old(out)@ + fence_value_message(value));
}

/// The lengths by which a consumer that has read four bytes knows how much follows:
/// the messages without a length of their own always have the same.
pub proof fn fixed_lengths(
    index: u32,
    width: u32,
    height: u32,
    handle: u64,
    fence: u64,
    value: u64,
)
    ensures
        ready_message(index, width, height).len() == 16,
        shared_texture_message(handle, width, height).len() == 20,
        shared_extra_message(handle, fence).len() == 20,
        fence_value_message(value).len() == 12,
{
}

/// A title message says its own length, which the limit bounds, and carries UTF-8: as
/// many of the title's characters as fit, and all of them where they do.
pub proof fn titles_are_bounded(title: Seq<char>)
    ensures
        title_message(title).len() <= 8 + MAX_TITLE_BYTES,
        u32_at(title_message(title), 4) == title_message(title).len() - 8,
        ({
            let kept = fitting(title, MAX_TITLE_BYTES as nat);
            let text = title_message(title).skip(8);
            &&& valid_utf8(text)
            &&& decode_utf8(text) == kept
            &&& kept == title.take(kept.len() as int)
            &&& kept.len() == title.len() || encode_utf8(title.take(kept.len() as int + 1)).len()
                > MAX_TITLE_BYTES
        }),
        encode_utf8(title).len() <= MAX_TITLE_BYTES ==> decode_utf8(title_message(title).skip(8))
            == title,
{
    let kept = fitting(title, MAX_TITLE_BYTES as nat);
    let bytes = encode_utf8(kept);
    fitting_text_is_the_longest(title, MAX_TITLE_BYTES as nat);
    encode_utf8_valid_utf8(kept);
    encode_utf8_decode_utf8(kept);
    assert(title_message(title).skip(8) =~= bytes);
    assert(title_message(title).subrange(4, 8) =~= u32_le(bytes.len() as u32));
    u32_field(title_message(title), 4, bytes.len() as u32);
}

/// A number of 32 bits where a consumer reads it, and what follows.
proof fn number_at(bytes: Seq<u8>, at: int, value: u32)
    requires
        0 <= at,
        at + 4 <= bytes.len(),
        bytes.subrange(at, at + 4) =~= u32_le(value),
    ensures
        u32_at(bytes, at) == value,
{
    u32_field(bytes, at, value);
}

proof fn long_number_at(bytes: Seq<u8>, at: int, value: u64)
    requires
        0 <= at,
        at + 8 <= bytes.len(),
        bytes.subrange(at, at + 8) =~= u64_le(value),
    ensures
        u64_at(bytes, at) == value,
{
    let low = (value % 0x1_0000_0000) as u32;
    let high = (value / 0x1_0000_0000) as u32;
    assert(bytes.subrange(at, at + 4) =~= u32_le(low)) by {
        assert forall|i: int| 0 <= i < 4 implies bytes[at + i] == u32_le(low)[i] by {
            assert(bytes.subrange(at, at + 8)[i] == u64_le(value)[i]);
        }
    }
    assert(bytes.subrange(at + 4, at + 8) =~= u32_le(high)) by {
        assert forall|i: int| 0 <= i < 4 implies bytes[at + 4 + i] == u32_le(high)[i] by {
            assert(bytes.subrange(at, at + 8)[4 + i] == u64_le(value)[4 + i]);
        }
    }
    u32_field(bytes, at, low);
    u32_field(bytes, at + 4, high);
}

/// Every message starts with the four letters of its name, and no two names are the same.
#[verifier::rlimit(50)]
pub proof fn messages_start_with_their_names(
    width: u32,
    height: u32,
    stride: u32,
    index: u32,
    data: Seq<u8>,
    text: Seq<char>,
    handle: u64,
    fence: u64,
)
    ensures
        frame_message(width, height, stride, data).take(4) == seq![0x46u8, 0x52u8, 0x41u8, 0x4Du8],
        ready_message(index, width, height).take(4) == seq![0x52u8, 0x44u8, 0x59u8, 0x21u8],
        title_message(text).take(4) == seq![0x54u8, 0x49u8, 0x54u8, 0x4Cu8],
        clipboard_copy_message(text).take(4) == seq![0x43u8, 0x4Cu8, 0x49u8, 0x50u8],
        cursor_message(text).take(4) == seq![0x43u8, 0x55u8, 0x52u8, 0x53u8],
        whole_cursor_message(text).take(4) == seq![0x43u8, 0x55u8, 0x52u8, 0x53u8],
        iosurface_message(text, index, width, height).take(4) == seq![
            0x49u8,
            0x4Fu8,
            0x53u8,
            0x46u8,
        ],
        shared_texture_message(handle, width, height).take(4) == seq![
            0x53u8,
            0x48u8,
            0x54u8,
            0x58u8,
        ],
        shared_extra_message(handle, fence).take(4) == seq![0x53u8, 0x48u8, 0x54u8, 0x32u8],
        fence_value_message(fence).take(4) == seq![0x46u8, 0x4Eu8, 0x43u8, 0x56u8],
{
    assert(frame_message(width, height, stride, data).take(4) =~= seq![
        0x46u8,
        0x52u8,
        0x41u8,
        0x4Du8,
    ]);
    assert(ready_message(index, width, height).take(4) =~= seq![0x52u8, 0x44u8, 0x59u8, 0x21u8]);
    assert(title_message(text).take(4) =~= seq![0x54u8, 0x49u8, 0x54u8, 0x4Cu8]);
    assert(clipboard_copy_message(text).take(4) =~= seq![0x43u8, 0x4Cu8, 0x49u8, 0x50u8]);
    assert(cursor_message(text).take(4) =~= seq![0x43u8, 0x55u8, 0x52u8, 0x53u8]);
    assert(whole_cursor_message(text).take(4) =~= seq![0x43u8, 0x55u8, 0x52u8, 0x53u8]);
    assert(iosurface_message(text, index, width, height).take(4) =~= seq![
        0x49u8,
        0x4Fu8,
        0x53u8,
        0x46u8,
    ]);
    assert(shared_texture_message(handle, width, height).take(4) =~= seq![
        0x53u8,
        0x48u8,
        0x54u8,
        0x58u8,
    ]);
    assert(shared_extra_message(handle, fence).take(4) =~= seq![0x53u8, 0x48u8, 0x54u8, 0x32u8]);
    assert(fence_value_message(fence).take(4) =~= seq![0x46u8, 0x4Eu8, 0x43u8, 0x56u8]);
}

/// A consumer reads the notice of a frame as it was written: which buffer, then the width,
/// then the height.
pub proof fn notices_read_back(index: u32, width: u32, height: u32)
    ensures
        ({
            let message = ready_message(index, width, height);
            &&& message.len() == 16
            &&& u32_at(message, 4) == index
            &&& u32_at(message, 8) == width
            &&& u32_at(message, 12) == height
        }),
{
    let message = ready_message(index, width, height);
    number_at(message, 4, index);
    number_at(message, 8, width);
    number_at(message, 12, height);
}

/// A consumer reads a copied frame as it was written: its width, its height, the bytes from
/// one row to the next, how many bytes follow, and those.
#[verifier::rlimit(50)]
pub proof fn frames_read_back(width: u32, height: u32, stride: u32, data: Seq<u8>)
    requires
        data.len() <= u32::MAX,
    ensures
        ({
            let message = frame_message(width, height, stride, data);
            &&& message.len() == 20 + data.len()
            &&& u32_at(message, 4) == width
            &&& u32_at(message, 8) == height
            &&& u32_at(message, 12) == stride
            &&& u32_at(message, 16) == data.len()
            &&& message.skip(20) == data
        }),
{
    let message = frame_message(width, height, stride, data);
    number_at(message, 4, width);
    number_at(message, 8, height);
    number_at(message, 12, stride);
    number_at(message, 16, sent_length(data.len()));
    assert(message.skip(20) =~= data);
}

/// A copied text reads back as the text, with its length in front.
#[verifier::rlimit(50)]
pub proof fn copies_read_back(text: Seq<char>)
    requires
        encode_utf8(text).len() <= u32::MAX,
    ensures
        ({
            let message = clipboard_copy_message(text);
            &&& u32_at(message, 4) == message.len() - 8
            &&& valid_utf8(message.skip(8))
            &&& decode_utf8(message.skip(8)) == text
        }),
{
    let message = clipboard_copy_message(text);
    encode_utf8_valid_utf8(text);
    encode_utf8_decode_utf8(text);
    number_at(message, 4, sent_length(encode_utf8(text).len()));
    assert(message.skip(8) =~= encode_utf8(text));
}

/// A cursor's name reads back as the name, with its length in one byte in front: in full
/// where it has at most 64 bytes, and on Linux where it has at most 255.
#[verifier::rlimit(50)]
pub proof fn cursors_read_back(name: Seq<char>)
    ensures
        encode_utf8(name).len() <= 64 ==> {
            let message = cursor_message(name);
            &&& message[4] == message.len() - 5
            &&& valid_utf8(message.skip(5))
            &&& decode_utf8(message.skip(5)) == name
        },
        encode_utf8(name).len() <= 255 ==> {
            let message = whole_cursor_message(name);
            &&& message[4] == message.len() - 5
            &&& valid_utf8(message.skip(5))
            &&& decode_utf8(message.skip(5)) == name
        },
        encode_utf8(name).len() > 64 ==> cursor_message(name).len() == 5 + 64 && cursor_message(
            name,
        )[4] == 64 && cursor_message(name).skip(5) == encode_utf8(name).take(64),
        whole_cursor_message(name).skip(5) == encode_utf8(name),
{
    let bytes = encode_utf8(name);
    encode_utf8_valid_utf8(name);
    encode_utf8_decode_utf8(name);
    assert(bytes.take(bytes.len() as int) =~= bytes);
    assert(whole_cursor_message(name).skip(5) =~= bytes);
    if bytes.len() <= 64 {
        assert(cursor_message(name).skip(5) =~= bytes);
    } else {
        assert(cursor_message(name).skip(5) =~= bytes.take(64));
    }
}

/// A consumer of macOS reads where the surfaces are as it was written: the name of the
/// service behind its length, then how many there are, their width and their height.
#[verifier::rlimit(50)]
#[verifier::spinoff_prover]
pub proof fn iosurface_handshakes_read_back(
    service_name: Seq<char>,
    buffer_count: u32,
    max_width: u32,
    max_height: u32,
)
    requires
        encode_utf8(service_name).len() <= u32::MAX,
    ensures
        ({
            let message = iosurface_message(service_name, buffer_count, max_width, max_height);
            let length = encode_utf8(service_name).len() as int;
            &&& message.len() == 20 + length
            &&& u32_at(message, 4) == length
            &&& decode_utf8(message.subrange(8, 8 + length)) == service_name
            &&& u32_at(message, 8 + length) == buffer_count
            &&& u32_at(message, 12 + length) == max_width
            &&& u32_at(message, 16 + length) == max_height
        }),
{
    let message = iosurface_message(service_name, buffer_count, max_width, max_height);
    let name = encode_utf8(service_name);
    let length = name.len() as int;
    let front = magic('I', 'O', 'S', 'F') + u32_le(sent_length(name.len()));
    let count = u32_le(buffer_count);
    let width = u32_le(max_width);
    let height = u32_le(max_height);
    assert(message == front + name + count + width + height);
    assert(u32_at(message, 4) == length) by {
        assert(message.subrange(4, 8) =~= u32_le(sent_length(name.len())));
        u32_field(message, 4, sent_length(name.len()));
    }
    assert(decode_utf8(message.subrange(8, 8 + length)) == service_name) by {
        assert(message.subrange(8, 8 + length) =~= name);
        encode_utf8_decode_utf8(service_name);
    }
    assert(u32_at(message, 8 + length) == buffer_count) by {
        assert(message.subrange(8 + length, 12 + length) =~= count);
        u32_field(message, 8 + length, buffer_count);
    }
    assert(u32_at(message, 12 + length) == max_width) by {
        assert(message.subrange(12 + length, 16 + length) =~= width);
        u32_field(message, 12 + length, max_width);
    }
    assert(u32_at(message, 16 + length) == max_height) by {
        assert(message.subrange(16 + length, 20 + length) =~= height);
        u32_field(message, 16 + length, max_height);
    }
}

/// A consumer of Windows reads the textures as they were written: the first one's handle
/// and size, the second one's handle and the fence, and the fence's value.
pub proof fn shared_textures_read_back(
    handle: u64,
    width: u32,
    height: u32,
    second: u64,
    fence: u64,
    value: u64,
)
    ensures
        u64_at(shared_texture_message(handle, width, height), 4) == handle,
        u32_at(shared_texture_message(handle, width, height), 12) == width,
        u32_at(shared_texture_message(handle, width, height), 16) == height,
        u64_at(shared_extra_message(second, fence), 4) == second,
        u64_at(shared_extra_message(second, fence), 12) == fence,
        u64_at(fence_value_message(value), 4) == value,
{
    texture_reads_back(handle, width, height);
    extra_reads_back(second, fence);
    value_reads_back(value);
}

#[verifier::rlimit(50)]
proof fn texture_reads_back(handle: u64, width: u32, height: u32)
    ensures
        u64_at(shared_texture_message(handle, width, height), 4) == handle,
        u32_at(shared_texture_message(handle, width, height), 12) == width,
        u32_at(shared_texture_message(handle, width, height), 16) == height,
{
    let first = shared_texture_message(handle, width, height);
    long_number_at(first, 4, handle);
    number_at(first, 12, width);
    number_at(first, 16, height);
}

#[verifier::rlimit(50)]
proof fn extra_reads_back(second: u64, fence: u64)
    ensures
        u64_at(shared_extra_message(second, fence), 4) == second,
        u64_at(shared_extra_message(second, fence), 12) == fence,
{
    let extra = shared_extra_message(second, fence);
    long_number_at(extra, 4, second);
    long_number_at(extra, 12, fence);
}

proof fn value_reads_back(value: u64)
    ensures
        u64_at(fence_value_message(value), 4) == value,
{
    long_number_at(fence_value_message(value), 4, value);
}

/// A handle's bits are those of the number: the same modulo 2^64, so that different handles
/// differ and one that is not negative stays as it is.
pub proof fn handles_keep_their_bits(handle: i64, other: i64)
    ensures
        (handle_bits(handle) - handle) % 0x1_0000_0000_0000_0000 == 0,
        handle_bits(handle) == handle_bits(other) ==> handle == other,
        handle >= 0 ==> handle_bits(handle) == handle,
        handle < 0 ==> handle_bits(handle) >= 0x8000_0000_0000_0000,
{
}

/// The mode byte is one byte: 1 for shared buffers and 0 for copied frames.
pub proof fn the_mode_is_one_byte(zero_copy: bool)
    ensures
        mode_message(zero_copy).len() == 1,
        mode_message(zero_copy)[0] == 1 <==> zero_copy,
        mode_message(zero_copy)[0] == 0 <==> !zero_copy,
        MAX_TITLE_BYTES == 1024,
        MAX_CURSOR_BYTES == 64,
{
}

/// A consumer of a frame without padding finds its rows one behind the other, each as long
/// as its pixels are.
pub proof fn frames_without_padding_read_back(width: u32, height: u32, data: Seq<u8>)
    requires
        width * 4 <= u32::MAX,
        data.len() <= u32::MAX,
    ensures
        ({
            let message = embed_frame_message(width, height, data);
            &&& u32_at(message, 4) == width
            &&& u32_at(message, 8) == height
            &&& u32_at(message, 12) == 4 * u32_at(message, 4)
            &&& u32_at(message, 16) == data.len()
            &&& message.skip(20) == data
        }),
{
    frames_read_back(width, height, (width * 4) as u32, data);
}

/// A cursor's name that is sent in full has its length in front, as far as that fits into a
/// byte: what is left out is a multiple of 256. A name that is cut has exactly what is sent
/// of it in front.
#[verifier::rlimit(50)]
pub proof fn a_name_has_its_length_in_front(name: Seq<char>)
    ensures
        whole_cursor_message(name).len() == 5 + encode_utf8(name).len(),
        (encode_utf8(name).len() - whole_cursor_message(name)[4]) % 256 == 0,
        encode_utf8(name).len() < 256 ==> whole_cursor_message(name)[4] == encode_utf8(name).len(),
        whole_cursor_message(name).skip(5) == encode_utf8(name),
        cursor_message(name).len() == 5 + cursor_message(name)[4],
        cursor_message(name)[4] <= 64,
        encode_utf8(name).len() <= 64 ==> cursor_message(name)[4] == encode_utf8(name).len(),
        encode_utf8(name).len() > 64 ==> cursor_message(name)[4] == 64,
{
    assert(whole_cursor_message(name).skip(5) =~= encode_utf8(name));
}

} // verus!
