//! The input a consumer forwards, and its decoder.
//!
//! Every producer reads the same messages, so that one consumer drives them all. They
//! differ in two places, which [`Producer`] names: Linux insists on UTF-8 where macOS
//! and Windows repair malformed text, and only macOS is told a display.

use vstd::prelude::*;
use vstd::utf8::{
    decode_utf8, encode_utf8, encode_utf8_decode_utf8, encode_utf8_valid_utf8, valid_utf8,
};

use crate::text::{copy_range, decoded_length, lossy_text, utf8_exact, utf8_lossy};
use crate::wire::{advance, eof, get_u32, u32_at, u32_field, u32_le, ReadError};

verus! {

/// The modifier keys held during an event.
#[derive(Clone, Copy, Debug, PartialEq, Eq, Structural)]
pub struct Modifiers {
    pub control: bool,
    pub alt: bool,
    pub shift: bool,
    pub platform: bool,
    pub function: bool,
}

/// The direction of a mouse's side button.
#[derive(Clone, Copy, Debug, PartialEq, Eq, Structural)]
pub enum NavigationDirection {
    Back,
    Forward,
}

/// A mouse button.
#[derive(Clone, Copy, Debug, PartialEq, Eq, Structural)]
pub enum MouseButton {
    Left,
    Right,
    Middle,
    Navigate(NavigationDirection),
}

/// Which platform's producer reads the messages.
#[derive(Clone, Copy, Debug, PartialEq, Eq, Structural)]
pub enum Producer {
    Linux,
    MacOs,
    Windows,
}

/// One message of input. Coordinates, scroll distances and the like are the bits
/// of the `f32` that travels.
#[derive(Debug)]
pub enum EmbedInput {
    PointerMove { x_bits: u32, y_bits: u32 },
    Button { button: u8, pressed: bool },
    /// Keystroke fields; the consumer owns the translation of key values to names.
    Key { key: String, key_char: Option<String>, modifiers: Modifiers, pressed: bool },
    /// Scrolling in wheel notches.
    Scroll { dx_bits: u32, dy_bits: u32 },
    /// Smooth scrolling in pixels, from a precision touchpad.
    ScrollPixels { dx_bits: u32, dy_bits: u32 },
    Resize { width: u32, height: u32 },
    /// The host's palette, each color packed as `0xRRGGBBAA`.
    Palette { colors: [u32; 13] },
    /// A modifier pressed or released on its own; carries the resulting state.
    ModifiersChanged { modifiers: Modifiers },
    /// The host's clipboard text.
    Clipboard { text: String },
    /// Scale as a percentage: 150 is one and a half times.
    ScalePercent { pct: u32 },
    /// The display that the consumer shows its pane on.
    Display { display_id: u32 },
}

/// What an [`EmbedInput`] says.
#[verifier::ext_equal]
pub enum EmbedInputView {
    PointerMove { x_bits: u32, y_bits: u32 },
    Button { button: u8, pressed: bool },
    Key { key: Seq<char>, key_char: Option<Seq<char>>, modifiers: Modifiers, pressed: bool },
    Scroll { dx_bits: u32, dy_bits: u32 },
    ScrollPixels { dx_bits: u32, dy_bits: u32 },
    Resize { width: u32, height: u32 },
    Palette { colors: Seq<u32> },
    ModifiersChanged { modifiers: Modifiers },
    Clipboard { text: Seq<char> },
    ScalePercent { pct: u32 },
    Display { display_id: u32 },
}

/// The text of an optional string.
pub open spec fn optional_text(text: Option<String>) -> Option<Seq<char>> {
    match text {
        Some(t) => Some(t@),
        None => None,
    }
}

impl View for EmbedInput {
    type V = EmbedInputView;

    open spec fn view(&self) -> EmbedInputView {
        match *self {
            EmbedInput::PointerMove { x_bits, y_bits } => EmbedInputView::PointerMove {
                x_bits,
                y_bits,
            },
            EmbedInput::Button { button, pressed } => EmbedInputView::Button { button, pressed },
            EmbedInput::Key { key, key_char, modifiers, pressed } => EmbedInputView::Key {
                key: key@,
                key_char: optional_text(key_char),
                modifiers,
                pressed,
            },
            EmbedInput::Scroll { dx_bits, dy_bits } => EmbedInputView::Scroll { dx_bits, dy_bits },
            EmbedInput::ScrollPixels { dx_bits, dy_bits } => EmbedInputView::ScrollPixels {
                dx_bits,
                dy_bits,
            },
            EmbedInput::Resize { width, height } => EmbedInputView::Resize { width, height },
            EmbedInput::Palette { colors } => EmbedInputView::Palette { colors: colors@ },
            EmbedInput::ModifiersChanged { modifiers } => EmbedInputView::ModifiersChanged {
                modifiers,
            },
            EmbedInput::Clipboard { text } => EmbedInputView::Clipboard { text: text@ },
            EmbedInput::ScalePercent { pct } => EmbedInputView::ScalePercent { pct },
            EmbedInput::Display { display_id } => EmbedInputView::Display { display_id },
        }
    }
}

/// The modifiers that a bit field stands for: control, alt, shift and platform,
/// from the lowest bit up.
pub open spec fn modifiers_spec(bits: u8) -> Modifiers {
    Modifiers {
        control: bits % 2 == 1,
        alt: bits / 2 % 2 == 1,
        shift: bits / 4 % 2 == 1,
        platform: bits / 8 % 2 == 1,
        function: false,
    }
}

/// The button that a GDK button number stands for: 2 is the middle one, 3 the
/// right one, 8 and 9 go back and forward, and every other one is the left one.
pub open spec fn mouse_button_spec(button: u8) -> MouseButton {
    if button == 3 {
        MouseButton::Right
    } else if button == 2 {
        MouseButton::Middle
    } else if button == 8 {
        MouseButton::Navigate(NavigationDirection::Back)
    } else if button == 9 {
        MouseButton::Navigate(NavigationDirection::Forward)
    } else {
        MouseButton::Left
    }
}

impl Producer {
    /// Malformed text is repaired rather than refused.
    pub open spec fn repairs_text(self) -> bool {
        self != Producer::Linux
    }

    /// The text that a field's bytes stand for; `None` where they are refused.
    pub open spec fn text_of(self, bytes: Seq<u8>) -> Option<Seq<char>> {
        if self.repairs_text() {
            Some(lossy_text(bytes))
        } else if valid_utf8(bytes) {
            Some(decode_utf8(bytes))
        } else {
            None
        }
    }
}

/// A message of `size` bytes that says `view`.
pub open spec fn sized(bytes: Seq<u8>, size: int, view: EmbedInputView) -> Result<
    (EmbedInputView, int),
    ReadError,
> {
    if bytes.len() < size {
        Err(eof(bytes.len() as int, size))
    } else {
        Ok((view, size))
    }
}

/// The key message at the front of `bytes`: after the tag, whether the key is
/// pressed, the modifiers, the length of the key's name and the name, and the
/// length of the typed text and the text. A message without a name reports a modifier
/// that was pressed or released on its own: that is no keystroke.
pub open spec fn key_message(bytes: Seq<u8>, producer: Producer) -> Result<
    (EmbedInputView, int),
    ReadError,
> {
    let have = bytes.len() as int;
    let key_end = 4 + bytes[3] as int;
    let char_end = key_end + 1 + bytes[key_end] as int;
    if have < 4 {
        Err(eof(have, 4))
    } else if have < key_end {
        Err(eof(have, key_end))
    } else if producer.text_of(bytes.subrange(4, key_end)) is None {
        Err(ReadError::InvalidUtf8)
    } else if have < key_end + 1 {
        Err(eof(have, key_end + 1))
    } else if have < char_end {
        Err(eof(have, char_end))
    } else if producer.text_of(bytes.subrange(key_end + 1, char_end)) is None {
        Err(ReadError::InvalidUtf8)
    } else if bytes[3] == 0 {
        Ok((EmbedInputView::ModifiersChanged { modifiers: modifiers_spec(bytes[2]) }, char_end))
    } else {
        Ok(
            (
                EmbedInputView::Key {
                    key: producer.text_of(bytes.subrange(4, key_end))->0,
                    key_char: if bytes[key_end] == 0 {
                        None
                    } else {
                        producer.text_of(bytes.subrange(key_end + 1, char_end))
                    },
                    modifiers: modifiers_spec(bytes[2]),
                    pressed: bytes[1] != 0,
                },
                char_end,
            ),
        )
    }
}

/// The clipboard message at the front of `bytes`: after the tag, the length of the
/// text and the text.
pub open spec fn clipboard_message(bytes: Seq<u8>, producer: Producer) -> Result<
    (EmbedInputView, int),
    ReadError,
> {
    let have = bytes.len() as int;
    let end = 5 + u32_at(bytes, 1) as int;
    if have < 5 {
        Err(eof(have, 5))
    } else if have < end {
        Err(eof(have, end))
    } else {
        match producer.text_of(bytes.subrange(5, end)) {
            Some(text) => Ok((EmbedInputView::Clipboard { text }, end)),
            None => Err(ReadError::InvalidUtf8),
        }
    }
}

/// The input message at the front of `bytes` and its length.
pub open spec fn input_message(bytes: Seq<u8>, producer: Producer) -> Result<
    (EmbedInputView, int),
    ReadError,
> {
    if bytes.len() == 0 {
        Err(eof(0, 1))
    } else {
        match bytes[0] {
            0x01 => sized(
                bytes,
                9,
                EmbedInputView::PointerMove { x_bits: u32_at(bytes, 1), y_bits: u32_at(bytes, 5) },
            ),
            0x02 => sized(
                bytes,
                3,
                EmbedInputView::Button { button: bytes[1], pressed: bytes[2] != 0 },
            ),
            0x03 => key_message(bytes, producer),
            0x04 => sized(
                bytes,
                9,
                EmbedInputView::Scroll { dx_bits: u32_at(bytes, 1), dy_bits: u32_at(bytes, 5) },
            ),
            0x05 => sized(
                bytes,
                9,
                EmbedInputView::Resize { width: u32_at(bytes, 1), height: u32_at(bytes, 5) },
            ),
            0x06 => sized(
                bytes,
                53,
                EmbedInputView::Palette {
                    colors: Seq::new(13, |i: int| u32_at(bytes, 1 + 4 * i)),
                },
            ),
            0x07 => clipboard_message(bytes, producer),
            0x0B => sized(bytes, 5, EmbedInputView::ScalePercent { pct: u32_at(bytes, 1) }),
            0x0C => sized(
                bytes,
                9,
                EmbedInputView::ScrollPixels {
                    dx_bits: u32_at(bytes, 1),
                    dy_bits: u32_at(bytes, 5),
                },
            ),
            0x0E => if producer == Producer::MacOs {
                sized(bytes, 5, EmbedInputView::Display { display_id: u32_at(bytes, 1) })
            } else {
                Err(ReadError::BadTag { tag: 0x0E })
            },
            tag => Err(ReadError::BadTag { tag }),
        }
    }
}

/// How many bytes were read when a message is refused: the tag that nobody knows, or
/// all up to the end of the text that is not UTF-8. Of a message whose bytes are not all
/// there nothing is taken.
pub open spec fn refused_length(bytes: Seq<u8>, producer: Producer) -> int {
    let key_end = 4 + bytes[3] as int;
    let char_end = key_end + 1 + bytes[key_end] as int;
    match input_message(bytes, producer) {
        Err(ReadError::BadTag { .. }) => 1,
        Err(ReadError::InvalidUtf8) => if bytes[0] == 0x07 {
            5 + u32_at(bytes, 1) as int
        } else if producer.text_of(bytes.subrange(4, key_end)) is None {
            key_end
        } else {
            char_end
        },
        _ => 0,
    }
}

/// The button that a GDK button number stands for.
pub fn mouse_button(button: u8) -> (result: MouseButton)
    ensures
        result == mouse_button_spec(button),
{
    match button {
        3 => MouseButton::Right,
        2 => MouseButton::Middle,
        8 => MouseButton::Navigate(NavigationDirection::Back),
        9 => MouseButton::Navigate(NavigationDirection::Forward),
        _ => MouseButton::Left,
    }
}

/// The modifiers that a bit field stands for.
pub fn modifiers_of(bits: u8) -> (modifiers: Modifiers)
    ensures
        modifiers == modifiers_spec(bits),
{
    assert((bits & 1 != 0) == (bits % 2 == 1) && (bits & 2 != 0) == (bits / 2 % 2 == 1) && (bits & 4
        != 0) == (bits / 4 % 2 == 1) && (bits & 8 != 0) == (bits / 8 % 2 == 1)) by (bit_vector);
    Modifiers {
        control: bits & 1 != 0,
        alt: bits & 2 != 0,
        shift: bits & 4 != 0,
        platform: bits & 8 != 0,
        function: false,
    }
}

/// The text of the field between `from` and `to`; `None` where its bytes are refused.
fn field_text(bytes: &[u8], from: usize, to: usize, producer: Producer) -> (text: Option<String>)
    requires
        from <= to <= bytes@.len(),
    ensures
        optional_text(text) == producer.text_of(bytes@.subrange(from as int, to as int)),
        text matches Some(t) ==> (t@.len() == 0 <==> from == to),
{
    match producer {
        Producer::Linux => {
            proof {
                if valid_utf8(bytes@.subrange(from as int, to as int)) {
                    decoded_length(bytes@.subrange(from as int, to as int));
                }
            }
            utf8_exact(copy_range(bytes, from, to))
        },
        Producer::MacOs => Some(utf8_lossy(vstd::slice::slice_subrange(bytes, from, to))),
        Producer::Windows => Some(utf8_lossy(vstd::slice::slice_subrange(bytes, from, to))),
    }
}

/// What `sized` says of a message whose bytes may not all be there.
fn have_all(bytes: &[u8], size: usize) -> (missing: Result<(), ReadError>)
    ensures
        bytes@.len() >= size <==> missing is Ok,
        missing matches Err(e) ==> e == eof(bytes@.len() as int, size as int),
{
    if bytes.len() < size {
        Err(ReadError::UnexpectedEof { missing: size - bytes.len() })
    } else {
        Ok(())
    }
}

/// Decodes the key message at the front of `bytes`.
fn decode_key(bytes: &[u8], producer: Producer) -> (result: Result<(EmbedInput, usize), ReadError>)
    requires
        bytes@.len() > 0,
    ensures
        decoded(result) == key_message(bytes@, producer),
{
    have_all(bytes, 4)?;
    let key_end: usize = 4 + bytes[3] as usize;
    have_all(bytes, key_end)?;
    let key: String = match field_text(bytes, 4, key_end, producer) {
        Some(key) => key,
        None => return Err(ReadError::InvalidUtf8),
    };
    have_all(bytes, key_end + 1)?;
    let char_end: usize = key_end + 1 + bytes[key_end] as usize;
    have_all(bytes, char_end)?;
    let key_char: String = match field_text(bytes, key_end + 1, char_end, producer) {
        Some(text) => text,
        None => return Err(ReadError::InvalidUtf8),
    };
    let modifiers = modifiers_of(bytes[2]);
    if key.as_str().is_empty() {
        return Ok((EmbedInput::ModifiersChanged { modifiers }, char_end));
    }
    let key_char: Option<String> = if key_char.as_str().is_empty() {
        None
    } else {
        Some(key_char)
    };
    Ok((EmbedInput::Key { key, key_char, modifiers, pressed: bytes[1] != 0 }, char_end))
}

/// Decodes the clipboard message at the front of `bytes`.
fn decode_clipboard(bytes: &[u8], producer: Producer) -> (result: Result<
    (EmbedInput, usize),
    ReadError,
>)
    requires
        bytes@.len() > 0,
    ensures
        decoded(result) == clipboard_message(bytes@, producer),
{
    have_all(bytes, 5)?;
    let len: usize = get_u32(bytes, 1) as usize;
    let have: usize = bytes.len() - 5;
    if have < len {
        return Err(ReadError::UnexpectedEof { missing: len - have });
    }
    match field_text(bytes, 5, 5 + len, producer) {
        Some(text) => Ok((EmbedInput::Clipboard { text }, 5 + len)),
        None => Err(ReadError::InvalidUtf8),
    }
}

/// Decodes the palette message at the front of `bytes`.
fn decode_palette(bytes: &[u8]) -> (colors: [u32; 13])
    requires
        bytes@.len() >= 53,
    ensures
        colors@ == Seq::new(13, |i: int| u32_at(bytes@, 1 + 4 * i)),
{
    let mut colors: [u32; 13] = [0;13];
    let mut i: usize = 0;
    while i < 13
        invariant
            i <= 13,
            bytes@.len() >= 53,
            forall|j: int| 0 <= j < i ==> colors@[j] == u32_at(bytes@, 1 + 4 * j),
        decreases 13 - i,
    {
        colors[i] = get_u32(bytes, 1 + 4 * i);
        i += 1;
    }
    assert(colors@ =~= Seq::new(13, |i: int| u32_at(bytes@, 1 + 4 * i)));
    colors
}

/// What a decoder's result says.
pub open spec fn decoded(result: Result<(EmbedInput, usize), ReadError>) -> Result<
    (EmbedInputView, int),
    ReadError,
> {
    match result {
        Ok((input, length)) => Ok((input@, length as int)),
        Err(error) => Err(error),
    }
}

/// Decodes the message at the front of `bytes`: what it says, and its length.
pub fn decode_input(bytes: &[u8], producer: Producer) -> (result: Result<
    (EmbedInput, usize),
    ReadError,
>)
    ensures
        decoded(result) == input_message(bytes@, producer),
{
    have_all(bytes, 1)?;
    let macos = matches!(producer, Producer::MacOs);
    let tag: u8 = bytes[0];
    if tag == 0x01 {
        have_all(bytes, 9)?;
        Ok((EmbedInput::PointerMove { x_bits: get_u32(bytes, 1), y_bits: get_u32(bytes, 5) }, 9))
    } else if tag == 0x02 {
        have_all(bytes, 3)?;
        Ok((EmbedInput::Button { button: bytes[1], pressed: bytes[2] != 0 }, 3))
    } else if tag == 0x03 {
        decode_key(bytes, producer)
    } else if tag == 0x04 {
        have_all(bytes, 9)?;
        Ok((EmbedInput::Scroll { dx_bits: get_u32(bytes, 1), dy_bits: get_u32(bytes, 5) }, 9))
    } else if tag == 0x05 {
        have_all(bytes, 9)?;
        Ok((EmbedInput::Resize { width: get_u32(bytes, 1), height: get_u32(bytes, 5) }, 9))
    } else if tag == 0x06 {
        have_all(bytes, 53)?;
        Ok((EmbedInput::Palette { colors: decode_palette(bytes) }, 53))
    } else if tag == 0x07 {
        decode_clipboard(bytes, producer)
    } else if tag == 0x0B {
        have_all(bytes, 5)?;
        Ok((EmbedInput::ScalePercent { pct: get_u32(bytes, 1) }, 5))
    } else if tag == 0x0C {
        have_all(bytes, 9)?;
        Ok((EmbedInput::ScrollPixels { dx_bits: get_u32(bytes, 1), dy_bits: get_u32(bytes, 5) }, 9))
    } else if tag == 0x0E && macos {
        have_all(bytes, 5)?;
        Ok((EmbedInput::Display { display_id: get_u32(bytes, 1) }, 5))
    } else {
        Err(ReadError::BadTag { tag })
    }
}

/// How many bytes were read of a message that was refused.
fn refused(bytes: &[u8], producer: Producer, error: ReadError) -> (length: usize)
    requires
        input_message(bytes@, producer) == Err::<(EmbedInputView, int), ReadError>(error),
    ensures
        length == refused_length(bytes@, producer),
        length <= bytes@.len(),
{
    match error {
        ReadError::BadTag { .. } => 1,
        ReadError::InvalidUtf8 => {
            if bytes[0] == 0x07 {
                return 5 + get_u32(bytes, 1) as usize;
            }
            let key_end: usize = 4 + bytes[3] as usize;
            match field_text(bytes, 4, key_end, producer) {
                Some(_) => key_end + 1 + bytes[key_end] as usize,
                None => key_end,
            }
        },
        _ => 0,
    }
}

/// Reads one message: the reader moves past it. Where a message is refused the reader
/// has moved past what was read of it; where its bytes are not all there the reader
/// stays.
pub fn read_input(reader: &mut &[u8], producer: Producer) -> (result: Result<
    EmbedInput,
    ReadError,
>)
    ensures
        match input_message(old(reader)@, producer) {
            Ok((view, length)) => {
                &&& result matches Ok(input) && input@ == view
                &&& final(reader)@ == old(reader)@.skip(length)
            },
            Err(error) => {
                &&& result == Err::<EmbedInput, ReadError>(error)
                &&& final(reader)@ == old(reader)@.skip(refused_length(old(reader)@, producer))
            },
        },
{
    match decode_input(*reader, producer) {
        Ok((input, length)) => {
            advance(reader, length);
            Ok(input)
        },
        Err(error) => {
            let length: usize = refused(*reader, producer, error);
            advance(reader, length);
            Err(error)
        },
    }
}

/// Two sequences that agree on a prefix agree on what is read out of it.
proof fn shared_prefix(a: Seq<u8>, b: Seq<u8>, length: int)
    requires
        0 <= length <= a.len(),
        length <= b.len(),
        a.take(length) == b.take(length),
    ensures
        forall|i: int| 0 <= i < length ==> a[i] == b[i],
        forall|at: int| 0 <= at && at + 4 <= length ==> #[trigger] u32_at(a, at) == u32_at(b, at),
        forall|from: int, to: int|
            0 <= from <= to <= length ==> #[trigger] a.subrange(from, to) == b.subrange(from, to),
{
    assert forall|i: int| 0 <= i < length implies a[i] == b[i] by {
        assert(a.take(length)[i] == a[i]);
        assert(b.take(length)[i] == b[i]);
    }
    assert forall|from: int, to: int| 0 <= from <= to <= length implies #[trigger] a.subrange(
        from,
        to,
    ) == b.subrange(from, to) by {
        assert(a.subrange(from, to) =~= b.subrange(from, to));
    }
}

/// A message is decoded from its own bytes alone: whatever stands behind it, the
/// same bytes at the front say the same thing and have the same length.
pub proof fn message_is_its_own_bytes(a: Seq<u8>, b: Seq<u8>, producer: Producer)
    requires
        input_message(a, producer) is Ok,
        input_message(a, producer)->Ok_0.1 <= b.len(),
        b.take(input_message(a, producer)->Ok_0.1) == a.take(input_message(a, producer)->Ok_0.1),
    ensures
        input_message(b, producer) == input_message(a, producer),
        1 <= input_message(a, producer)->Ok_0.1 <= a.len(),
{
    let length = input_message(a, producer)->Ok_0.1;
    shared_prefix(a, b, length);
    if a[0] == 0x06 {
        assert(Seq::new(13, |i: int| u32_at(a, 1 + 4 * i)) =~= Seq::new(
            13,
            |i: int| u32_at(b, 1 + 4 * i),
        ));
    }
}

/// A decoder that runs out of bytes never asks for more than the message has: with
/// fewer than the missing ones added the message is still incomplete.
pub proof fn missing_bytes_are_needed(bytes: Seq<u8>, more: Seq<u8>, producer: Producer)
    requires
        input_message(bytes, producer) matches Err(ReadError::UnexpectedEof { missing })
            && more.len() < missing,
    ensures
        input_message(bytes + more, producer) == Err::<(EmbedInputView, int), ReadError>(
            ReadError::UnexpectedEof {
                missing: (input_message(bytes, producer)->Err_0->missing - more.len()) as usize,
            },
        ),
{
    let all = bytes + more;
    assert(all.take(bytes.len() as int) =~= bytes);
    assert(bytes.take(bytes.len() as int) =~= bytes);
    shared_prefix(all, bytes, bytes.len() as int);
    if bytes.len() > 0 {
        assert(all[0] == bytes[0]);
        if bytes[0] == 0x03 {
            assert(key_message(all, producer) == Err::<(EmbedInputView, int), ReadError>(
                ReadError::UnexpectedEof {
                    missing: (key_message(bytes, producer)->Err_0->missing - more.len()) as usize,
                },
            ));
        } else if bytes[0] == 0x07 {
            assert(clipboard_message(all, producer) == Err::<(EmbedInputView, int), ReadError>(
                ReadError::UnexpectedEof {
                    missing: (clipboard_message(bytes, producer)->Err_0->missing
                        - more.len()) as usize,
                },
            ));
        }
    }
}

/// A refusal stands, whatever follows.
pub proof fn refusal_is_final(bytes: Seq<u8>, more: Seq<u8>, producer: Producer)
    requires
        input_message(bytes, producer) is Err,
        input_message(bytes, producer)->Err_0 !is UnexpectedEof,
    ensures
        input_message(bytes + more, producer) == input_message(bytes, producer),
        refused_length(bytes + more, producer) == refused_length(bytes, producer),
        1 <= refused_length(bytes, producer) <= bytes.len(),
{
    let all = bytes + more;
    assert(all.take(bytes.len() as int) =~= bytes);
    assert(bytes.take(bytes.len() as int) =~= bytes);
    shared_prefix(all, bytes, bytes.len() as int);
}

/// Whether the texts of the message at the front of `bytes` are UTF-8, as far as they
/// are there.
pub open spec fn texts_are_utf8(bytes: Seq<u8>) -> bool {
    let key_end = 4 + bytes[3] as int;
    let char_end = key_end + 1 + bytes[key_end] as int;
    let text_end = 5 + u32_at(bytes, 1) as int;
    let have = bytes.len() as int;
    if have > 0 && bytes[0] == 0x03 {
        &&& 4 <= have && key_end <= have ==> valid_utf8(bytes.subrange(4, key_end))
        &&& 4 <= have && key_end < have && char_end <= have ==> valid_utf8(
            bytes.subrange(key_end + 1, char_end),
        )
    } else if have > 0 && bytes[0] == 0x07 {
        5 <= have && text_end <= have ==> valid_utf8(bytes.subrange(5, text_end))
    } else {
        true
    }
}

/// One consumer drives all three producers: whatever bytes it sends, they read the same
/// message of the same length, or miss or refuse the same, so long as the texts are UTF-8
/// and it is not the message that tells macOS a display.
pub proof fn producers_agree(bytes: Seq<u8>, producer: Producer)
    requires
        bytes.len() > 0 ==> bytes[0] != 0x0E,
        texts_are_utf8(bytes),
    ensures
        input_message(bytes, Producer::Linux) == input_message(bytes, producer),
        refused_length(bytes, Producer::Linux) == refused_length(bytes, producer),
{
}

/// Linux refuses text exactly where it is not UTF-8; the others refuse none.
pub proof fn only_linux_refuses_text(bytes: Seq<u8>, producer: Producer)
    ensures
        input_message(bytes, producer) == Err::<(EmbedInputView, int), ReadError>(
            ReadError::InvalidUtf8,
        ) <==> producer == Producer::Linux && !texts_are_utf8(bytes),
{
}

/// macOS reads everything that Windows reads, with the same meaning; beyond that it
/// only reads display messages.
pub proof fn macos_extends_windows(bytes: Seq<u8>)
    ensures
        bytes.len() > 0 && bytes[0] != 0x0E ==> input_message(bytes, Producer::MacOs)
            == input_message(bytes, Producer::Windows),
        input_message(bytes, Producer::Windows) is Ok ==> input_message(bytes, Producer::MacOs)
            == input_message(bytes, Producer::Windows),
{
}

/// The bits in which a consumer sends modifiers: 1 for control, 2 for alt, 4 for shift
/// and 8 for platform.
pub open spec fn modifier_bits(modifiers: Modifiers) -> int {
    let control: int = if modifiers.control {
        1
    } else {
        0
    };
    let alt: int = if modifiers.alt {
        2
    } else {
        0
    };
    let shift: int = if modifiers.shift {
        4
    } else {
        0
    };
    let platform: int = if modifiers.platform {
        8
    } else {
        0
    };
    control + alt + shift + platform
}

/// Every modifier has its own bit: each set of modifiers that a consumer sends is the set
/// that is read, whatever the four bits above hold.
pub proof fn every_modifier_has_its_bit(modifiers: Modifiers, unused: u8)
    requires
        !modifiers.function,
        unused < 16,
    ensures
        modifiers_spec((modifier_bits(modifiers) + 16 * unused) as u8) == modifiers,
{
}

/// Each modifier on its own: a bit that is set alone holds that key and no other.
pub proof fn a_bit_alone_holds_one_key(bits: u8)
    ensures
        ({
            let modifiers = modifiers_spec(bits);
            &&& bits == 1 ==> modifiers.control && !modifiers.alt && !modifiers.shift
                && !modifiers.platform
            &&& bits == 2 ==> modifiers.alt && !modifiers.control && !modifiers.shift
                && !modifiers.platform
            &&& bits == 4 ==> modifiers.shift && !modifiers.control && !modifiers.alt
                && !modifiers.platform
            &&& bits == 8 ==> modifiers.platform && !modifiers.control && !modifiers.alt
                && !modifiers.shift
            &&& !modifiers.function
        }),
{
}

/// Each of the other buttons goes by one number; every number that names none of them is
/// the left button's.
pub proof fn every_button_has_its_number(number: u8)
    ensures
        mouse_button_spec(number) == MouseButton::Middle <==> number == 2,
        mouse_button_spec(number) == MouseButton::Right <==> number == 3,
        mouse_button_spec(number) == MouseButton::Navigate(NavigationDirection::Back) <==> number
            == 8,
        mouse_button_spec(number) == MouseButton::Navigate(NavigationDirection::Forward) <==> number
            == 9,
        mouse_button_spec(number) == MouseButton::Left <==> !(number == 2 || number == 3 || number
            == 8 || number == 9),
{
}

/// The bytes of an optional text.
pub open spec fn typed_bytes(text: Option<Seq<char>>) -> Seq<u8> {
    match text {
        Some(text) => encode_utf8(text),
        None => seq![],
    }
}

/// An input as a consumer sends it; `flag` is the byte by which it says that a button or a
/// key is pressed.
pub open spec fn sent_input(input: EmbedInputView, flag: u8) -> Seq<u8> {
    match input {
        EmbedInputView::PointerMove { x_bits, y_bits } => seq![0x01u8] + u32_le(x_bits) + u32_le(
            y_bits,
        ),
        EmbedInputView::Button { button, .. } => seq![0x02u8, button, flag],
        EmbedInputView::Key { key, key_char, modifiers, .. } => {
            let name = encode_utf8(key);
            let typed = typed_bytes(key_char);
            seq![0x03u8, flag, modifier_bits(modifiers) as u8, name.len() as u8] + name + seq![
                typed.len() as u8,
            ] + typed
        },
        EmbedInputView::ModifiersChanged { modifiers } => seq![
            0x03u8,
            flag,
            modifier_bits(modifiers) as u8,
            0u8,
            0u8,
        ],
        EmbedInputView::Scroll { dx_bits, dy_bits } => seq![0x04u8] + u32_le(dx_bits) + u32_le(
            dy_bits,
        ),
        EmbedInputView::Resize { width, height } => seq![0x05u8] + u32_le(width) + u32_le(height),
        EmbedInputView::Palette { colors } => seq![0x06u8] + Seq::new(
            52,
            |i: int| u32_le(colors[i / 4])[i % 4],
        ),
        EmbedInputView::Clipboard { text } => seq![0x07u8] + u32_le(encode_utf8(text).len() as u32)
            + encode_utf8(text),
        EmbedInputView::ScalePercent { pct } => seq![0x0Bu8] + u32_le(pct),
        EmbedInputView::ScrollPixels { dx_bits, dy_bits } => seq![0x0Cu8] + u32_le(dx_bits)
            + u32_le(dy_bits),
        EmbedInputView::Display { display_id } => seq![0x0Eu8] + u32_le(display_id),
    }
}

/// Whether a consumer can send an input to a producer: its texts fit their lengths, and a
/// flag of anything but zero stands for what is pressed.
pub open spec fn can_be_sent(input: EmbedInputView, flag: u8, producer: Producer) -> bool {
    match input {
        EmbedInputView::Button { pressed, .. } => pressed == (flag != 0),
        EmbedInputView::Key { key, key_char, modifiers, pressed } => {
            &&& pressed == (flag != 0)
            &&& 0 < key.len() && encode_utf8(key).len() <= 255
            &&& key_char matches Some(text) ==> 0 < text.len() && encode_utf8(text).len() <= 255
            &&& !modifiers.function
        },
        EmbedInputView::ModifiersChanged { modifiers } => !modifiers.function,
        EmbedInputView::Palette { colors } => colors.len() == 13,
        EmbedInputView::Clipboard { text } => encode_utf8(text).len() <= u32::MAX,
        EmbedInputView::Display { .. } => producer == Producer::MacOs,
        _ => true,
    }
}

proof fn two_numbers(bytes: Seq<u8>, tag: u8, first: u32, second: u32, rest: Seq<u8>)
    requires
        bytes == seq![tag] + u32_le(first) + u32_le(second) + rest,
    ensures
        bytes[0] == tag,
        bytes.len() >= 9,
        u32_at(bytes, 1) == first,
        u32_at(bytes, 5) == second,
{
    assert(bytes.subrange(1, 5) =~= u32_le(first));
    assert(bytes.subrange(5, 9) =~= u32_le(second));
    u32_field(bytes, 1, first);
    u32_field(bytes, 5, second);
}

proof fn one_number(bytes: Seq<u8>, tag: u8, number: u32, rest: Seq<u8>)
    requires
        bytes == seq![tag] + u32_le(number) + rest,
    ensures
        bytes[0] == tag,
        bytes.len() >= 5,
        u32_at(bytes, 1) == number,
{
    assert(bytes.subrange(1, 5) =~= u32_le(number));
    u32_field(bytes, 1, number);
}

proof fn text_reads_back(text: Seq<char>, producer: Producer)
    ensures
        producer.text_of(encode_utf8(text)) == Some(text),
        encode_utf8(text).len() == 0 <==> text.len() == 0,
{
    encode_utf8_valid_utf8(text);
    encode_utf8_decode_utf8(text);
    decoded_length(encode_utf8(text));
}

#[verifier::rlimit(50)]
proof fn key_round_trip(
    key: Seq<char>,
    key_char: Option<Seq<char>>,
    modifiers: Modifiers,
    flag: u8,
    rest: Seq<u8>,
    producer: Producer,
)
    requires
        can_be_sent(
            EmbedInputView::Key { key, key_char, modifiers, pressed: flag != 0 },
            flag,
            producer,
        ),
    ensures
        ({
            let input = EmbedInputView::Key { key, key_char, modifiers, pressed: flag != 0 };
            key_message(sent_input(input, flag) + rest, producer) == Ok::<
                (EmbedInputView, int),
                ReadError,
            >((input, sent_input(input, flag).len() as int))
        }),
{
    let input = EmbedInputView::Key { key, key_char, modifiers, pressed: flag != 0 };
    let bytes = sent_input(input, flag) + rest;
    let name = encode_utf8(key);
    let typed = typed_bytes(key_char);
    let key_end = 4 + name.len() as int;
    text_reads_back(key, producer);
    if let Some(text) = key_char {
        text_reads_back(text, producer);
    } else {
        text_reads_back(Seq::empty(), producer);
        assert(encode_utf8(Seq::<char>::empty()) =~= typed);
    }
    every_modifier_has_its_bit(modifiers, 0);
    assert(bytes[1] == flag && bytes[3] as int == name.len());
    assert(bytes[2] == modifier_bits(modifiers) as u8);
    assert(bytes[key_end] as int == typed.len());
    assert(bytes.subrange(4, key_end) =~= name);
    assert(bytes.subrange(key_end + 1, key_end + 1 + typed.len()) =~= typed);
}

#[verifier::rlimit(50)]
proof fn modifiers_round_trip(modifiers: Modifiers, flag: u8, rest: Seq<u8>, producer: Producer)
    requires
        !modifiers.function,
    ensures
        ({
            let input = EmbedInputView::ModifiersChanged { modifiers };
            key_message(sent_input(input, flag) + rest, producer) == Ok::<
                (EmbedInputView, int),
                ReadError,
            >((input, 5))
        }),
{
    let bytes = sent_input(EmbedInputView::ModifiersChanged { modifiers }, flag) + rest;
    text_reads_back(Seq::empty(), producer);
    assert(encode_utf8(Seq::<char>::empty()) =~= Seq::<u8>::empty());
    assert(bytes.subrange(4, 4) =~= Seq::<u8>::empty());
    assert(bytes.subrange(5, 5) =~= Seq::<u8>::empty());
    every_modifier_has_its_bit(modifiers, 0);
}

#[verifier::rlimit(50)]
proof fn clipboard_round_trip(text: Seq<char>, rest: Seq<u8>, producer: Producer)
    requires
        encode_utf8(text).len() <= u32::MAX,
    ensures
        ({
            let input = EmbedInputView::Clipboard { text };
            clipboard_message(sent_input(input, 0) + rest, producer) == Ok::<
                (EmbedInputView, int),
                ReadError,
            >((input, sent_input(input, 0).len() as int))
        }),
{
    let encoded = encode_utf8(text);
    let bytes = sent_input(EmbedInputView::Clipboard { text }, 0) + rest;
    text_reads_back(text, producer);
    assert(bytes =~= seq![0x07u8] + u32_le(encoded.len() as u32) + (encoded + rest));
    one_number(bytes, 0x07, encoded.len() as u32, encoded + rest);
    assert(bytes.subrange(5, 5 + encoded.len() as int) =~= encoded);
}

#[verifier::rlimit(50)]
proof fn palette_round_trip(colors: Seq<u32>, rest: Seq<u8>)
    requires
        colors.len() == 13,
    ensures
        ({
            let bytes = sent_input(EmbedInputView::Palette { colors }, 0) + rest;
            Seq::new(13, |i: int| u32_at(bytes, 1 + 4 * i)) == colors
        }),
{
    let bytes = sent_input(EmbedInputView::Palette { colors }, 0) + rest;
    let read = Seq::new(13, |i: int| u32_at(bytes, 1 + 4 * i));
    assert forall|i: int| 0 <= i < 13 implies read[i] == colors[i] by {
        assert(bytes.subrange(1 + 4 * i, 1 + 4 * i + 4) =~= u32_le(colors[i]));
        u32_field(bytes, 1 + 4 * i, colors[i]);
    }
    assert(read =~= colors);
}

#[verifier::rlimit(50)]
proof fn numbers_round_trip(input: EmbedInputView, rest: Seq<u8>, producer: Producer)
    requires
        can_be_sent(input, 0, producer),
        input is PointerMove || input is Scroll || input is Resize || input is ScrollPixels
            || input is ScalePercent || input is Display,
    ensures
        input_message(sent_input(input, 0) + rest, producer) == Ok::<
            (EmbedInputView, int),
            ReadError,
        >((input, sent_input(input, 0).len() as int)),
{
    let bytes = sent_input(input, 0) + rest;
    match input {
        EmbedInputView::PointerMove { x_bits, y_bits } => {
            two_numbers(bytes, 0x01, x_bits, y_bits, rest);
        },
        EmbedInputView::Scroll { dx_bits, dy_bits } => {
            two_numbers(bytes, 0x04, dx_bits, dy_bits, rest);
        },
        EmbedInputView::Resize { width, height } => {
            two_numbers(bytes, 0x05, width, height, rest);
        },
        EmbedInputView::ScrollPixels { dx_bits, dy_bits } => {
            two_numbers(bytes, 0x0C, dx_bits, dy_bits, rest);
        },
        EmbedInputView::ScalePercent { pct } => {
            one_number(bytes, 0x0B, pct, rest);
        },
        EmbedInputView::Display { display_id } => {
            one_number(bytes, 0x0E, display_id, rest);
        },
        _ => {},
    }
}

proof fn by_its_tag(bytes: Seq<u8>, producer: Producer)
    requires
        bytes.len() > 0,
    ensures
        bytes[0] == 0x03 ==> input_message(bytes, producer) == key_message(bytes, producer),
        bytes[0] == 0x07 ==> input_message(bytes, producer) == clipboard_message(bytes, producer),
{
}

#[verifier::rlimit(50)]
proof fn keys_arrive(input: EmbedInputView, flag: u8, rest: Seq<u8>, producer: Producer)
    requires
        can_be_sent(input, flag, producer),
        input is Key,
    ensures
        input_message(sent_input(input, flag) + rest, producer) == Ok::<
            (EmbedInputView, int),
            ReadError,
        >((input, sent_input(input, flag).len() as int)),
{
    let bytes = sent_input(input, flag) + rest;
    if let EmbedInputView::Key { key, key_char, modifiers, .. } = input {
        key_round_trip(key, key_char, modifiers, flag, rest, producer);
        assert(bytes[0] == 0x03);
        by_its_tag(bytes, producer);
    }
}

#[verifier::rlimit(50)]
proof fn modifiers_arrive(input: EmbedInputView, flag: u8, rest: Seq<u8>, producer: Producer)
    requires
        can_be_sent(input, flag, producer),
        input is ModifiersChanged,
    ensures
        input_message(sent_input(input, flag) + rest, producer) == Ok::<
            (EmbedInputView, int),
            ReadError,
        >((input, sent_input(input, flag).len() as int)),
{
    let bytes = sent_input(input, flag) + rest;
    if let EmbedInputView::ModifiersChanged { modifiers } = input {
        modifiers_round_trip(modifiers, flag, rest, producer);
        assert(bytes[0] == 0x03);
        by_its_tag(bytes, producer);
    }
}

#[verifier::rlimit(50)]
proof fn clipboards_arrive(input: EmbedInputView, flag: u8, rest: Seq<u8>, producer: Producer)
    requires
        can_be_sent(input, flag, producer),
        input is Clipboard,
    ensures
        input_message(sent_input(input, flag) + rest, producer) == Ok::<
            (EmbedInputView, int),
            ReadError,
        >((input, sent_input(input, flag).len() as int)),
{
    let bytes = sent_input(input, flag) + rest;
    if let EmbedInputView::Clipboard { text } = input {
        clipboard_round_trip(text, rest, producer);
        assert(bytes[0] == 0x07);
        by_its_tag(bytes, producer);
    }
}

#[verifier::rlimit(50)]
proof fn palettes_arrive(input: EmbedInputView, flag: u8, rest: Seq<u8>, producer: Producer)
    requires
        can_be_sent(input, flag, producer),
        input is Palette,
    ensures
        input_message(sent_input(input, flag) + rest, producer) == Ok::<
            (EmbedInputView, int),
            ReadError,
        >((input, sent_input(input, flag).len() as int)),
{
    let bytes = sent_input(input, flag) + rest;
    if let EmbedInputView::Palette { colors } = input {
        palette_round_trip(colors, rest);
        assert(bytes[0] == 0x06);
    }
}

#[verifier::rlimit(50)]
proof fn buttons_arrive(input: EmbedInputView, flag: u8, rest: Seq<u8>, producer: Producer)
    requires
        can_be_sent(input, flag, producer),
        input is Button,
    ensures
        input_message(sent_input(input, flag) + rest, producer) == Ok::<
            (EmbedInputView, int),
            ReadError,
        >((input, sent_input(input, flag).len() as int)),
{
    let bytes = sent_input(input, flag) + rest;
    assert(bytes[0] == 0x02);
}

/// What a consumer sends is what is read, whatever follows it: the same message with the
/// same fields, and all of its bytes.
#[verifier::rlimit(50)]
#[verifier::spinoff_prover]
pub proof fn input_round_trip(
    input: EmbedInputView,
    flag: u8,
    rest: Seq<u8>,
    producer: Producer,
)
    requires
        can_be_sent(input, flag, producer),
    ensures
        input_message(sent_input(input, flag) + rest, producer) == Ok::<
            (EmbedInputView, int),
            ReadError,
        >((input, sent_input(input, flag).len() as int)),
{
    if input is Key {
        keys_arrive(input, flag, rest, producer);
    } else if input is ModifiersChanged {
        modifiers_arrive(input, flag, rest, producer);
    } else if input is Clipboard {
        clipboards_arrive(input, flag, rest, producer);
    } else if input is Palette {
        palettes_arrive(input, flag, rest, producer);
    } else if input is Button {
        buttons_arrive(input, flag, rest, producer);
    } else {
        assert(sent_input(input, flag) == sent_input(input, 0));
        numbers_round_trip(input, rest, producer);
    }
}

/// A message that is incomplete is missing something.
pub proof fn something_is_missing(bytes: Seq<u8>, producer: Producer)
    ensures
        input_message(bytes, producer) matches Err(ReadError::UnexpectedEof { missing }) ==> missing
            > 0,
{
}

/// The inputs whose messages have the length that their tag tells.
pub open spec fn has_fixed_length(input: EmbedInputView) -> bool {
    !(input is Key || input is ModifiersChanged || input is Clipboard)
}

/// A message whose length its tag tells is missing exactly what was cut off of it.
#[verifier::rlimit(50)]
pub proof fn what_is_cut_off_is_missing(
    input: EmbedInputView,
    flag: u8,
    cut: int,
    producer: Producer,
)
    requires
        can_be_sent(input, flag, producer),
        has_fixed_length(input),
        0 < cut < sent_input(input, flag).len(),
    ensures
        input_message(sent_input(input, flag).take(cut), producer) == Err::<
            (EmbedInputView, int),
            ReadError,
        >(
            ReadError::UnexpectedEof {
                missing: (sent_input(input, flag).len() - cut) as usize,
            },
        ),
{
    let whole = sent_input(input, flag);
    let part = whole.take(cut);
    assert(part[0] == whole[0]);
}

/// A key message is missing exactly what was cut off of it, once the length of its last
/// text is there.
#[verifier::rlimit(50)]
pub proof fn what_is_cut_off_a_key_is_missing(
    key: Seq<char>,
    key_char: Seq<char>,
    modifiers: Modifiers,
    flag: u8,
    cut: int,
    producer: Producer,
)
    requires
        encode_utf8(key).len() <= 255,
        encode_utf8(key_char).len() <= 255,
        4 + encode_utf8(key).len() < cut < 5 + encode_utf8(key).len() + encode_utf8(key_char).len(),
    ensures
        ({
            let whole = sent_input(
                EmbedInputView::Key { key, key_char: Some(key_char), modifiers, pressed: flag != 0 },
                flag,
            );
            input_message(whole.take(cut), producer) == Err::<(EmbedInputView, int), ReadError>(
                ReadError::UnexpectedEof { missing: (whole.len() - cut) as usize },
            )
        }),
{
    let whole = sent_input(
        EmbedInputView::Key { key, key_char: Some(key_char), modifiers, pressed: flag != 0 },
        flag,
    );
    let name = encode_utf8(key);
    let part = whole.take(cut);
    text_reads_back(key, producer);
    assert(part[0] == 0x03 && part[3] == name.len() as u8);
    assert(part.subrange(4, 4 + name.len() as int) =~= name);
    assert(part[4 + name.len() as int] == encode_utf8(key_char).len() as u8);
    by_its_tag(part, producer);
}

/// A clipboard message is missing exactly what was cut off of it, once the length of its
/// text is there.
#[verifier::rlimit(50)]
pub proof fn what_is_cut_off_a_clipboard_is_missing(
    text: Seq<char>,
    cut: int,
    producer: Producer,
)
    requires
        encode_utf8(text).len() <= u32::MAX,
        4 < cut < 5 + encode_utf8(text).len(),
    ensures
        ({
            let whole = sent_input(EmbedInputView::Clipboard { text }, 0);
            input_message(whole.take(cut), producer) == Err::<(EmbedInputView, int), ReadError>(
                ReadError::UnexpectedEof { missing: (whole.len() - cut) as usize },
            )
        }),
{
    let part = sent_input(EmbedInputView::Clipboard { text }, 0).take(cut);
    let length = encode_utf8(text).len() as u32;
    assert(part =~= seq![0x07u8] + u32_le(length) + encode_utf8(text).take(cut - 5));
    one_number(part, 0x07, length, encode_utf8(text).take(cut - 5));
    by_its_tag(part, producer);
}

/// A tag is refused exactly where it is none of those that a producer knows: pointer,
/// button, key, scroll, size, palette and clipboard, scale and smooth scroll, and on macOS
/// the display.
pub proof fn only_unknown_tags_are_refused(bytes: Seq<u8>, producer: Producer)
    ensures
        (input_message(bytes, producer) matches Err(ReadError::BadTag { .. })) <==> bytes.len() > 0
            && !(1 <= bytes[0] <= 7 || bytes[0] == 0x0B || bytes[0] == 0x0C || (bytes[0] == 0x0E
            && producer == Producer::MacOs)),
        input_message(bytes, producer) matches Err(ReadError::BadTag { tag }) ==> tag == bytes[0]
            && refused_length(bytes, producer) == 1,
{
}

/// A text that is refused was read to its end, and nothing behind it was.
#[verifier::rlimit(50)]
pub proof fn a_refused_text_was_read(
    flag: u8,
    bits: u8,
    name: Seq<u8>,
    typed: Seq<u8>,
    text: Seq<u8>,
    rest: Seq<u8>,
)
    requires
        name.len() <= 255,
        typed.len() <= 255,
        text.len() <= u32::MAX,
    ensures
        ({
            let head = seq![0x03u8, flag, bits, name.len() as u8] + name;
            let key = head + seq![typed.len() as u8] + typed;
            let clipboard = seq![0x07u8] + u32_le(text.len() as u32) + text;
            let refused = Err::<(EmbedInputView, int), ReadError>(ReadError::InvalidUtf8);
            &&& !valid_utf8(name) ==> input_message(head + rest, Producer::Linux) == refused
                && refused_length(head + rest, Producer::Linux) == head.len()
            &&& valid_utf8(name) && !valid_utf8(typed) ==> input_message(
                key + rest,
                Producer::Linux,
            ) == refused && refused_length(key + rest, Producer::Linux) == key.len()
            &&& !valid_utf8(text) ==> input_message(clipboard + rest, Producer::Linux) == refused
                && refused_length(clipboard + rest, Producer::Linux) == clipboard.len()
        }),
{
    let head = seq![0x03u8, flag, bits, name.len() as u8] + name;
    let key = head + seq![typed.len() as u8] + typed;
    let clipboard = seq![0x07u8] + u32_le(text.len() as u32) + text;
    let name_end = 4 + name.len() as int;
    assert((head + rest).subrange(4, name_end) =~= name);
    assert((key + rest).subrange(4, name_end) =~= name);
    assert((key + rest)[name_end] == typed.len() as u8);
    assert((key + rest).subrange(name_end + 1, name_end + 1 + typed.len()) =~= typed);
    assert(clipboard + rest =~= seq![0x07u8] + u32_le(text.len() as u32) + (text + rest));
    one_number(clipboard + rest, 0x07, text.len() as u32, text + rest);
    assert((clipboard + rest).subrange(5, 5 + text.len() as int) =~= text);
}

/// Of a message that is not refused nothing is read away: neither where its bytes are not
/// all there, nor where it can be decoded. A tag that nobody knows is one byte.
pub proof fn only_what_is_refused_is_read_away(bytes: Seq<u8>, producer: Producer)
    ensures
        input_message(bytes, producer) matches Err(ReadError::UnexpectedEof { .. })
            ==> refused_length(bytes, producer) == 0,
        input_message(bytes, producer) is Ok ==> refused_length(bytes, producer) == 0,
        input_message(bytes, producer) matches Err(ReadError::BadTag { .. }) ==> refused_length(
            bytes,
            producer,
        ) == 1,
{
}

} // verus!
