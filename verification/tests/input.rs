use std::collections::VecDeque;

use zed_embed::input::{
    decode_input, modifiers_of, mouse_button, read_input, EmbedInput, Modifiers, MouseButton,
    NavigationDirection, Producer,
};
use zed_embed::stream::read_messages;
use zed_embed::wire::ReadError;

const ALL: [Producer; 3] = [Producer::Linux, Producer::MacOs, Producer::Windows];

fn key(pressed: u8, mods: u8, name: &[u8], text: &[u8]) -> Vec<u8> {
    let mut bytes = vec![0x03, pressed, mods, name.len() as u8];
    bytes.extend_from_slice(name);
    bytes.push(text.len() as u8);
    bytes.extend_from_slice(text);
    bytes
}

/// Tag `0x0E` exists in one producer and in its consumer alone. These are the exact
/// bytes that the consumer writes.
#[test]
fn a_display_id_decodes_from_the_bytes_the_consumer_writes() {
    let mut bytes: &[u8] = &[0x0E, 0x00, 0x04, 0x28, 0x04];
    match read_input(&mut bytes, Producer::MacOs).expect("decoding a display id") {
        EmbedInput::Display { display_id } => assert_eq!(display_id, 0x0428_0400),
        _ => panic!("tag 0x0E decoded as something other than a display id"),
    }
    assert!(bytes.is_empty());
}

#[test]
fn display_messages_are_for_macos_only() {
    let bytes: &[u8] = &[0x0E, 0x00, 0x04, 0x28, 0x04];
    for producer in [Producer::Linux, Producer::Windows] {
        assert_eq!(
            decode_input(bytes, producer).unwrap_err(),
            ReadError::BadTag { tag: 0x0E }
        );
    }
}

#[test]
fn pointer_moves_keep_their_bits() {
    let mut bytes = vec![0x01];
    bytes.extend_from_slice(&12.5f32.to_le_bytes());
    bytes.extend_from_slice(&(-0.25f32).to_le_bytes());
    for producer in ALL {
        let (input, length) = decode_input(&bytes, producer).unwrap();
        assert_eq!(length, 9);
        match input {
            EmbedInput::PointerMove { x_bits, y_bits } => {
                assert_eq!(f32::from_bits(x_bits), 12.5);
                assert_eq!(f32::from_bits(y_bits), -0.25);
            }
            _ => panic!("not a move"),
        }
    }
}

#[test]
fn buttons_scrolls_and_sizes_decode() {
    for producer in ALL {
        assert!(matches!(
            decode_input(&[0x02, 9, 4], producer).unwrap(),
            (EmbedInput::Button { button: 9, pressed: true }, 3)
        ));
        assert!(matches!(
            decode_input(&[0x02, 1, 0, 77], producer).unwrap(),
            (EmbedInput::Button { button: 1, pressed: false }, 3)
        ));
        assert!(matches!(
            decode_input(&[0x05, 0, 5, 0, 0, 0, 0, 1, 0], producer).unwrap(),
            (EmbedInput::Resize { width: 1280, height: 65536 }, 9)
        ));
        assert!(matches!(
            decode_input(&[0x04, 1, 0, 0, 0, 2, 0, 0, 0], producer).unwrap(),
            (EmbedInput::Scroll { dx_bits: 1, dy_bits: 2 }, 9)
        ));
    }
    for producer in ALL {
        assert!(matches!(
            decode_input(&[0x0B, 150, 0, 0, 0], producer).unwrap(),
            (EmbedInput::ScalePercent { pct: 150 }, 5)
        ));
        assert!(matches!(
            decode_input(&[0x0C, 1, 0, 0, 0, 2, 0, 0, 0], producer).unwrap(),
            (EmbedInput::ScrollPixels { dx_bits: 1, dy_bits: 2 }, 9)
        ));
    }
}

/// One consumer drives all three producers.
#[test]
fn producers_read_the_same_messages() {
    let mut whole: Vec<u8> = vec![0x01, 1, 2, 3, 4, 5, 6, 7, 8, 0x02, 3, 1];
    whole.extend_from_slice(&key(1, 0b0011, "ö".as_bytes(), b""));
    whole.extend_from_slice(&key(0, 0b1000, b"", b""));
    whole.extend_from_slice(&[0x04, 1, 0, 0, 0, 2, 0, 0, 0]);
    whole.extend_from_slice(&[0x0C, 3, 0, 0, 0, 4, 0, 0, 0]);
    whole.extend_from_slice(&[0x05, 1, 0, 0, 0, 2, 0, 0, 0]);
    whole.extend_from_slice(&[0x0B, 200, 0, 0, 0]);
    whole.push(0x06);
    whole.extend_from_slice(&[7; 52]);
    whole.extend_from_slice(&[0x07, 2, 0, 0, 0, b'o', b'k']);
    for end in 0..=whole.len() {
        let read = |producer| {
            let mut reader: &[u8] = &whole[..end];
            let mut queue = VecDeque::new();
            let ended = read_messages(&mut reader, producer, &mut queue);
            format!("{queue:?} {ended:?} {reader:?}")
        };
        assert_eq!(read(Producer::Linux), read(Producer::MacOs));
        assert_eq!(read(Producer::Linux), read(Producer::Windows));
    }
}

#[test]
fn palettes_decode_in_order() {
    let mut bytes = vec![0x06];
    for i in 0..13u32 {
        bytes.extend_from_slice(&(0x1122_3300 + i).to_le_bytes());
    }
    let (input, length) = decode_input(&bytes, Producer::Linux).unwrap();
    assert_eq!(length, 53);
    match input {
        EmbedInput::Palette { colors } => {
            for i in 0..13 {
                assert_eq!(colors[i], 0x1122_3300 + i as u32);
            }
        }
        _ => panic!("not a palette"),
    }
}

#[test]
fn keys_decode_with_their_modifiers() {
    for producer in ALL {
        let bytes = key(1, 0b0101, b"a", "ä".as_bytes());
        let (input, length) = decode_input(&bytes, producer).unwrap();
        assert_eq!(length, bytes.len());
        match input {
            EmbedInput::Key { key, key_char, modifiers, pressed } => {
                assert_eq!(key, "a");
                assert_eq!(key_char.as_deref(), Some("ä"));
                assert!(modifiers.control && modifiers.shift);
                assert!(!modifiers.alt && !modifiers.platform && !modifiers.function);
                assert!(pressed);
            }
            _ => panic!("not a key"),
        }
        match decode_input(&key(0, 0, b"escape", b""), producer).unwrap().0 {
            EmbedInput::Key { key_char, pressed, .. } => {
                assert_eq!(key_char, None);
                assert!(!pressed);
            }
            _ => panic!("not a key"),
        }
    }
}

#[test]
fn a_key_without_a_name_changes_modifiers() {
    let bytes = key(1, 0b1010, b"", b"x");
    for producer in ALL {
        match decode_input(&bytes, producer).unwrap() {
            (EmbedInput::ModifiersChanged { modifiers }, length) => {
                assert!(modifiers.alt && modifiers.platform);
                assert!(!modifiers.control && !modifiers.shift);
                assert_eq!(length, 6);
            }
            _ => panic!("not a change of modifiers"),
        }
    }
}

#[test]
fn malformed_text_is_refused_or_repaired() {
    let bytes = key(1, 0, b"\xff", b"");
    assert_eq!(
        decode_input(&bytes, Producer::Linux).unwrap_err(),
        ReadError::InvalidUtf8
    );
    match decode_input(&bytes, Producer::Windows).unwrap().0 {
        EmbedInput::Key { key, .. } => assert_eq!(key, "\u{fffd}"),
        _ => panic!("not a key"),
    }
    let bytes = key(1, 0, b"a", b"\xc3");
    assert_eq!(
        decode_input(&bytes, Producer::Linux).unwrap_err(),
        ReadError::InvalidUtf8
    );

    let clipboard: &[u8] = &[0x07, 2, 0, 0, 0, b'o', 0xff];
    assert_eq!(
        decode_input(clipboard, Producer::Linux).unwrap_err(),
        ReadError::InvalidUtf8
    );
    match decode_input(clipboard, Producer::MacOs).unwrap().0 {
        EmbedInput::Clipboard { text } => assert_eq!(text, "o\u{fffd}"),
        _ => panic!("not the clipboard"),
    }
}

#[test]
fn clipboards_decode() {
    for producer in ALL {
        match decode_input(&[0x07, 2, 0, 0, 0, b'h', b'i', 9], producer).unwrap() {
            (EmbedInput::Clipboard { text }, 7) => assert_eq!(text, "hi"),
            _ => panic!("not the clipboard"),
        }
        match decode_input(&[0x07, 0, 0, 0, 0], producer).unwrap() {
            (EmbedInput::Clipboard { text }, 5) => assert_eq!(text, ""),
            _ => panic!("not the clipboard"),
        }
    }
}

#[test]
fn missing_bytes_are_counted_and_never_too_many() {
    let whole = key(1, 0, b"enter", b"\n");
    for have in 0..whole.len() {
        match decode_input(&whole[..have], Producer::Linux) {
            Err(ReadError::UnexpectedEof { missing }) => {
                assert!(missing > 0 && have + missing <= whole.len());
            }
            _ => panic!("a prefix decoded"),
        }
    }
    assert_eq!(
        decode_input(&[0x07, 10, 0, 0, 0, b'x'], Producer::MacOs).unwrap_err(),
        ReadError::UnexpectedEof { missing: 9 }
    );
    assert_eq!(
        decode_input(&[0x06], Producer::Linux).unwrap_err(),
        ReadError::UnexpectedEof { missing: 52 }
    );
}

#[test]
fn unknown_tags_are_refused() {
    for producer in ALL {
        assert_eq!(
            decode_input(&[0xAA, 1, 2, 3], producer).unwrap_err(),
            ReadError::BadTag { tag: 0xAA }
        );
        // The tag was read.
        let mut reader: &[u8] = &[0xAA, 1, 2, 3];
        read_input(&mut reader, producer).unwrap_err();
        assert_eq!(reader, &[1, 2, 3]);
    }
}

#[test]
fn a_reader_has_read_the_text_that_is_refused() {
    let mut bytes = key(1, 0, b"\xff", b"ab");
    let mut reader: &[u8] = &bytes;
    assert_eq!(
        read_input(&mut reader, Producer::Linux).unwrap_err(),
        ReadError::InvalidUtf8
    );
    assert_eq!(reader, &[2, b'a', b'b']);

    bytes = key(1, 0, b"a", b"\xc3");
    bytes.push(9);
    let mut reader: &[u8] = &bytes;
    read_input(&mut reader, Producer::Linux).unwrap_err();
    assert_eq!(reader, &[9]);

    let mut reader: &[u8] = &[0x07, 2, 0, 0, 0, b'o', 0xff, 8];
    read_input(&mut reader, Producer::Linux).unwrap_err();
    assert_eq!(reader, &[8]);
}

#[test]
fn a_reader_stays_where_a_message_is_incomplete() {
    let bytes = [0x02, 1, 1, 0x05, 0];
    let mut reader: &[u8] = &bytes;
    assert!(read_input(&mut reader, Producer::Linux).is_ok());
    assert_eq!(reader, &[0x05, 0]);
    assert!(read_input(&mut reader, Producer::Linux).is_err());
    assert_eq!(reader, &[0x05, 0]);
}

#[test]
fn buttons_are_those_of_gdk() {
    assert_eq!(mouse_button(1), MouseButton::Left);
    assert_eq!(mouse_button(2), MouseButton::Middle);
    assert_eq!(mouse_button(3), MouseButton::Right);
    assert_eq!(
        mouse_button(8),
        MouseButton::Navigate(NavigationDirection::Back)
    );
    assert_eq!(
        mouse_button(9),
        MouseButton::Navigate(NavigationDirection::Forward)
    );
    assert_eq!(mouse_button(0), MouseButton::Left);
    assert_eq!(mouse_button(200), MouseButton::Left);
}

#[test]
fn modifiers_are_the_four_lowest_bits() {
    assert_eq!(modifiers_of(0), Modifiers::default());
    assert_eq!(modifiers_of(0xF0), Modifiers::default());
    let all = modifiers_of(0xFF);
    assert!(all.control && all.alt && all.shift && all.platform && !all.function);
}

#[test]
fn cutting_a_stream_changes_nothing() {
    let mut whole = vec![0x02, 1, 1];
    whole.extend_from_slice(&key(1, 0, b"a", b"a"));
    whole.extend_from_slice(&[0x07, 3, 0, 0, 0, b'a', b'b', b'c']);
    whole.extend_from_slice(&[0x05, 1]);
    for cut in 0..=whole.len() {
        let mut queue = VecDeque::new();
        let mut first: &[u8] = &whole[..cut];
        read_messages(&mut first, Producer::Windows, &mut queue);
        let mut rest = first.to_vec();
        rest.extend_from_slice(&whole[cut..]);
        let mut reader: &[u8] = &rest;
        let ended = read_messages(&mut reader, Producer::Windows, &mut queue);
        assert_eq!(ended, ReadError::UnexpectedEof { missing: 7 });
        assert_eq!(reader, &[0x05, 1]);
        assert_eq!(queue.len(), 3);
        assert!(matches!(queue[0], EmbedInput::Button { button: 1, pressed: true }));
        assert!(matches!(queue[1], EmbedInput::Key { .. }));
        assert!(matches!(queue[2], EmbedInput::Clipboard { .. }));
    }
}

#[test]
fn nothing_is_read_behind_a_refusal() {
    let bytes = [0x02, 1, 1, 0xEE, 0x02, 1, 0];
    let mut reader: &[u8] = &bytes;
    let mut queue = VecDeque::new();
    let ended = read_messages(&mut reader, Producer::Linux, &mut queue);
    assert_eq!(ended, ReadError::BadTag { tag: 0xEE });
    assert_eq!(queue.len(), 1);
    assert_eq!(reader, &[0x02, 1, 0]);
}
