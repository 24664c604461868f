use zed_embed::dmabuf::{DmabufInfo, DRM_FORMAT_ABGR8888, DRM_FORMAT_MOD_LINEAR};
use zed_embed::pixels::padded_row;
use zed_embed::poc::{
    follow, image_pixel, mapped_length, other_buffer, parse_mode, read_dmabuf_pixel, read_frame,
    read_ready, send_frame_ready, unpad_image, Input, Mode, Pixel, Probe, HEIGHT,
    WIDTH,
};
use zed_embed::protocol::write_frame;
use zed_embed::wire::ReadError;

#[test]
fn inputs_round_trip() {
    let inputs = [
        Input::PointerMove { x_bits: 180.0f32.to_bits(), y_bits: 70.0f32.to_bits() },
        Input::Button { button: 3, pressed: true },
        Input::Key { keyval: 0xff0d, pressed: false },
        Input::Scroll { dx_bits: 1.5f32.to_bits(), dy_bits: (-1.0f32).to_bits() },
    ];
    let mut bytes = Vec::new();
    for input in inputs {
        input.write(&mut bytes);
    }
    assert_eq!(bytes.len(), 9 + 3 + 6 + 9);
    let mut reader: &[u8] = &bytes;
    for input in inputs {
        assert_eq!(Input::read(&mut reader), Ok(input));
    }
    assert_eq!(
        Input::read(&mut reader),
        Err(ReadError::UnexpectedEof { missing: 1 })
    );
}

#[test]
fn inputs_have_their_bytes() {
    let mut bytes = Vec::new();
    Input::Key { keyval: 0x0102_0304, pressed: true }.write(&mut bytes);
    assert_eq!(bytes, [3, 4, 3, 2, 1, 1]);
    let mut reader: &[u8] = &bytes[..4];
    assert_eq!(
        Input::read(&mut reader),
        Err(ReadError::UnexpectedEof { missing: 2 })
    );
    assert_eq!(reader.len(), 4);
    let mut reader: &[u8] = &[5, 0, 0];
    assert_eq!(Input::read(&mut reader), Err(ReadError::BadTag { tag: 5 }));
    assert_eq!(reader, &[0, 0]);
    // Any byte but zero means that the button is down.
    let mut reader: &[u8] = &[2, 1, 200];
    assert_eq!(
        Input::read(&mut reader),
        Ok(Input::Button { button: 1, pressed: true })
    );
}

#[test]
fn frames_round_trip() {
    let mut bytes = Vec::new();
    write_frame(&mut bytes, 2, 1, 12, &[1, 2, 3, 4, 5, 6, 7, 8, 0, 0, 0, 0]);
    bytes.push(77);
    let mut reader: &[u8] = &bytes;
    let frame = read_frame(&mut reader).unwrap();
    assert_eq!((frame.width, frame.height, frame.stride), (2, 1, 12));
    assert_eq!(frame.data, [1, 2, 3, 4, 5, 6, 7, 8, 0, 0, 0, 0]);
    assert_eq!(reader, [77]);
}

#[test]
fn frames_that_are_not_there() {
    let mut bytes = Vec::new();
    write_frame(&mut bytes, 2, 1, 8, &[0; 8]);
    for (have, missing) in [(0, 4), (3, 1), (4, 16), (19, 1), (20, 8), (27, 1)] {
        let mut reader: &[u8] = &bytes[..have];
        assert_eq!(
            read_frame(&mut reader).unwrap_err(),
            ReadError::UnexpectedEof { missing }
        );
        assert_eq!(reader.len(), have);
    }
    bytes[3] = b'E';
    let mut reader: &[u8] = &bytes;
    assert_eq!(read_frame(&mut reader).unwrap_err(), ReadError::BadMagic);
    assert_eq!(reader, &bytes[4..]);
}

#[test]
fn notices_name_a_buffer() {
    let mut bytes = Vec::new();
    send_frame_ready(&mut bytes, 1);
    assert_eq!(bytes, b"RDY!\x01\0\0\0\0\x01\0\0\0\x01\0\0");
    for (have, missing) in [(3, 1), (6, 10), (8, 8), (15, 1)] {
        let mut reader = &bytes[..have];
        assert_eq!(
            read_ready(&mut reader),
            Err(ReadError::UnexpectedEof { missing })
        );
        assert_eq!(reader.len(), have);
    }
    let mut reader: &[u8] = b"RDY?\x01\0\0\0";
    assert_eq!(read_ready(&mut reader), Err(ReadError::BadMagic));
    assert_eq!(reader, b"\x01\0\0\0");
}

#[test]
fn notices_follow_one_another() {
    let mut bytes = Vec::new();
    for index in [0, 1, 0] {
        send_frame_ready(&mut bytes, index);
    }
    let mut reader: &[u8] = &bytes;
    for index in [0, 1, 0] {
        assert_eq!(read_ready(&mut reader), Ok(index));
    }
    assert!(reader.is_empty());
}

#[test]
fn arguments_name_modes() {
    assert_eq!(parse_mode(None), Some(Mode::Once));
    assert_eq!(parse_mode(Some("once")), Some(Mode::Once));
    assert_eq!(parse_mode(Some("producer")), Some(Mode::Producer));
    assert_eq!(parse_mode(Some("probe")), Some(Mode::Probe));
    assert_eq!(parse_mode(Some("dmabuf-once")), Some(Mode::DmabufOnce));
    assert_eq!(parse_mode(Some("dmabuf-producer")), Some(Mode::DmabufProducer));
    assert_eq!(parse_mode(Some("dmabuf-probe")), Some(Mode::DmabufProbe));
    assert_eq!(parse_mode(Some("")), None);
    assert_eq!(parse_mode(Some("Once")), None);
}

#[test]
fn the_triangle_is_orange() {
    let pixel = |red, green, blue| Pixel { red, green, blue, alpha: 255 };
    assert!(pixel(229, 102, 26).is_orange());
    assert!(!pixel(13, 13, 20).is_orange());
    assert!(pixel(181, 61, 89).is_orange());
    assert!(pixel(181, 159, 0).is_orange());
    assert!(!pixel(180, 100, 0).is_orange());
    assert!(!pixel(229, 60, 26).is_orange());
    assert!(!pixel(229, 160, 26).is_orange());
    assert!(!pixel(229, 102, 90).is_orange());
    let mut probe = Probe::new();
    assert!(!probe.look(pixel(13, 13, 20)));
    assert!(probe.look(pixel(229, 102, 26)));
    assert_eq!(probe.frames, 2);
}

#[test]
fn pixels_are_found() {
    let data: Vec<u8> = (0..48).collect();
    assert_eq!(
        image_pixel(&data, 3, 1, 2),
        Pixel { red: 28, green: 29, blue: 30, alpha: 31 }
    );
    let info = DmabufInfo {
        width: 3,
        height: 2,
        stride: 16,
        offset: 4,
        modifier: DRM_FORMAT_MOD_LINEAR,
        fourcc: DRM_FORMAT_ABGR8888,
    };
    assert_eq!(mapped_length(&info), 36);
    assert_eq!(
        read_dmabuf_pixel(&data[..36], &info, 2, 1),
        Pixel { red: 28, green: 29, blue: 30, alpha: 31 }
    );
}

#[test]
fn images_lose_their_padding() {
    let stride = padded_row(WIDTH) as usize;
    let mut mapped = vec![0u8; stride * HEIGHT as usize];
    for row in 0..HEIGHT as usize {
        mapped[row * stride] = row as u8;
    }
    let image = unpad_image(&mapped);
    assert_eq!(image.len(), (WIDTH * HEIGHT * 4) as usize);
    for row in 0..HEIGHT as usize {
        assert_eq!(image[row * WIDTH as usize * 4], row as u8);
    }
}

#[test]
fn the_triangle_follows_moves_only() {
    let mut pointer = (1, 2);
    follow(&mut pointer, Input::Button { button: 1, pressed: true });
    assert_eq!(pointer, (1, 2));
    follow(&mut pointer, Input::PointerMove { x_bits: 3, y_bits: 4 });
    assert_eq!(pointer, (3, 4));
    assert_eq!(other_buffer(0), 1);
    assert_eq!(other_buffer(1), 0);
}
