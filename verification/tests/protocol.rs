use zed_embed::cursor::{cursor_name, CursorStyle, PendingCursor};
use zed_embed::display::{display, EmbedDisplay};
use zed_embed::dmabuf::{
    export_memory_type, exported_plane, fourcc, map_and_read, recv_handshake, send_handshake, DmabufInfo, ExportError,
    NotHostVisible, DRM_FORMAT_ABGR8888,
};
use zed_embed::memory::{pick_mappable_memory_type, pick_memory_type};
use zed_embed::pixels::{pack_rows, padded_row, swap_red_and_blue};
use zed_embed::protocol::{
    send_cursor, send_fence_value, send_iosurface_handshake, send_mode, send_ready,
    send_shared_extra, send_shared_handshake, write_clipboard, write_cursor, write_embed_frame,
    write_title,
};
use zed_embed::text::{decimal, same_text};
use zed_embed::win32::{select_exportable_adapter, shared_texture, SharedTextureInfo};
use zed_embed::wire::{read_u32, ReadError};

fn sent(write: impl FnOnce(&mut Vec<u8>)) -> Vec<u8> {
    let mut out = Vec::new();
    write(&mut out);
    out
}

#[test]
fn frames_are_framed() {
    let out = sent(|out| write_embed_frame(out, 2, 1, &[1, 2, 3, 4, 5, 6, 7, 8]));
    assert_eq!(
        out,
        b"FRAM\x02\0\0\0\x01\0\0\0\x08\0\0\0\x08\0\0\0\x01\x02\x03\x04\x05\x06\x07\x08"
    );
}

#[test]
fn messages_are_appended() {
    let mut out = vec![9];
    send_mode(&mut out, true);
    send_ready(&mut out, 1, 2, 258);
    assert_eq!(out, b"\x09\x01RDY!\x01\0\0\0\x02\0\0\0\x02\x01\0\0");
    assert_eq!(sent(|out| send_mode(out, false)), b"\x00");
}

#[test]
fn titles_are_cut_off() {
    assert_eq!(sent(|out| write_title(out, "zed")), b"TITL\x03\0\0\0zed");
    let long = "x".repeat(2000);
    let out = sent(|out| write_title(out, &long));
    assert_eq!(out.len(), 8 + 1024);
    assert_eq!(&out[4..8], &1024u32.to_le_bytes());
    // No character is cut in two.
    let wide = "é".repeat(600);
    assert_eq!(sent(|out| write_title(out, &wide)).len(), 8 + 1024);
    let odd = "x".repeat(1023) + "é";
    let out = sent(|out| write_title(out, &odd));
    assert_eq!(&out[4..8], &1023u32.to_le_bytes());
    assert_eq!(&out[8..], &odd.as_bytes()[..1023]);
    let emoji = "x".repeat(1021) + "\u{1f600}z";
    assert_eq!(sent(|out| write_title(out, &emoji)).len(), 8 + 1021);
    let exact = "x".repeat(1020) + "\u{1f600}";
    assert_eq!(&sent(|out| write_title(out, &exact))[8..], exact.as_bytes());
}

#[test]
fn copies_go_out_in_full() {
    assert_eq!(sent(|out| write_clipboard(out, "hé")), b"CLIP\x03\0\0\0h\xc3\xa9");
    assert_eq!(sent(|out| write_clipboard(out, "")), b"CLIP\0\0\0\0");
}

#[test]
fn every_producer_names_cursors_alike() {
    let styles = [
        (CursorStyle::Arrow, "default"),
        (CursorStyle::IBeam, "text"),
        (CursorStyle::Crosshair, "crosshair"),
        (CursorStyle::ClosedHand, "grabbing"),
        (CursorStyle::OpenHand, "grab"),
        (CursorStyle::PointingHand, "pointer"),
        (CursorStyle::ResizeLeft, "w-resize"),
        (CursorStyle::ResizeRight, "e-resize"),
        (CursorStyle::ResizeLeftRight, "ew-resize"),
        (CursorStyle::ResizeUp, "n-resize"),
        (CursorStyle::ResizeDown, "s-resize"),
        (CursorStyle::ResizeUpDown, "ns-resize"),
        (CursorStyle::ResizeUpLeftDownRight, "nwse-resize"),
        (CursorStyle::ResizeUpRightDownLeft, "nesw-resize"),
        (CursorStyle::ResizeColumn, "col-resize"),
        (CursorStyle::ResizeRow, "row-resize"),
        (CursorStyle::IBeamCursorForVerticalLayout, "vertical-text"),
        (CursorStyle::OperationNotAllowed, "not-allowed"),
        (CursorStyle::Other, "default"),
    ];
    for (style, name) in styles {
        assert_eq!(cursor_name(style), name);
        assert_eq!(
            sent(|out| write_cursor(out, name)),
            sent(|out| send_cursor(out, name))
        );
    }
    assert_eq!(sent(|out| send_cursor(out, "text")), b"CURS\x04text");
    // Only a longer name than any of these would be cut off.
    let long = "c".repeat(70);
    assert_eq!(sent(|out| send_cursor(out, &long)).len(), 5 + 64);
    assert_eq!(sent(|out| write_cursor(out, &long)).len(), 5 + 70);
    let longer = "c".repeat(300);
    assert_eq!(sent(|out| write_cursor(out, &longer))[4], 44);
}

#[test]
fn the_latest_cursor_request_wins() {
    let mut pending = PendingCursor::new();
    assert_eq!(pending.take(), None);
    pending.set_cursor_style(CursorStyle::Arrow);
    pending.set_cursor_style(CursorStyle::IBeam);
    assert_eq!(pending.take(), Some("text"));
    assert_eq!(pending.take(), None);
}

#[test]
fn handshakes_of_macos_and_windows() {
    assert_eq!(
        sent(|out| send_iosurface_handshake(out, "ab", 2, 3840, 2160)),
        b"IOSF\x02\0\0\0ab\x02\0\0\0\x00\x0f\0\0\x70\x08\0\0"
    );
    assert_eq!(
        sent(|out| send_shared_handshake(out, 0x1_0000_0002, 3, 4)),
        b"SHTX\x02\0\0\0\x01\0\0\0\x03\0\0\0\x04\0\0\0"
    );
    assert_eq!(
        sent(|out| send_shared_extra(out, -1, 5)),
        b"SHT2\xff\xff\xff\xff\xff\xff\xff\xff\x05\0\0\0\0\0\0\0"
    );
    assert_eq!(
        sent(|out| send_shared_extra(out, i64::MIN, -2)),
        b"SHT2\0\0\0\0\0\0\0\x80\xfe\xff\xff\xff\xff\xff\xff\xff"
    );
    assert_eq!(
        sent(|out| send_fence_value(out, 0x0102_0304_0506_0708)),
        b"FNCV\x08\x07\x06\x05\x04\x03\x02\x01"
    );
}

const INFO: DmabufInfo = DmabufInfo {
    width: 640,
    height: 480,
    stride: 2560,
    offset: 16,
    modifier: 0x0100_0000_0000_0002,
    fourcc: DRM_FORMAT_ABGR8888,
};

#[test]
fn dmabuf_handshakes_round_trip() {
    let mut message = sent(|out| send_handshake(out, &INFO, 2));
    assert_eq!(message.len(), 36);
    assert_eq!(&message[..8], b"DMAB\x02\0\0\0");
    assert_eq!(&message[32..], b"AB24");
    message.resize(64, 0);
    assert_eq!(recv_handshake(&message, 2), Ok(INFO));
    assert_eq!(
        recv_handshake(&message, 1),
        Err(ReadError::FdCountMismatch { got: 1, want: 2 })
    );
    message[0] = b'X';
    assert_eq!(recv_handshake(&message, 2), Err(ReadError::BadMagic));
}

#[test]
fn formats_spell_their_codes() {
    assert_eq!(fourcc(b'A', b'B', b'2', b'4'), DRM_FORMAT_ABGR8888);
    assert_eq!(fourcc(1, 2, 3, 4), 0x0403_0201);
    assert_eq!(fourcc(255, 255, 255, 255), u32::MAX);
}

#[test]
fn exports_need_a_descriptor() {
    assert_eq!(
        exported_plane(-1, 1, 1, 4, 0),
        Err(ExportError::InvalidDescriptor)
    );
    let info = exported_plane(3, 0, 7, 256, 64).unwrap();
    assert_eq!((info.width, info.height), (1, 7));
    assert_eq!((info.stride, info.offset), (256, 64));
    assert_eq!(info.modifier, 0);
    assert!(shared_texture(0, 1, 1).is_err());
    assert_eq!(
        shared_texture(5, 0, 2).unwrap(),
        SharedTextureInfo { width: 1, height: 2 }
    );
}

#[test]
fn memory_on_the_device_is_preferred() {
    // Host-visible; on the device; on the device and mappable.
    let types = [0b110, 0b001, 0b111];
    assert_eq!(pick_memory_type(&types, 0b111), Some(1));
    assert_eq!(pick_memory_type(&types, 0b101), Some(2));
    assert_eq!(pick_memory_type(&types, 0b001), Some(0));
    assert_eq!(pick_memory_type(&types, 0b1000), None);
    assert_eq!(pick_memory_type(&[], u32::MAX), None);
    assert_eq!(pick_mappable_memory_type(&types, 0b111), Some((2, true)));
    assert_eq!(pick_mappable_memory_type(&types, 0b011), Some((1, false)));
    assert_eq!(pick_mappable_memory_type(&types, 0b001), Some((0, false)));
    assert_eq!(pick_mappable_memory_type(&types, 0), None);
}

#[test]
fn the_first_adapter_that_can_export_is_chosen() {
    let native = vec!["VK_KHR_swapchain".to_string()];
    let dozen = vec![
        "VK_KHR_swapchain".to_string(),
        "VK_KHR_external_memory_win32".to_string(),
    ];
    assert_eq!(
        select_exportable_adapter(&vec![native.clone(), dozen.clone(), dozen]),
        Some(1)
    );
    assert_eq!(select_exportable_adapter(&vec![native, Vec::new()]), None);
}

#[test]
fn red_and_blue_are_exchanged() {
    let mut pixels = vec![1, 2, 3, 4, 5, 6, 7, 8, 9];
    swap_red_and_blue(&mut pixels);
    assert_eq!(pixels, [3, 2, 1, 4, 7, 6, 5, 8, 9]);
    swap_red_and_blue(&mut pixels);
    assert_eq!(pixels, [1, 2, 3, 4, 5, 6, 7, 8, 9]);
}

#[test]
fn padding_is_taken_out() {
    let bytes: Vec<u8> = (0..20).collect();
    assert_eq!(pack_rows(&bytes, 1, 8, 4, 2), [1, 2, 3, 4, 9, 10, 11, 12]);
    assert!(pack_rows(&bytes, 0, 8, 4, 0).is_empty());
    let info = DmabufInfo { width: 1, height: 2, stride: 8, offset: 1, ..INFO };
    assert_eq!(
        map_and_read(&info, true, &bytes).unwrap(),
        [1, 2, 3, 4, 9, 10, 11, 12]
    );
    assert_eq!(map_and_read(&info, false, &bytes), Err(NotHostVisible));
}

#[test]
fn rows_are_padded_to_the_alignment() {
    assert_eq!(padded_row(256), 1024);
    assert_eq!(padded_row(1), 256);
    assert_eq!(padded_row(65), 512);
    assert_eq!(padded_row(0), 0);
}

#[test]
fn there_is_one_display() {
    let only = EmbedDisplay::new();
    assert_eq!((only.width, only.height), (1920, 1080));
    assert_eq!(only.id(), 0);
    assert_eq!(only.uuid(), [0; 16]);
    assert_eq!(display(0), Some(only));
    assert_eq!(display(1), None);
}

#[test]
fn numbers_are_written_in_decimal() {
    assert_eq!(decimal(0), "0");
    assert_eq!(decimal(10), "10");
    assert_eq!(decimal(u64::MAX), "18446744073709551615");
    assert!(same_text("grüße", "grüße"));
    assert!(!same_text("a", "b"));
    assert!(!same_text("a", "ab"));
}

#[test]
fn an_image_without_memory_is_not_exported() {
    // The flags of memory types: the first bit is device-local.
    assert_eq!(export_memory_type(&[0, 1, 1], 0b111), Ok(1));
    assert_eq!(export_memory_type(&[0, 1, 1], 0b101), Ok(2));
    assert_eq!(export_memory_type(&[0, 1, 1], 0b001), Ok(0));
    assert_eq!(
        export_memory_type(&[0, 1, 1], 0b1000),
        Err(ExportError::NoMemoryType)
    );
}

#[test]
fn numbers_are_read_off_the_front() {
    let bytes = [0x78, 0x56, 0x34, 0x12, 9, 8];
    let mut reader: &[u8] = &bytes;
    assert_eq!(read_u32(&mut reader), Ok(0x1234_5678));
    assert_eq!(reader, &[9, 8]);
    assert_eq!(
        read_u32(&mut reader),
        Err(ReadError::UnexpectedEof { missing: 2 })
    );
    assert_eq!(reader, &[9, 8]);
}
