use zed_embed::capture::{cap_capture, CaptureLimits};

const CAPTURE_MAX_BYTES: usize = 1 << 20;
const CAPTURE_KEEP_BYTES: usize = 1 << 19;

const LIMITS: CaptureLimits = CaptureLimits {
    max: CAPTURE_MAX_BYTES,
    keep: CAPTURE_KEEP_BYTES,
};

#[test]
fn capture_cap_keeps_the_tail_at_a_line_boundary() {
    let mut capture: Vec<u8> = Vec::new();
    let mut i = 0u64;
    while capture.len() <= CAPTURE_MAX_BYTES {
        capture.extend_from_slice(format!("log line number {i}\n").as_bytes());
        i += 1;
    }
    capture.extend_from_slice(b"tail after cap\n");
    cap_capture(&mut capture, LIMITS);

    assert!(capture.len() <= CAPTURE_KEEP_BYTES + 64 * 1024);
    // The kept tail starts at a line boundary and still ends with the
    // most recent bytes.
    assert!(capture.starts_with(b"log line number"));
    assert!(capture.ends_with(b"tail after cap\n"));
}

#[test]
fn capture_under_cap_is_untouched() {
    let mut capture = b"short output\n".to_vec();
    cap_capture(&mut capture, LIMITS);
    assert_eq!(capture, b"short output\n");
}

#[test]
fn capture_at_the_cap_is_untouched() {
    let mut capture = vec![b'x'; CAPTURE_MAX_BYTES];
    cap_capture(&mut capture, LIMITS);
    assert_eq!(capture.len(), CAPTURE_MAX_BYTES);
}

#[test]
fn capture_of_one_line_keeps_its_end() {
    let mut capture = vec![b'x'; CAPTURE_MAX_BYTES];
    capture.push(b'\n');
    cap_capture(&mut capture, LIMITS);
    assert_eq!(capture.len(), CAPTURE_KEEP_BYTES);
    assert!(capture.ends_with(b"x\n"));
}
