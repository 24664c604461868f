use zed_embed::connection::{
    decode_opening, read_cwd, read_embed_cwd, receive_opening, take_pending_connection,
    ConnectionQueue, OpeningStep, TakeStep, TAKE_ATTEMPTS,
};
use zed_embed::embed_palette::{embed_connection_count, take_embed_path, EmbedBridge};
use zed_embed::wire::ReadError;

fn opening(length: u32, path: &[u8]) -> Vec<u8> {
    let mut bytes = b"CWD ".to_vec();
    bytes.extend_from_slice(&length.to_le_bytes());
    bytes.extend_from_slice(path);
    bytes
}

/// The host polls the embed socket to learn when connections are accepted. That probe
/// must not be taken for a consumer.
#[test]
fn client_a_probe_is_not_a_consumer_but_a_pathless_client_is() {
    let mut zed: &[u8] = b"";
    assert_eq!(
        read_embed_cwd(&mut zed),
        None,
        "connect-and-hang-up is a probe"
    );

    let sent = opening(12, b"/home/velzie");
    let mut zed: &[u8] = &sent;
    assert_eq!(read_embed_cwd(&mut zed).as_deref(), Some("/home/velzie"));

    // A consumer that names no project still gets its window.
    let sent = opening(0, b"");
    let mut zed: &[u8] = &sent;
    assert_eq!(read_embed_cwd(&mut zed).as_deref(), Some(""));

    // So does one whose opening message is not recognised, since it did speak.
    let mut zed: &[u8] = b"RFB \x00";
    assert_eq!(read_embed_cwd(&mut zed).as_deref(), Some(""));
}

/// A connection that says nothing must not consume a window. A client that sends a
/// zero-length path, or something that is not `CWD ` at all, is still a consumer.
#[test]
fn embed_a_probe_is_not_a_consumer_but_a_pathless_client_is() {
    let mut producer: &[u8] = b"";
    assert_eq!(read_embed_cwd(&mut producer), None);

    let sent = opening(12, b"/home/velzie");
    let mut producer: &[u8] = &sent;
    assert_eq!(
        read_embed_cwd(&mut producer),
        Some("/home/velzie".to_owned())
    );

    let sent = opening(0, b"");
    let mut producer: &[u8] = &sent;
    assert_eq!(read_embed_cwd(&mut producer), Some(String::new()));

    let mut producer: &[u8] = b"RFB \x00";
    assert_eq!(read_embed_cwd(&mut producer), Some(String::new()));
}

#[test]
fn opening_leaves_what_follows_it() {
    let mut sent = opening(4, b"/tmp");
    sent.extend_from_slice(&[0x02, 1, 1]);
    let mut reader: &[u8] = &sent;
    assert_eq!(read_embed_cwd(&mut reader).as_deref(), Some("/tmp"));
    assert_eq!(reader, &[0x02, 1, 1]);

    // An unknown greeting costs exactly its four bytes.
    let mut reader: &[u8] = b"RFB \x00";
    read_embed_cwd(&mut reader);
    assert_eq!(reader, b"\x00");
}

#[test]
fn opening_that_breaks_off_names_no_project() {
    let mut reader: &[u8] = b"CWD \x05\x00";
    assert_eq!(read_embed_cwd(&mut reader).as_deref(), Some(""));
    assert!(reader.is_empty());

    let sent = opening(5, b"/tm");
    let mut reader: &[u8] = &sent;
    assert_eq!(read_embed_cwd(&mut reader).as_deref(), Some(""));
    assert!(reader.is_empty());

    // A peer that broke off inside the greeting did speak.
    let mut reader: &[u8] = b"CWD";
    assert_eq!(read_embed_cwd(&mut reader).as_deref(), Some(""));
    assert!(reader.is_empty());
}

#[test]
fn opening_with_too_long_a_path_names_no_project() {
    let sent = opening(4097, b"/x");
    let mut reader: &[u8] = &sent;
    assert_eq!(read_embed_cwd(&mut reader).as_deref(), Some(""));
    assert_eq!(reader, b"/x");

    let longest = vec![b'a'; 4096];
    let sent = opening(4096, &longest);
    let mut reader: &[u8] = &sent;
    assert_eq!(read_embed_cwd(&mut reader).map(|path| path.len()), Some(4096));
}

#[test]
fn opening_repairs_malformed_text() {
    let sent = opening(3, b"/\xff/");
    let mut reader: &[u8] = &sent;
    assert_eq!(read_embed_cwd(&mut reader).as_deref(), Some("/\u{fffd}/"));
}

#[test]
fn opening_says_how_much_is_missing() {
    assert_eq!(
        decode_opening(b"CW").unwrap_err(),
        ReadError::UnexpectedEof { missing: 2 }
    );
    assert_eq!(
        decode_opening(b"CWD \x01").unwrap_err(),
        ReadError::UnexpectedEof { missing: 3 }
    );
    assert_eq!(
        decode_opening(&opening(9, b"/home")).unwrap_err(),
        ReadError::UnexpectedEof { missing: 4 }
    );
}

/// Reads an opening message piece by piece, as it would come over a socket.
fn read_in_pieces(sent: &[u8], piece: usize) -> (Option<String>, usize) {
    let mut read = 0;
    let mut ended = false;
    loop {
        match receive_opening(&sent[..read], ended) {
            OpeningStep::Read { missing } => {
                let more = missing.min(piece).min(sent.len() - read);
                read += more;
                ended = more == 0;
            }
            OpeningStep::Consumer { path } => return (Some(path), read),
            OpeningStep::Probe => return (None, read),
        }
    }
}

#[test]
fn opening_is_read_in_pieces() {
    let mut sent = opening(12, b"/home/velzie");
    sent.extend_from_slice(&[0x02, 1, 1]);
    for piece in 1..30 {
        // What follows the message is left to the reader of input.
        assert_eq!(
            read_in_pieces(&sent, piece),
            (Some("/home/velzie".to_string()), 20)
        );
        assert_eq!(read_in_pieces(b"RFB \x00", piece), (Some(String::new()), 4));
        assert_eq!(read_in_pieces(b"", piece), (None, 0));
        assert_eq!(read_in_pieces(b"CW", piece), (Some(String::new()), 2));
        assert_eq!(read_in_pieces(&sent[..11], piece), (Some(String::new()), 11));
    }
}

#[test]
fn pipe_that_ends_inside_the_opening_is_an_error() {
    let mut reader: &[u8] = b"CWD ";
    assert_eq!(
        read_cwd(&mut reader),
        Err(ReadError::UnexpectedEof { missing: 4 })
    );
    assert_eq!(reader, b"CWD ");

    let sent = opening(2, b"C:");
    let mut reader: &[u8] = &sent;
    assert_eq!(read_cwd(&mut reader), Ok("C:".to_string()));
    assert!(reader.is_empty());

    let mut reader: &[u8] = b"HELO";
    assert_eq!(read_cwd(&mut reader), Ok(String::new()));
}

#[test]
fn paths_and_streams_stay_together() {
    let mut bridge = EmbedBridge::new();
    let mut queue: ConnectionQueue<u32> = ConnectionQueue::new();
    assert!(queue.enqueue(&mut bridge, Some("/a".to_string()), 1));
    // A probe takes nobody's place.
    assert!(!queue.enqueue(&mut bridge, None, 2));
    assert!(queue.enqueue(&mut bridge, Some(String::new()), 3));
    assert_eq!(embed_connection_count(&bridge), 2);

    assert_eq!(take_embed_path(&mut bridge).as_deref(), Some("/a"));
    assert_eq!(queue.take(), Some(1));
    assert_eq!(take_embed_path(&mut bridge).as_deref(), Some(""));
    assert_eq!(queue.take(), Some(3));
    assert_eq!(take_embed_path(&mut bridge), None);
    assert_eq!(queue.take(), None);
}

#[test]
fn window_waits_for_its_connection_and_gives_up() {
    let mut bridge = EmbedBridge::new();
    let mut queue: ConnectionQueue<u32> = ConnectionQueue::new();
    assert!(matches!(take_pending_connection(&mut queue, 0), TakeStep::Pause));
    queue.enqueue(&mut bridge, Some(String::new()), 7);
    assert!(matches!(
        take_pending_connection(&mut queue, TAKE_ATTEMPTS),
        TakeStep::GiveUp
    ));
    assert!(matches!(
        take_pending_connection(&mut queue, TAKE_ATTEMPTS - 1),
        TakeStep::Bind(7)
    ));
}
