//! New connections: the message each opens with, and the queue in which they wait
//! for a window.

use std::collections::VecDeque;

use vstd::prelude::*;
use vstd::utf8::encode_utf8;

use crate::embed_palette::{
    note_embed_connection, push_embed_path, BridgeView, EmbedBridge,
};
use crate::input::optional_text;
use crate::text::{lossy_text, sound_text_is_not_repaired, utf8_lossy};
use crate::wire::{advance, eof, get_u32, u32_at, u32_field, u32_le, ReadError};

verus! {

/// The longest project path that is read, in bytes.
pub const MAX_PATH_BYTES: usize = 4096;

/// How often a new window looks for its connection before it gives up.
pub const TAKE_ATTEMPTS: u32 = 200;

/// The pause between two looks, in milliseconds.
pub const TAKE_PAUSE_MS: u64 = 2;

/// Whether bytes start with `CWD `.
pub open spec fn names_a_directory(bytes: Seq<u8>) -> bool {
    bytes[0] == 'C' as u8 && bytes[1] == 'W' as u8 && bytes[2] == 'D' as u8 && bytes[3]
        == ' ' as u8
}

/// A connection's opening message and its length: `CWD `, the length of the
/// project's path and the path. Other four bytes, or a path that is too long, stand
/// for no project.
pub open spec fn opening(bytes: Seq<u8>) -> Result<(Seq<char>, int), ReadError> {
    let have = bytes.len() as int;
    let length = u32_at(bytes, 4) as int;
    if have < 4 {
        Err(eof(have, 4))
    } else if !names_a_directory(bytes) {
        Ok((seq![], 4))
    } else if have < 8 {
        Err(eof(have, 8))
    } else if length > MAX_PATH_BYTES {
        Ok((seq![], 8))
    } else if have < 8 + length {
        Err(eof(have, 8 + length))
    } else {
        Ok((lossy_text(bytes.subrange(8, 8 + length)), 8 + length))
    }
}

/// Decodes an opening message: the path and the message's length.
pub fn decode_opening(bytes: &[u8]) -> (result: Result<(String, usize), ReadError>)
    ensures
        match result {
            Ok((path, length)) => opening(bytes@) == Ok::<(Seq<char>, int), ReadError>(
                (path@, length as int),
            ),
            Err(error) => opening(bytes@) == Err::<(Seq<char>, int), ReadError>(error),
        },
{
    if bytes.len() < 4 {
        return Err(ReadError::UnexpectedEof { missing: 4 - bytes.len() });
    }
    if bytes[0] != 'C' as u8 || bytes[1] != 'W' as u8 || bytes[2] != 'D' as u8 || bytes[3]
        != ' ' as u8 {
        let path = String::new();
        assert(path@ =~= seq![]);
        return Ok((path, 4));
    }
    if bytes.len() < 8 {
        return Err(ReadError::UnexpectedEof { missing: 8 - bytes.len() });
    }
    let length: usize = get_u32(bytes, 4) as usize;
    if length > MAX_PATH_BYTES {
        let path = String::new();
        assert(path@ =~= seq![]);
        return Ok((path, 8));
    }
    if bytes.len() < 8 + length {
        return Err(ReadError::UnexpectedEof { missing: 8 + length - bytes.len() });
    }
    let path = utf8_lossy(vstd::slice::slice_subrange(bytes, 8, 8 + length));
    Ok((path, 8 + length))
}

/// The project that a peer named which hung up behind these bytes: none where it named none
/// or did not get so far, and no peer at all where it said nothing.
pub open spec fn project_of(bytes: Seq<u8>) -> Option<Seq<char>> {
    match opening(bytes) {
        Ok((path, _)) => Some(path),
        Err(_) => if bytes.len() == 0 {
            None
        } else {
            Some(seq![])
        },
    }
}

/// Reads the opening message of a connection on which the reader's bytes are all
/// that comes before the peer hangs up.
///
/// `None` means the peer hung up without saying anything: a host connects like this
/// to learn whether anyone is accepting, and must not get a window for it. Anything
/// else is a consumer, with an empty path where it named no project.
pub fn read_embed_cwd(reader: &mut &[u8]) -> (path: Option<String>)
    ensures
        optional_text(path) == project_of(old(reader)@),
        path is None <==> old(reader)@.len() == 0,
        final(reader)@ == match opening(old(reader)@) {
            Ok((_, length)) => old(reader)@.skip(length),
            Err(_) => Seq::<u8>::empty(),
        },
{
    let had: usize = reader.len();
    match decode_opening(*reader) {
        Ok((path, length)) => {
            advance(reader, length);
            Some(path)
        },
        Err(_) => {
            advance(reader, had);
            assert(reader@ =~= Seq::<u8>::empty());
            if had == 0 {
                None
            } else {
                let path = String::new();
                assert(path@ =~= Seq::<char>::empty());
                Some(path)
            }
        },
    }
}

/// What follows the bytes of an opening message that came so far.
#[derive(Debug)]
pub enum OpeningStep {
    /// Read at most this many more: all of them belong to the message.
    Read { missing: usize },
    /// The peer is a consumer, with the project it named, or an empty path.
    Consumer { path: String },
    /// The peer hung up without saying anything.
    Probe,
}

/// The project of the peer, or none of a probe, or why neither is known yet, by the bytes
/// that came so far and whether the peer has hung up behind them.
pub open spec fn opening_so_far(bytes: Seq<u8>, ended: bool) -> Result<
    Option<Seq<char>>,
    ReadError,
> {
    match opening(bytes) {
        Ok((path, _)) => Ok(Some(path)),
        Err(error) => if ended {
            Ok(project_of(bytes))
        } else {
            Err(error)
        },
    }
}

/// Takes the bytes of an opening message that came so far, and whether the peer has
/// hung up behind them.
pub fn receive_opening(bytes: &[u8], ended: bool) -> (step: OpeningStep)
    ensures
        match opening_so_far(bytes@, ended) {
            Ok(Some(project)) => step matches OpeningStep::Consumer { path } && path@ == project,
            Ok(None) => step is Probe,
            Err(error) => step matches OpeningStep::Read { missing } && error == (
            ReadError::UnexpectedEof { missing }),
        },
{
    match decode_opening(bytes) {
        Ok((path, _)) => OpeningStep::Consumer { path },
        Err(error) => {
            if !ended {
                if let ReadError::UnexpectedEof { missing } = error {
                    return OpeningStep::Read { missing };
                }
            }
            if bytes.len() == 0 {
                OpeningStep::Probe
            } else {
                let path = String::new();
                assert(path@ =~= Seq::<char>::empty());
                OpeningStep::Consumer { path }
            }
        },
    }
}

/// A reader that reads what is missing reads nothing but the opening message: with
/// fewer than the missing bytes added the message is still incomplete, and with all of
/// them it has come that much further.
pub proof fn missing_opening_bytes_are_needed(bytes: Seq<u8>, more: Seq<u8>)
    requires
        opening(bytes) matches Err(ReadError::UnexpectedEof { missing }) && more.len() < missing,
    ensures
        opening(bytes + more) == Err::<(Seq<char>, int), ReadError>(
            ReadError::UnexpectedEof {
                missing: (opening(bytes)->Err_0->missing - more.len()) as usize,
            },
        ),
{
    let all = bytes + more;
    if bytes.len() >= 4 {
        assert(names_a_directory(all) == names_a_directory(bytes));
        if bytes.len() >= 8 {
            assert(u32_at(all, 4) == u32_at(bytes, 4));
        }
    }
}

/// Reads the opening message on Windows, where a pipe that ends inside it is an
/// error.
pub fn read_cwd(reader: &mut &[u8]) -> (result: Result<String, ReadError>)
    ensures
        match opening(old(reader)@) {
            Ok((text, length)) => {
                &&& result matches Ok(path) && path@ == text
                &&& final(reader)@ == old(reader)@.skip(length)
            },
            Err(error) => result == Err::<String, ReadError>(error) && final(reader)@ == old(reader)@,
        },
{
    match decode_opening(*reader) {
        Ok((path, length)) => {
            advance(reader, length);
            Ok(path)
        },
        Err(error) => Err(error),
    }
}

/// An opening message is decoded from its own bytes alone, whatever follows it.
pub proof fn opening_is_its_own_bytes(bytes: Seq<u8>, more: Seq<u8>)
    requires
        opening(bytes) is Ok,
    ensures
        opening(bytes + more) == opening(bytes),
        4 <= opening(bytes)->Ok_0.1 <= bytes.len(),
{
    let all = bytes + more;
    if names_a_directory(bytes) && u32_at(bytes, 4) <= MAX_PATH_BYTES {
        let end = 8 + u32_at(bytes, 4) as int;
        assert(all.subrange(8, end) =~= bytes.subrange(8, end));
    }
}

/// The stream that waited longest.
pub open spec fn next_stream<S>(streams: Seq<S>) -> Option<S> {
    if streams.len() == 0 {
        None
    } else {
        Some(streams[0])
    }
}

/// The connections that wait for a window, by whatever stands for a stream.
pub struct ConnectionQueue<S> {
    pub streams: VecDeque<S>,
}

impl<S> ConnectionQueue<S> {
    /// An empty queue.
    pub fn new() -> (queue: ConnectionQueue<S>)
        ensures
            queue.streams@ == Seq::<S>::empty(),
    {
        ConnectionQueue { streams: VecDeque::new() }
    }

    /// Queues a connection under the path that its opening message named, and counts
    /// it; drops a stream that turned out to be a probe.
    pub fn enqueue(&mut self, bridge: &mut EmbedBridge, opening: Option<String>, stream: S) -> (queued:
        bool)
        requires
            old(bridge)@.connections < u64::MAX,
        ensures
            queued == (opening is Some),
            match opening {
                Some(path) => {
                    &&& final(self).streams@ == old(self).streams@.push(stream)
                    &&& final(bridge)@ == old(bridge)@.with_path(path@).with_connection()
                },
                None => final(self).streams@ == old(self).streams@ && final(bridge)@ == old(bridge)@,
            },
    {
        match opening {
            Some(path) => {
                push_embed_path(bridge, path);
                self.streams.push_back(stream);
                note_embed_connection(bridge);
                true
            },
            None => false,
        }
    }

    /// Takes the next connection.
    pub fn take(&mut self) -> (stream: Option<S>)
        ensures
            stream == next_stream(old(self).streams@),
            final(self).streams@ == if stream is Some {
                old(self).streams@.skip(1)
            } else {
                old(self).streams@
            },
    {
        let stream = self.streams.pop_front();
        assert(stream is Some ==> self.streams@ =~= old(self).streams@.skip(1));
        stream
    }
}

/// What a window that looks for its connection does next.
#[derive(Debug)]
pub enum TakeStep<S> {
    /// A connection was there: bind it.
    Bind(S),
    /// None was there yet: pause for [`TAKE_PAUSE_MS`], and look again.
    Pause,
    /// None came in time.
    GiveUp,
}

/// What a window that looks for the time number `attempt` does next.
pub open spec fn looks<S>(streams: Seq<S>, attempt: u32) -> TakeStep<S> {
    if attempt >= TAKE_ATTEMPTS {
        TakeStep::GiveUp
    } else {
        match next_stream(streams) {
            Some(stream) => TakeStep::Bind(stream),
            None => TakeStep::Pause,
        }
    }
}

/// Looks for the next connection for the time number `attempt`, counted from 0.
///
/// The app opens a window because a connection was counted, so one should be
/// queued; the pauses cover a window that opens just before the push completes.
pub fn take_pending_connection<S>(queue: &mut ConnectionQueue<S>, attempt: u32) -> (step: TakeStep<
    S,
>)
    ensures
        step == looks(old(queue).streams@, attempt),
        final(queue).streams@ == if step is Bind {
            old(queue).streams@.skip(1)
        } else {
            old(queue).streams@
        },
{
    if attempt >= TAKE_ATTEMPTS {
        return TakeStep::GiveUp;
    }
    match queue.take() {
        Some(stream) => TakeStep::Bind(stream),
        None => TakeStep::Pause,
    }
}

/// The waiting connections, each with its path.
pub open spec fn waiting<S>(bridge: BridgeView, streams: Seq<S>) -> Seq<(Seq<char>, S)> {
    Seq::new(streams.len(), |i: int| (bridge.pending_paths[i], streams[i]))
}

/// A connection's path and its stream stay together: what [`ConnectionQueue::enqueue`]
/// adds to the two queues is one more pair.
pub proof fn enqueue_adds_a_pair<S>(
    before: BridgeView,
    after: BridgeView,
    streams: Seq<S>,
    path: Seq<char>,
    stream: S,
)
    requires
        before.pending_paths.len() == streams.len(),
        after.pending_paths == before.pending_paths.push(path),
    ensures
        after.pending_paths.len() == streams.push(stream).len(),
        waiting(after, streams.push(stream)) == waiting(before, streams).push((path, stream)),
{
    assert(waiting(after, streams.push(stream)) =~= waiting(before, streams).push((path, stream)));
}

/// A window that takes a path and a stream takes those of one connection, the one
/// that has waited longest, and leaves the others together.
pub proof fn taking_takes_a_pair<S>(before: BridgeView, after: BridgeView, streams: Seq<S>)
    requires
        before.pending_paths.len() == streams.len() > 0,
        after.pending_paths == before.pending_paths.skip(1),
    ensures
        (before.pending_paths[0], streams[0]) == waiting(before, streams)[0],
        after.pending_paths.len() == streams.skip(1).len(),
        waiting(after, streams.skip(1)) == waiting(before, streams).skip(1),
{
    assert(waiting(after, streams.skip(1)) =~= waiting(before, streams).skip(1));
}

/// What a consumer opens with: `CWD `, the length of its project's path and the path.
pub open spec fn sent_opening(path: Seq<u8>) -> Seq<u8> {
    seq![0x43u8, 0x57u8, 0x44u8, 0x20u8] + u32_le(path.len() as u32) + path
}

proof fn opening_fields(path: Seq<u8>, rest: Seq<u8>)
    requires
        path.len() <= u32::MAX,
    ensures
        names_a_directory(sent_opening(path) + rest),
        u32_at(sent_opening(path) + rest, 4) == path.len(),
        (sent_opening(path) + rest).subrange(8, 8 + path.len() as int) == path,
{
    let bytes = sent_opening(path) + rest;
    assert(bytes.subrange(4, 8) =~= u32_le(path.len() as u32));
    u32_field(bytes, 4, path.len() as u32);
    assert(bytes.subrange(8, 8 + path.len() as int) =~= path);
}

#[verifier::rlimit(50)]
proof fn path_reads_back(path: Seq<u8>, rest: Seq<u8>)
    requires
        path.len() <= u32::MAX,
    ensures
        opening(sent_opening(path) + rest) == Ok::<(Seq<char>, int), ReadError>(
            if path.len() <= 4096 {
                (lossy_text(path), 8 + path.len() as int)
            } else {
                (Seq::<char>::empty(), 8int)
            },
        ),
{
    let bytes = sent_opening(path) + rest;
    opening_fields(path, rest);
    assert(bytes.len() == 8 + path.len() + rest.len());
}

/// A consumer gets a window for the project that it names, whatever it sends behind that:
/// any path of at most 4096 bytes. A longer path counts as none, and is not read.
pub proof fn openings_read_back(project: Seq<char>, rest: Seq<u8>)
    requires
        encode_utf8(project).len() <= u32::MAX,
    ensures
        opening(sent_opening(encode_utf8(project)) + rest) == Ok::<(Seq<char>, int), ReadError>(
            if encode_utf8(project).len() <= 4096 {
                (project, 8 + encode_utf8(project).len() as int)
            } else {
                (Seq::<char>::empty(), 8int)
            },
        ),
{
    path_reads_back(encode_utf8(project), rest);
    sound_text_is_not_repaired(project);
}

/// Four bytes that are not `CWD ` are a consumer that names no project, and are all that is
/// read.
pub proof fn another_opening_names_no_project(name: Seq<u8>, rest: Seq<u8>)
    requires
        name.len() == 4,
        name != seq![0x43u8, 0x57u8, 0x44u8, 0x20u8],
    ensures
        opening(name + rest) == Ok::<(Seq<char>, int), ReadError>((seq![], 4)),
{
    if names_a_directory(name + rest) {
        assert(name =~= seq![0x43u8, 0x57u8, 0x44u8, 0x20u8]);
    }
}

/// A peer that says nothing is a probe, and whoever says anything is a consumer: with the
/// project that it named in full, or with none.
pub proof fn only_silence_is_a_probe(bytes: Seq<u8>)
    ensures
        project_of(bytes) is None <==> bytes.len() == 0,
        opening(bytes) matches Ok((path, _)) ==> project_of(bytes) == Some(path),
        bytes.len() > 0 && opening(bytes) is Err ==> project_of(bytes) == Some(Seq::<char>::empty()),
{
}

/// An opening that is cut short is incomplete, and what is said to be missing is not more
/// than was cut off: the four bytes, then the length, then the path.
#[verifier::rlimit(50)]
pub proof fn a_cut_opening_is_incomplete(path: Seq<u8>, cut: int)
    requires
        path.len() <= 4096,
        0 <= cut < sent_opening(path).len(),
    ensures
        opening(sent_opening(path).take(cut)) == Err::<(Seq<char>, int), ReadError>(
            ReadError::UnexpectedEof {
                missing: (if cut < 4 {
                    4 - cut
                } else if cut < 8 {
                    8 - cut
                } else {
                    sent_opening(path).len() - cut
                }) as usize,
            },
        ),
{
    let whole = sent_opening(path);
    let part = whole.take(cut);
    opening_fields(path, seq![]);
    assert(whole + seq![] =~= whole);
    if cut >= 4 {
        assert(names_a_directory(part));
        if cut >= 8 {
            assert(u32_at(part, 4) == u32_at(whole, 4));
        }
    }
}

/// A window looks for its connection two hundred times, two milliseconds apart.
pub proof fn how_long_a_window_looks()
    ensures
        TAKE_ATTEMPTS * TAKE_PAUSE_MS == 400,
        TAKE_PAUSE_MS == 2,
        MAX_PATH_BYTES == 4096,
{
}

/// A consumer is known as soon as its opening is there, whatever it sends behind that and
/// whether it stays; one that hangs up within its opening is a consumer that named nothing,
/// and one that says nothing is a probe. Until then more is read, and never nothing.
#[verifier::rlimit(50)]
pub proof fn an_opening_is_waited_for(project: Seq<char>, rest: Seq<u8>, ended: bool, cut: int)
    requires
        encode_utf8(project).len() <= 4096,
        0 <= cut < sent_opening(encode_utf8(project)).len(),
    ensures
        opening_so_far(sent_opening(encode_utf8(project)) + rest, ended) == Ok::<
            Option<Seq<char>>,
            ReadError,
        >(Some(project)),
        ({
            let part = sent_opening(encode_utf8(project)).take(cut);
            &&& opening_so_far(part, false) matches Err(ReadError::UnexpectedEof { missing })
            &&& 0 < missing <= sent_opening(encode_utf8(project)).len() - cut
            &&& opening_so_far(part, true) == Ok::<Option<Seq<char>>, ReadError>(
                if cut == 0 {
                    None
                } else {
                    Some(Seq::<char>::empty())
                },
            )
        }),
{
    openings_read_back(project, rest);
    a_cut_opening_is_incomplete(encode_utf8(project), cut);
    only_silence_is_a_probe(sent_opening(encode_utf8(project)).take(cut));
}

/// Connections are taken in the order in which they came, and only by a window that has not
/// given up: after the two hundredth look it does.
pub proof fn connections_are_taken_in_order<S>(streams: Seq<S>, stream: S, attempt: u32)
    ensures
        next_stream(streams) is None <==> streams.len() == 0,
        streams.len() == 0 ==> next_stream(streams.push(stream)) == Some(stream),
        streams.len() > 0 ==> next_stream(streams.push(stream)) == next_stream(streams),
        streams.len() > 0 ==> streams.push(stream).skip(1) == streams.skip(1).push(stream),
        looks(streams, attempt) == TakeStep::<S>::GiveUp <==> attempt >= 200,
        looks(streams, attempt) == TakeStep::<S>::Pause <==> attempt < 200 && streams.len() == 0,
        attempt < 200 && streams.len() == 0 ==> looks(streams.push(stream), attempt)
            == TakeStep::Bind(stream),
        attempt < 200 && streams.len() > 0 ==> looks(streams, attempt) == looks(
            streams.push(stream),
            attempt,
        ) && looks(streams, attempt) is Bind,
{
    if streams.len() > 0 {
        assert(streams.push(stream).skip(1) =~= streams.skip(1).push(stream));
    }
}

/// A connection that is queued is counted and has its path behind those that wait.
pub proof fn a_queued_connection_is_counted<S>(
    bridge: BridgeView,
    streams: Seq<S>,
    path: Seq<char>,
    stream: S,
)
    requires
        bridge.connections < u64::MAX,
        bridge.pending_paths.len() == streams.len(),
    ensures
        ({
            let after = bridge.with_path(path).with_connection();
            &&& after.connections == bridge.connections + 1
            &&& after.palette == bridge.palette && after.version == bridge.version
            &&& waiting(after, streams.push(stream)) == waiting(bridge, streams).push((path, stream))
        }),
{
    enqueue_adds_a_pair(bridge, bridge.with_path(path).with_connection(), streams, path, stream);
}

} // verus!
