//! The headless client, and how it opens a window.
//!
//! With an embed socket named, a window renders offscreen and is bound to the next
//! queued connection. The steps follow one another as [`next_step`] says; what a
//! step does is outside of this module, which is told whether it succeeded.

use vstd::prelude::*;

use crate::clipboard::{outgoing_view, EmbedClipboard, Outgoing};
use crate::cursor::{cursor_name_spec, CursorStyle, PendingCursor};
use crate::protocol::{mode_message, send_mode};
use crate::window::{Bounds, WindowCore};

verus! {

/// The size of a shared buffer. Buffers are created once at this size and frames
/// render into their top left, so that a resize needs no new export. A larger
/// consumer gets frames of this size.
pub const EMBED_DMABUF_MAX_WIDTH: u32 = 3840;

/// See [`EMBED_DMABUF_MAX_WIDTH`].
pub const EMBED_DMABUF_MAX_HEIGHT: u32 = 2160;

/// How many buffers frames alternate between.
pub const EMBED_DMABUF_COUNT: usize = 2;

/// A step of opening a window.
#[derive(Clone, Copy, Debug, PartialEq, Eq, Structural)]
pub enum OpenStep {
    /// Create the offscreen renderer.
    CreateRenderer,
    /// Start the accept loop, unless it runs.
    StartListener,
    /// Take the next queued connection.
    TakeConnection,
    /// Clone the stream and write the mode byte. The step fails where there is no
    /// clone; a byte that cannot be written is found out by the reader.
    WriteMode,
    /// Send what is copied in the embed to this consumer from now on.
    BridgeClipboard,
    /// Clone the stream for the reader.
    CloneReader,
    /// Clone the stream and send every frame's pixels over it.
    AttachFrames,
    /// Create the window around the renderer.
    CreateWindow,
    /// Clone the stream and send every title over it.
    AttachTitle,
    /// Start the thread that reads input.
    SpawnReader,
    /// Allocate the shared buffers.
    EnableDmabuf,
    /// Send the buffers' geometry and descriptors.
    SendHandshake,
    /// Clone the stream and announce every frame over it.
    AttachReady,
    /// Clone the stream for the clock to shut down.
    CloneCloser,
    /// Clone the stream for cursor changes.
    CloneCursorWriter,
    /// Start the frame clock.
    StartClock,
    /// The window is open, or is not.
    Done(OpenResult),
}

/// How opening a window ends.
#[derive(Clone, Copy, Debug, PartialEq, Eq, Structural)]
pub enum OpenResult {
    /// A window that discards its scenes.
    Plain,
    /// A window bound to a consumer.
    Embedded,
    /// An error.
    Failed,
}

/// Where opening a window starts: an embed needs a socket to be named.
pub open spec fn first_step_spec(embedding: bool) -> OpenStep {
    if embedding {
        OpenStep::CreateRenderer
    } else {
        OpenStep::Done(OpenResult::Plain)
    }
}

/// The step that follows, given whether this one succeeded and whether frames go
/// through shared buffers.
pub open spec fn next_step_spec(step: OpenStep, ok: bool, dmabuf: bool) -> OpenStep {
    let failed = OpenStep::Done(OpenResult::Failed);
    match step {
        OpenStep::CreateRenderer => if ok {
            OpenStep::StartListener
        } else {
            failed
        },
        OpenStep::StartListener => OpenStep::TakeConnection,
        OpenStep::TakeConnection => if ok {
            OpenStep::WriteMode
        } else {
            OpenStep::Done(OpenResult::Plain)
        },
        OpenStep::WriteMode => if ok {
            OpenStep::BridgeClipboard
        } else {
            failed
        },
        OpenStep::BridgeClipboard => OpenStep::CloneReader,
        OpenStep::CloneReader => if !ok {
            failed
        } else if dmabuf {
            OpenStep::CreateWindow
        } else {
            OpenStep::AttachFrames
        },
        OpenStep::AttachFrames => if ok {
            OpenStep::CreateWindow
        } else {
            failed
        },
        OpenStep::CreateWindow => OpenStep::AttachTitle,
        OpenStep::AttachTitle => OpenStep::SpawnReader,
        OpenStep::SpawnReader => if dmabuf {
            OpenStep::EnableDmabuf
        } else {
            OpenStep::CloneCloser
        },
        OpenStep::EnableDmabuf => if ok {
            OpenStep::SendHandshake
        } else {
            OpenStep::CloneCloser
        },
        OpenStep::SendHandshake => if ok {
            OpenStep::AttachReady
        } else {
            OpenStep::CloneCloser
        },
        OpenStep::AttachReady => OpenStep::CloneCloser,
        OpenStep::CloneCloser => if ok {
            OpenStep::CloneCursorWriter
        } else {
            failed
        },
        OpenStep::CloneCursorWriter => if ok {
            OpenStep::StartClock
        } else {
            failed
        },
        OpenStep::StartClock => OpenStep::Done(OpenResult::Embedded),
        OpenStep::Done(result) => OpenStep::Done(result),
    }
}

/// The client: what its windows share.
pub struct HeadlessClient {
    /// Whether an embed socket is named.
    pub embedding: bool,
    /// The cursor that was asked for last, by whichever window's app.
    pub pending_cursor: PendingCursor,
    pub clipboard: EmbedClipboard,
}

impl HeadlessClient {
    /// A new client. In embed mode its windows open because a connection came in, so
    /// the accept loop has to run from here on.
    pub fn new(embedding: bool) -> (client: HeadlessClient)
        ensures
            client.embedding == embedding,
            client.pending_cursor.name is None,
            client.clipboard == (EmbedClipboard { cache: None, owner: None }),
    {
        HeadlessClient {
            embedding,
            pending_cursor: PendingCursor::new(),
            clipboard: EmbedClipboard::new(),
        }
    }

    /// Opens a window: the step it starts with. [`next_step`] says how it goes on, and
    /// where that ends in an embedded window its clock runs the ticks that
    /// [`begin_tick`](crate::linux::clock::begin_tick) begins.
    pub fn open_window(&self) -> (step: OpenStep)
        ensures
            step == first_step_spec(self.embedding),
    {
        if self.embedding {
            OpenStep::CreateRenderer
        } else {
            OpenStep::Done(OpenResult::Plain)
        }
    }

    /// Asks for a cursor in place of the one that was asked for before. It is not sent
    /// until the tick is over.
    pub fn set_cursor_style(&mut self, style: CursorStyle)
        ensures
            final(self).pending_cursor.name matches Some(name) && name@ == cursor_name_spec(style),
            *final(self) == (HeadlessClient {
                pending_cursor: final(self).pending_cursor,
                ..*old(self)
            }),
    {
        self.pending_cursor.set_cursor_style(style);
    }

    /// Takes what was copied; `text` is its text, if it has any. Returns what to send to
    /// the host.
    pub fn write_to_clipboard(&mut self, text: Option<String>) -> (outgoing: Option<Outgoing>)
        ensures
            *final(self) == (HeadlessClient {
                clipboard: old(self).clipboard.after_copy(text),
                ..*old(self)
            }),
            outgoing_view(outgoing) == old(self).clipboard.sent_copy(text),
    {
        self.clipboard.write_to_clipboard(text)
    }

    /// What is pasted: what the host pushed or the app copied, whichever came last.
    pub fn read_from_clipboard(&self) -> (text: Option<String>)
        ensures
            text == self.clipboard.cache,
    {
        self.clipboard.read_from_clipboard()
    }
}

/// The step that follows.
pub fn next_step(step: OpenStep, ok: bool, dmabuf: bool) -> (next: OpenStep)
    ensures
        next == next_step_spec(step, ok, dmabuf),
{
    let failed = OpenStep::Done(OpenResult::Failed);
    match step {
        OpenStep::CreateRenderer => if ok {
            OpenStep::StartListener
        } else {
            failed
        },
        OpenStep::StartListener => OpenStep::TakeConnection,
        OpenStep::TakeConnection => if ok {
            OpenStep::WriteMode
        } else {
            OpenStep::Done(OpenResult::Plain)
        },
        OpenStep::WriteMode => if ok {
            OpenStep::BridgeClipboard
        } else {
            failed
        },
        OpenStep::BridgeClipboard => OpenStep::CloneReader,
        OpenStep::CloneReader => if !ok {
            failed
        } else if dmabuf {
            OpenStep::CreateWindow
        } else {
            OpenStep::AttachFrames
        },
        OpenStep::AttachFrames => if ok {
            OpenStep::CreateWindow
        } else {
            failed
        },
        OpenStep::CreateWindow => OpenStep::AttachTitle,
        OpenStep::AttachTitle => OpenStep::SpawnReader,
        OpenStep::SpawnReader => if dmabuf {
            OpenStep::EnableDmabuf
        } else {
            OpenStep::CloneCloser
        },
        OpenStep::EnableDmabuf => if ok {
            OpenStep::SendHandshake
        } else {
            OpenStep::CloneCloser
        },
        OpenStep::SendHandshake => if ok {
            OpenStep::AttachReady
        } else {
            OpenStep::CloneCloser
        },
        OpenStep::AttachReady => OpenStep::CloneCloser,
        OpenStep::CloneCloser => if ok {
            OpenStep::CloneCursorWriter
        } else {
            failed
        },
        OpenStep::CloneCursorWriter => if ok {
            OpenStep::StartClock
        } else {
            failed
        },
        OpenStep::StartClock => OpenStep::Done(OpenResult::Embedded),
        OpenStep::Done(result) => OpenStep::Done(result),
    }
}

/// What a step writes to the connection by itself: the mode byte.
pub open spec fn step_message(step: OpenStep, dmabuf: bool) -> Seq<u8> {
    if step == OpenStep::WriteMode {
        mode_message(dmabuf)
    } else {
        seq![]
    }
}

/// Appends what a step writes to the connection by itself. The handshake is not among
/// it: it goes out together with descriptors.
pub fn step_bytes(step: OpenStep, dmabuf: bool, out: &mut Vec<u8>)
    ensures
        final(out)@ == old(out)@ + step_message(step, dmabuf),
{
    if let OpenStep::WriteMode = step {
        send_mode(out, dmabuf);
    }
    assert(out@ =~= old(out)@ + step_message(step, dmabuf));
}

/// How many steps are at most left.
pub open spec fn steps_left(step: OpenStep) -> nat {
    match step {
        OpenStep::CreateRenderer => 16,
        OpenStep::StartListener => 15,
        OpenStep::TakeConnection => 14,
        OpenStep::WriteMode => 13,
        OpenStep::BridgeClipboard => 12,
        OpenStep::CloneReader => 11,
        OpenStep::AttachFrames => 10,
        OpenStep::CreateWindow => 9,
        OpenStep::AttachTitle => 8,
        OpenStep::SpawnReader => 7,
        OpenStep::EnableDmabuf => 6,
        OpenStep::SendHandshake => 5,
        OpenStep::AttachReady => 4,
        OpenStep::CloneCloser => 3,
        OpenStep::CloneCursorWriter => 2,
        OpenStep::StartClock => 1,
        OpenStep::Done(_) => 0,
    }
}

/// How opening a window goes on from a step, with `ok` saying which steps succeed.
pub open spec fn open_from(step: OpenStep, ok: spec_fn(OpenStep) -> bool, dmabuf: bool) -> OpenResult
    decreases steps_left(step),
{
    match step {
        OpenStep::Done(result) => result,
        _ => open_from(next_step_spec(step, ok(step), dmabuf), ok, dmabuf),
    }
}

/// The steps that are taken, in order.
pub open spec fn steps_from(step: OpenStep, ok: spec_fn(OpenStep) -> bool, dmabuf: bool) -> Seq<
    OpenStep,
>
    decreases steps_left(step),
{
    match step {
        OpenStep::Done(_) => seq![],
        _ => seq![step] + steps_from(next_step_spec(step, ok(step), dmabuf), ok, dmabuf),
    }
}

/// A window is opened in the end: an embedded one needs a connection and every
/// stream the session cannot do without; without a connection it is a plain one; a
/// renderer or such a stream that cannot be had is an error. Neither a clipboard, a
/// title nor shared buffers that cannot be had keep the window from opening.
pub proof fn opening_a_window(embedding: bool, dmabuf: bool, ok: spec_fn(OpenStep) -> bool)
    ensures
        open_from(first_step_spec(embedding), ok, dmabuf) == if !embedding {
            OpenResult::Plain
        } else if !ok(OpenStep::CreateRenderer) {
            OpenResult::Failed
        } else if !ok(OpenStep::TakeConnection) {
            OpenResult::Plain
        } else if ok(OpenStep::WriteMode) && ok(OpenStep::CloneReader) && (dmabuf || ok(
            OpenStep::AttachFrames,
        )) && ok(OpenStep::CloneCloser) && ok(OpenStep::CloneCursorWriter) {
            OpenResult::Embedded
        } else {
            OpenResult::Failed
        },
{
    reveal_with_fuel(open_from, 18);
}

/// The mode byte goes out before anything else does, and says whether frames go through
/// shared buffers: no step that sends, or that attaches a callback that does, comes
/// before it.
pub proof fn mode_comes_first(embedding: bool, dmabuf: bool, ok: spec_fn(OpenStep) -> bool)
    ensures
        ({
            let steps = steps_from(first_step_spec(embedding), ok, dmabuf);
            forall|i: int|
                0 <= i < steps.len() && sends(#[trigger] steps[i]) ==> i > 3 && steps[3]
                    == OpenStep::WriteMode && step_message(steps[3], dmabuf) == mode_message(
                    dmabuf,
                )
        }),
{
    reveal_with_fuel(steps_from, 5);
    let steps = steps_from(first_step_spec(embedding), ok, dmabuf);
    if embedding && ok(OpenStep::CreateRenderer) && ok(OpenStep::TakeConnection) {
        let rest = steps_from(
            next_step_spec(OpenStep::WriteMode, ok(OpenStep::WriteMode), dmabuf),
            ok,
            dmabuf,
        );
        assert(steps =~= seq![
            OpenStep::CreateRenderer,
            OpenStep::StartListener,
            OpenStep::TakeConnection,
            OpenStep::WriteMode,
        ] + rest);
    }
}

/// The steps where every one succeeds. With shared buffers nothing that sends by
/// itself stands between the mode byte and the handshake: a copied text or a title
/// follows only once there is one, and a new window has no title.
#[verifier::rlimit(50)]
pub proof fn steps_where_all_succeed(dmabuf: bool, ok: spec_fn(OpenStep) -> bool, bounds: Bounds)
    requires
        forall|step: OpenStep| #[trigger] ok(step),
    ensures
        steps_from(OpenStep::CreateRenderer, ok, dmabuf) == seq![
            OpenStep::CreateRenderer,
            OpenStep::StartListener,
            OpenStep::TakeConnection,
            OpenStep::WriteMode,
            OpenStep::BridgeClipboard,
            OpenStep::CloneReader,
        ] + (if dmabuf {
            seq![
                OpenStep::CreateWindow,
                OpenStep::AttachTitle,
                OpenStep::SpawnReader,
                OpenStep::EnableDmabuf,
                OpenStep::SendHandshake,
                OpenStep::AttachReady,
            ]
        } else {
            seq![
                OpenStep::AttachFrames,
                OpenStep::CreateWindow,
                OpenStep::AttachTitle,
                OpenStep::SpawnReader,
            ]
        }) + seq![OpenStep::CloneCloser, OpenStep::CloneCursorWriter, OpenStep::StartClock],
        WindowCore::fresh(bounds).title is None,
{
    assert(ok(OpenStep::CreateRenderer) && ok(OpenStep::TakeConnection) && ok(OpenStep::WriteMode)
        && ok(OpenStep::CloneReader) && ok(OpenStep::AttachFrames) && ok(OpenStep::EnableDmabuf)
        && ok(OpenStep::SendHandshake) && ok(OpenStep::CloneCloser) && ok(
        OpenStep::CloneCursorWriter,
    ));
    steps_of_opening_a_window(dmabuf, ok);
    let steps = steps_from(OpenStep::CreateRenderer, ok, dmabuf);
    let greeted = seq![
        OpenStep::CreateRenderer,
        OpenStep::StartListener,
        OpenStep::TakeConnection,
        OpenStep::WriteMode,
        OpenStep::BridgeClipboard,
        OpenStep::CloneReader,
    ];
    let tail = seq![OpenStep::CloneCloser, OpenStep::CloneCursorWriter, OpenStep::StartClock];
    if dmabuf {
        assert(steps =~= greeted + seq![
            OpenStep::CreateWindow,
            OpenStep::AttachTitle,
            OpenStep::SpawnReader,
            OpenStep::EnableDmabuf,
            OpenStep::SendHandshake,
            OpenStep::AttachReady,
        ] + tail);
    } else {
        assert(steps =~= greeted + seq![
            OpenStep::AttachFrames,
            OpenStep::CreateWindow,
            OpenStep::AttachTitle,
            OpenStep::SpawnReader,
        ] + tail);
    }
}

proof fn only_of_one_transport(step: OpenStep, ok: spec_fn(OpenStep) -> bool, dmabuf: bool)
    requires
        of_transport(step, dmabuf),
    ensures
        ({
            let steps = steps_from(step, ok, dmabuf);
            forall|i: int| 0 <= i < steps.len() ==> of_transport(#[trigger] steps[i], dmabuf)
        }),
    decreases steps_left(step),
{
    if !(step is Done) {
        let next = next_step_spec(step, ok(step), dmabuf);
        only_of_one_transport(next, ok, dmabuf);
        let later = steps_from(next, ok, dmabuf);
        let steps = steps_from(step, ok, dmabuf);
        assert forall|i: int| 0 <= i < steps.len() implies of_transport(
            #[trigger] steps[i],
            dmabuf,
        ) by {
            if i > 0 {
                assert(steps[i] == later[i - 1]);
            }
        }
    }
}

/// Whether a step may be taken: pixels are sent only where there are no shared buffers,
/// and a handshake or the notice of a frame only where there are.
pub open spec fn of_transport(step: OpenStep, dmabuf: bool) -> bool {
    match step {
        OpenStep::AttachFrames => !dmabuf,
        OpenStep::EnableDmabuf => dmabuf,
        OpenStep::SendHandshake => dmabuf,
        OpenStep::AttachReady => dmabuf,
        _ => true,
    }
}

/// Frames go one way only: as pixels where the mode byte is 0, through shared buffers
/// where it is 1.
pub proof fn frames_go_one_way(embedding: bool, dmabuf: bool, ok: spec_fn(OpenStep) -> bool)
    ensures
        ({
            let steps = steps_from(first_step_spec(embedding), ok, dmabuf);
            forall|i: int| 0 <= i < steps.len() ==> of_transport(#[trigger] steps[i], dmabuf)
        }),
{
    only_of_one_transport(first_step_spec(embedding), ok, dmabuf);
}

/// Whether a step sends to the consumer, or attaches what does.
pub open spec fn sends(step: OpenStep) -> bool {
    match step {
        OpenStep::BridgeClipboard => true,
        OpenStep::AttachFrames => true,
        OpenStep::AttachTitle => true,
        OpenStep::SendHandshake => true,
        OpenStep::AttachReady => true,
        OpenStep::CloneCursorWriter => true,
        OpenStep::StartClock => true,
        _ => false,
    }
}

/// The two transports are told apart by their mode byte.
pub proof fn modes_differ()
    ensures
        mode_message(true) != mode_message(false),
        mode_message(true).len() == 1,
        mode_message(false).len() == 1,
{
    assert(mode_message(true)[0] != mode_message(false)[0]);
}

/// The steps that hand frames over through shared buffers: each is tried once the one before
/// it succeeded, and none keeps the window from opening.
pub open spec fn buffer_steps(ok: spec_fn(OpenStep) -> bool) -> Seq<OpenStep> {
    if !ok(OpenStep::EnableDmabuf) {
        seq![OpenStep::EnableDmabuf]
    } else if !ok(OpenStep::SendHandshake) {
        seq![OpenStep::EnableDmabuf, OpenStep::SendHandshake]
    } else {
        seq![OpenStep::EnableDmabuf, OpenStep::SendHandshake, OpenStep::AttachReady]
    }
}

/// The steps that start the clock, as far as they get.
pub open spec fn clock_steps(ok: spec_fn(OpenStep) -> bool) -> Seq<OpenStep> {
    if !ok(OpenStep::CloneCloser) {
        seq![OpenStep::CloneCloser]
    } else if !ok(OpenStep::CloneCursorWriter) {
        seq![OpenStep::CloneCloser, OpenStep::CloneCursorWriter]
    } else {
        seq![OpenStep::CloneCloser, OpenStep::CloneCursorWriter, OpenStep::StartClock]
    }
}

proof fn clock_steps_follow(ok: spec_fn(OpenStep) -> bool, dmabuf: bool)
    ensures
        steps_from(OpenStep::CloneCloser, ok, dmabuf) == clock_steps(ok),
{
    reveal_with_fuel(steps_from, 5);
    assert(steps_from(OpenStep::CloneCloser, ok, dmabuf) =~= clock_steps(ok));
}

proof fn buffer_steps_follow(ok: spec_fn(OpenStep) -> bool)
    ensures
        steps_from(OpenStep::EnableDmabuf, ok, true) == buffer_steps(ok) + clock_steps(ok),
{
    reveal_with_fuel(steps_from, 4);
    clock_steps_follow(ok, true);
    assert(steps_from(OpenStep::EnableDmabuf, ok, true) =~= buffer_steps(ok) + clock_steps(ok));
}

#[verifier::rlimit(50)]
proof fn window_steps_follow(ok: spec_fn(OpenStep) -> bool, dmabuf: bool)
    ensures
        steps_from(OpenStep::CreateWindow, ok, dmabuf) == seq![
            OpenStep::CreateWindow,
            OpenStep::AttachTitle,
            OpenStep::SpawnReader,
        ] + (if dmabuf {
            buffer_steps(ok)
        } else {
            seq![]
        }) + clock_steps(ok),
{
    reveal_with_fuel(steps_from, 4);
    if dmabuf {
        buffer_steps_follow(ok);
    } else {
        clock_steps_follow(ok, dmabuf);
    }
    assert(steps_from(OpenStep::CreateWindow, ok, dmabuf) =~= seq![
        OpenStep::CreateWindow,
        OpenStep::AttachTitle,
        OpenStep::SpawnReader,
    ] + (if dmabuf {
        buffer_steps(ok)
    } else {
        seq![]
    }) + clock_steps(ok));
}

#[verifier::rlimit(50)]
proof fn reader_steps_follow(ok: spec_fn(OpenStep) -> bool, dmabuf: bool)
    ensures
        steps_from(OpenStep::CloneReader, ok, dmabuf).len() > 0,
        steps_from(OpenStep::CloneReader, ok, dmabuf)[0] == OpenStep::CloneReader,
        steps_from(OpenStep::CloneReader, ok, dmabuf).skip(1) == if !ok(OpenStep::CloneReader) {
            seq![]
        } else if dmabuf {
            seq![OpenStep::CreateWindow, OpenStep::AttachTitle, OpenStep::SpawnReader]
                + buffer_steps(ok) + clock_steps(ok)
        } else if !ok(OpenStep::AttachFrames) {
            seq![OpenStep::AttachFrames]
        } else {
            seq![
                OpenStep::AttachFrames,
                OpenStep::CreateWindow,
                OpenStep::AttachTitle,
                OpenStep::SpawnReader,
            ] + clock_steps(ok)
        },
{
    let later = steps_from(
        next_step_spec(OpenStep::CloneReader, ok(OpenStep::CloneReader), dmabuf),
        ok,
        dmabuf,
    );
    assert(steps_from(OpenStep::CloneReader, ok, dmabuf) == seq![OpenStep::CloneReader] + later);
    assert(steps_from(OpenStep::CloneReader, ok, dmabuf).skip(1) =~= later);
    window_steps_follow(ok, dmabuf);
    if !ok(OpenStep::CloneReader) {
        assert(later =~= seq![]);
    } else if !dmabuf {
        let framed = steps_from(
            next_step_spec(OpenStep::AttachFrames, ok(OpenStep::AttachFrames), dmabuf),
            ok,
            dmabuf,
        );
        assert(later == seq![OpenStep::AttachFrames] + framed);
        if ok(OpenStep::AttachFrames) {
            assert(later =~= seq![
                OpenStep::AttachFrames,
                OpenStep::CreateWindow,
                OpenStep::AttachTitle,
                OpenStep::SpawnReader,
            ] + clock_steps(ok));
        } else {
            assert(later =~= seq![OpenStep::AttachFrames]);
        }
    }
}

#[verifier::rlimit(50)]
proof fn greeting_steps_follow(ok: spec_fn(OpenStep) -> bool, dmabuf: bool)
    ensures
        ({
            let steps = steps_from(OpenStep::CreateRenderer, ok, dmabuf);
            if !ok(OpenStep::CreateRenderer) {
                steps == seq![OpenStep::CreateRenderer]
            } else if !ok(OpenStep::TakeConnection) {
                steps == seq![
                    OpenStep::CreateRenderer,
                    OpenStep::StartListener,
                    OpenStep::TakeConnection,
                ]
            } else if !ok(OpenStep::WriteMode) {
                steps == seq![
                    OpenStep::CreateRenderer,
                    OpenStep::StartListener,
                    OpenStep::TakeConnection,
                    OpenStep::WriteMode,
                ]
            } else {
                steps == seq![
                    OpenStep::CreateRenderer,
                    OpenStep::StartListener,
                    OpenStep::TakeConnection,
                    OpenStep::WriteMode,
                    OpenStep::BridgeClipboard,
                ] + steps_from(OpenStep::CloneReader, ok, dmabuf)
            }
        }),
{
    let a = steps_from(OpenStep::CreateRenderer, ok, dmabuf);
    let b = steps_from(OpenStep::StartListener, ok, dmabuf);
    let c = steps_from(OpenStep::TakeConnection, ok, dmabuf);
    let d = steps_from(OpenStep::WriteMode, ok, dmabuf);
    let e = steps_from(OpenStep::BridgeClipboard, ok, dmabuf);
    let f = steps_from(OpenStep::CloneReader, ok, dmabuf);
    let none = Seq::<OpenStep>::empty();
    assert(steps_from(OpenStep::Done(OpenResult::Failed), ok, dmabuf) =~= none);
    assert(steps_from(OpenStep::Done(OpenResult::Plain), ok, dmabuf) =~= none);
    assert(e == seq![OpenStep::BridgeClipboard] + f);
    assert(b == seq![OpenStep::StartListener] + c);
    if !ok(OpenStep::CreateRenderer) {
        assert(a =~= seq![OpenStep::CreateRenderer]);
    } else {
        assert(a == seq![OpenStep::CreateRenderer] + b);
        if !ok(OpenStep::TakeConnection) {
            assert(c =~= seq![OpenStep::TakeConnection]);
            assert(a =~= seq![
                OpenStep::CreateRenderer,
                OpenStep::StartListener,
                OpenStep::TakeConnection,
            ]);
        } else {
            assert(c == seq![OpenStep::TakeConnection] + d);
            if !ok(OpenStep::WriteMode) {
                assert(d =~= seq![OpenStep::WriteMode]);
                assert(a =~= seq![
                    OpenStep::CreateRenderer,
                    OpenStep::StartListener,
                    OpenStep::TakeConnection,
                    OpenStep::WriteMode,
                ]);
            } else {
                assert(d == seq![OpenStep::WriteMode] + e);
                assert(a =~= seq![
                    OpenStep::CreateRenderer,
                    OpenStep::StartListener,
                    OpenStep::TakeConnection,
                    OpenStep::WriteMode,
                    OpenStep::BridgeClipboard,
                ] + f);
            }
        }
    }
}

/// The steps of a window for a consumer, whichever of them succeed. What the session cannot
/// do without ends the opening where it fails: the renderer, the connection, the mode byte,
/// the reader, the frames where they are copied, and the clock's streams. A clipboard, a
/// title or buffers that cannot be had are passed over, and everything behind them is still
/// done.
#[verifier::rlimit(50)]
pub proof fn steps_of_opening_a_window(dmabuf: bool, ok: spec_fn(OpenStep) -> bool)
    ensures
        !ok(OpenStep::CreateRenderer) ==> steps_from(OpenStep::CreateRenderer, ok, dmabuf) == seq![
            OpenStep::CreateRenderer,
        ],
        ok(OpenStep::CreateRenderer) && !ok(OpenStep::TakeConnection) ==> steps_from(
            OpenStep::CreateRenderer,
            ok,
            dmabuf,
        ) == seq![OpenStep::CreateRenderer, OpenStep::StartListener, OpenStep::TakeConnection],
        ok(OpenStep::CreateRenderer) && ok(OpenStep::TakeConnection) && !ok(OpenStep::WriteMode)
            ==> steps_from(OpenStep::CreateRenderer, ok, dmabuf) == seq![
            OpenStep::CreateRenderer,
            OpenStep::StartListener,
            OpenStep::TakeConnection,
            OpenStep::WriteMode,
        ],
        ok(OpenStep::CreateRenderer) && ok(OpenStep::TakeConnection) && ok(OpenStep::WriteMode)
            ==> steps_from(OpenStep::CreateRenderer, ok, dmabuf) == seq![
            OpenStep::CreateRenderer,
            OpenStep::StartListener,
            OpenStep::TakeConnection,
            OpenStep::WriteMode,
            OpenStep::BridgeClipboard,
            OpenStep::CloneReader,
        ] + (if !ok(OpenStep::CloneReader) {
            seq![]
        } else if dmabuf {
            seq![OpenStep::CreateWindow, OpenStep::AttachTitle, OpenStep::SpawnReader]
                + buffer_steps(ok) + clock_steps(ok)
        } else if !ok(OpenStep::AttachFrames) {
            seq![OpenStep::AttachFrames]
        } else {
            seq![
                OpenStep::AttachFrames,
                OpenStep::CreateWindow,
                OpenStep::AttachTitle,
                OpenStep::SpawnReader,
            ] + clock_steps(ok)
        }),
{
    reader_steps_follow(ok, dmabuf);
    let read = steps_from(OpenStep::CloneReader, ok, dmabuf);
    let steps = steps_from(OpenStep::CreateRenderer, ok, dmabuf);
    greeting_steps_follow(ok, dmabuf);
    if ok(OpenStep::CreateRenderer) && ok(OpenStep::TakeConnection) && ok(OpenStep::WriteMode) {
        assert(steps =~= seq![
            OpenStep::CreateRenderer,
            OpenStep::StartListener,
            OpenStep::TakeConnection,
            OpenStep::WriteMode,
            OpenStep::BridgeClipboard,
            OpenStep::CloneReader,
        ] + read.skip(1));
    }
}

/// Only the mode byte is written by a step itself; without a socket no step is taken.
pub proof fn only_the_mode_is_written(step: OpenStep, ok: spec_fn(OpenStep) -> bool, dmabuf: bool)
    ensures
        step_message(step, dmabuf).len() > 0 <==> step == OpenStep::WriteMode,
        step == OpenStep::WriteMode ==> step_message(step, dmabuf).len() == 1 && (step_message(
            step,
            dmabuf,
        )[0] == 1 <==> dmabuf),
        steps_from(first_step_spec(false), ok, dmabuf) == Seq::<OpenStep>::empty(),
        first_step_spec(true) == OpenStep::CreateRenderer,
        EMBED_DMABUF_COUNT == 2,
{
}

/// A window that is open, or was given up, needs no further step.
pub proof fn nothing_follows_the_last_step(result: OpenResult, ok: bool, dmabuf: bool)
    ensures
        next_step_spec(OpenStep::Done(result), ok, dmabuf) == OpenStep::Done(result),
{
}

} // verus!
