//! An embed session of macOS: greeting the consumer, and what every tick does.

use vstd::prelude::*;

use crate::embed_palette::{BridgeView, EmbedBridge};
use crate::events::SCROLL_LINES;
use crate::input::EmbedInput;
use crate::input_state::{EmbedAction, EmbedInputState};
use crate::linux::clock::{bridge_after, clipboard_after};
use crate::macos::embed_window::{DrawPlan, EmbedWindow, ZeroCopyHandshake};
use crate::protocol::{
    iosurface_message, mode_message, send_iosurface_handshake, send_mode,
};
use crate::text::same_text;
use crate::window::{Callback, Slot};

verus! {

/// What a consumer is greeted with: the byte that says which transport it gets, and
/// with surfaces how to find them.
pub open spec fn greeting(handshake: Option<ZeroCopyHandshake>) -> Seq<u8> {
    match handshake {
        Some(h) => mode_message(true) + iosurface_message(
            h.service_name@,
            h.buffer_count,
            h.max_width,
            h.max_height,
        ),
        None => mode_message(false),
    }
}

/// The window with the callbacks that send its frames and titles.
pub open spec fn attached(
    window: EmbedWindow,
    zero_copy: bool,
    on_ready: Callback,
    on_frame: Callback,
    on_title: Callback,
) -> EmbedWindow {
    EmbedWindow {
        core: window.core.with_callback(Slot::TitleChange, Some(on_title)),
        on_ready: if zero_copy {
            Some(on_ready)
        } else {
            window.on_ready
        },
        on_frame: if zero_copy {
            window.on_frame
        } else {
            Some(on_frame)
        },
        ..window
    }
}

/// The cursor to send: the one that was asked for, unless it was sent last.
pub open spec fn next_cursor(
    last: Option<&'static str>,
    pending: Option<&'static str>,
) -> Option<&'static str> {
    match (pending, last) {
        (Some(name), Some(last)) if name@ == last@ => None,
        _ => pending,
    }
}

/// The cursor that was sent last, after another was sent or failed to be.
pub open spec fn cursor_after(
    last: Option<&'static str>,
    name: &'static str,
    ok: bool,
) -> Option<&'static str> {
    if ok {
        Some(name)
    } else {
        last
    }
}

/// The session of a window.
pub struct Session {
    pub input: EmbedInputState,
    /// The name of the cursor that was sent last.
    pub last_cursor: Option<&'static str>,
}

/// A step of a tick.
#[derive(Clone, Copy, Debug, PartialEq, Eq, Structural)]
pub enum SessionStep {
    /// Tell the window active, unless it was told.
    TellActive,
    /// Receive what the reader has, until it has no more.
    Receive,
    /// Take the cursor that was asked for, and tell the consumer if it is another.
    SendCursor,
    /// Ask for a frame.
    RequestFrame,
    /// The tick is over; wait for the next.
    Wait,
    /// The session is over.
    End,
}

/// What a tick begins with.
pub open spec fn first_session_step(clock_alive: bool, window_alive: bool) -> SessionStep {
    if clock_alive && window_alive {
        SessionStep::TellActive
    } else {
        SessionStep::End
    }
}

/// The step that follows; a consumer that is found gone while receiving ends the session.
pub open spec fn session_step_after(step: SessionStep, connected: bool) -> SessionStep {
    match step {
        SessionStep::TellActive => SessionStep::Receive,
        SessionStep::Receive => if connected {
            SessionStep::SendCursor
        } else {
            SessionStep::End
        },
        SessionStep::SendCursor => SessionStep::RequestFrame,
        SessionStep::RequestFrame => SessionStep::Wait,
        SessionStep::Wait => SessionStep::Wait,
        SessionStep::End => SessionStep::End,
    }
}

/// How many steps are at most left.
pub open spec fn session_steps_left(step: SessionStep) -> nat {
    match step {
        SessionStep::TellActive => 4,
        SessionStep::Receive => 3,
        SessionStep::SendCursor => 2,
        SessionStep::RequestFrame => 1,
        SessionStep::Wait => 0,
        SessionStep::End => 0,
    }
}

/// The steps that are taken, in order, up to the one that ends the tick.
pub open spec fn session_steps(step: SessionStep, connected: bool) -> Seq<SessionStep>
    decreases session_steps_left(step),
{
    if session_steps_left(step) == 0 {
        seq![step]
    } else {
        seq![step] + session_steps(session_step_after(step, connected), connected)
    }
}

/// What came from the reader.
#[derive(Debug)]
pub enum Received {
    Input(EmbedInput),
    /// Nothing more for now.
    Empty,
    /// The consumer is gone.
    Disconnected,
}

/// What to do with it.
#[derive(Debug)]
pub enum ReceiveStep {
    /// Do this, and receive again.
    Perform(EmbedAction),
    /// Go on with the next step: the consumer is still there.
    Proceed,
    /// Shut the socket down, call this, and go on with the step that follows a consumer
    /// that is gone.
    Close(Option<Callback>),
}

/// The window after what came: it is closed once its consumer is gone.
pub open spec fn window_after(window: EmbedWindow, received: Received) -> EmbedWindow {
    if received is Disconnected {
        EmbedWindow { core: window.core.closed(), ..window }
    } else {
        window
    }
}

/// The bridge after what came.
pub open spec fn heard_by(bridge: BridgeView, received: Received) -> BridgeView {
    match received {
        Received::Input(input) => bridge_after(bridge, input),
        _ => bridge,
    }
}

/// The cached clipboard after what came.
pub open spec fn pasted_after(clipboard: Option<String>, received: Received) -> Option<String> {
    match received {
        Received::Input(input) => clipboard_after(clipboard, input),
        _ => clipboard,
    }
}

impl Session {
    /// A new session.
    pub fn new() -> (session: Session)
        ensures
            session.input == EmbedInputState::initial(),
            session.last_cursor is None,
    {
        Session { input: EmbedInputState::new(), last_cursor: None }
    }

    /// Greets the consumer, once it is known whether the window is on surfaces, and
    /// attaches the callbacks that send frames and titles. Nothing but the greeting
    /// goes out here.
    pub fn greet(
        window: &mut EmbedWindow,
        handshake: &Option<ZeroCopyHandshake>,
        on_ready: Callback,
        on_frame: Callback,
        on_title: Callback,
        out: &mut Vec<u8>,
    )
        requires
            old(window).wf(),
        ensures
            final(window).wf(),
            final(out)@ == old(out)@ + greeting(*handshake),
            *final(window) == attached(
                *old(window),
                handshake is Some,
                on_ready,
                on_frame,
                on_title,
            ),
    {
        send_mode(out, handshake.is_some());
        match handshake {
            Some(h) => {
                send_iosurface_handshake(
                    out,
                    h.service_name.as_str(),
                    h.buffer_count,
                    h.max_width,
                    h.max_height,
                );
                window.on_ready = Some(on_ready);
            },
            None => {
                window.on_frame = Some(on_frame);
            },
        }
        window.core.register(Slot::TitleChange, on_title);
        assert(out@ =~= old(out)@ + greeting(*handshake));
    }

    /// What a tick begins with.
    pub fn begin_tick(clock_alive: bool, window_alive: bool) -> (step: SessionStep)
        ensures
            step == first_session_step(clock_alive, window_alive),
    {
        if clock_alive && window_alive {
            SessionStep::TellActive
        } else {
            SessionStep::End
        }
    }

    /// The step that follows, given whether receiving found the consumer still there.
    pub fn next_step(step: SessionStep, connected: bool) -> (next: SessionStep)
        ensures
            next == session_step_after(step, connected),
    {
        match step {
            SessionStep::TellActive => SessionStep::Receive,
            SessionStep::Receive => if connected {
                SessionStep::SendCursor
            } else {
                SessionStep::End
            },
            SessionStep::SendCursor => SessionStep::RequestFrame,
            SessionStep::RequestFrame => SessionStep::Wait,
            SessionStep::Wait => SessionStep::Wait,
            SessionStep::End => SessionStep::End,
        }
    }

    /// The state of the input after what came.
    pub open spec fn input_after(self, received: Received, window: EmbedWindow) -> EmbedInputState {
        match received {
            Received::Input(input) => self.input.after(input, window.scale_percent),
            _ => self.input,
        }
    }

    /// What to do with what came.
    pub open spec fn receive_step(self, received: Received, window: EmbedWindow) -> ReceiveStep {
        match received {
            Received::Input(input) => ReceiveStep::Perform(
                self.input_after(received, window).action(
                    input,
                    window.scale_percent,
                    SCROLL_LINES,
                ),
            ),
            Received::Empty => ReceiveStep::Proceed,
            Received::Disconnected => ReceiveStep::Close(window.core.close),
        }
    }

    /// Takes what came from the reader.
    pub fn receive(
        &mut self,
        received: Received,
        window: &mut EmbedWindow,
        bridge: &mut EmbedBridge,
        clipboard: &mut Option<String>,
    ) -> (step: ReceiveStep)
        requires
            old(window).wf(),
        ensures
            final(window).wf(),
            final(self).last_cursor == old(self).last_cursor,
            final(self).input == old(self).input_after(received, *old(window)),
            step == old(self).receive_step(received, *old(window)),
            *final(window) == window_after(*old(window), received),
            final(bridge)@ == heard_by(old(bridge)@, received),
            *final(clipboard) == pasted_after(*old(clipboard), received),
    {
        match received {
            Received::Input(input) => {
                let (_, action) = self.input.apply(
                    input,
                    window.scale_percent,
                    SCROLL_LINES,
                    bridge,
                    clipboard,
                );
                ReceiveStep::Perform(action)
            },
            Received::Empty => ReceiveStep::Proceed,
            Received::Disconnected => ReceiveStep::Close(window.core.fire_close()),
        }
    }

    /// The cursor to tell the consumer of: the one that was asked for, if it is not the
    /// one that was sent last.
    pub fn cursor_to_send(&self, pending: Option<&'static str>) -> (name: Option<&'static str>)
        ensures
            name == next_cursor(self.last_cursor, pending),
    {
        match (pending, self.last_cursor) {
            (Some(name), Some(last)) => {
                if same_text(name, last) {
                    None
                } else {
                    pending
                }
            },
            _ => pending,
        }
    }

    /// Takes the outcome of sending a cursor: one that could not be sent is tried again
    /// when it is next asked for.
    pub fn cursor_sent(&mut self, name: &'static str, ok: bool)
        ensures
            final(self).input == old(self).input,
            final(self).last_cursor == cursor_after(old(self).last_cursor, name, ok),
    {
        if ok {
            self.last_cursor = Some(name);
        }
    }
}

/// The steps of a tick. The window is told active before it gets input, and the cursor
/// that was asked for since the last tick goes out before the frame; a consumer that is
/// gone gets neither.
pub proof fn steps_of_a_tick(clock_alive: bool, window_alive: bool, connected: bool)
    ensures
        session_steps(first_session_step(clock_alive, window_alive), connected) == if !clock_alive
            || !window_alive {
            seq![SessionStep::End]
        } else if !connected {
            seq![SessionStep::TellActive, SessionStep::Receive, SessionStep::End]
        } else {
            seq![
                SessionStep::TellActive,
                SessionStep::Receive,
                SessionStep::SendCursor,
                SessionStep::RequestFrame,
                SessionStep::Wait,
            ]
        },
{
    reveal_with_fuel(session_steps, 6);
}

/// The mode byte says what happened: 1 exactly where the window is on surfaces.
pub proof fn mode_tells_the_transport(handshake: Option<ZeroCopyHandshake>)
    ensures
        greeting(handshake).len() >= 1,
        greeting(handshake)[0] == if handshake is Some {
            1u8
        } else {
            0u8
        },
{
}

/// A cursor that was sent is not sent again while nothing else is asked for; one that
/// could not be sent is, when it is next asked for.
pub proof fn a_sent_cursor_is_not_sent_again(
    last: Option<&'static str>,
    pending: Option<&'static str>,
    ok: bool,
)
    requires
        next_cursor(last, pending) is Some,
    ensures
        next_cursor(
            cursor_after(last, next_cursor(last, pending).unwrap(), ok),
            pending,
        ) == if ok {
            None
        } else {
            pending
        },
{
}

/// The cursor that is told of is the one that was asked for, and it is told of exactly where
/// it is another than the one that was sent last. Once it was sent it is the one sent last;
/// one that could not be sent leaves things as they were.
pub proof fn another_cursor_is_told_of(
    last: Option<&'static str>,
    pending: Option<&'static str>,
    name: &'static str,
)
    ensures
        next_cursor(last, pending) is None || next_cursor(last, pending) == pending,
        pending is None ==> next_cursor(last, pending) is None,
        pending matches Some(asked) ==> (next_cursor(last, pending) is None <==> (last matches Some(
            sent,
        ) && sent@ == asked@)),
        cursor_after(last, name, true) == Some(name),
        cursor_after(last, name, false) == last,
{
}

/// A consumer is greeted with the mode byte first; with surfaces the rest of the greeting is
/// where they are, and without there is no rest.
pub proof fn a_greeting_is_the_mode_and_the_surfaces(handshake: Option<ZeroCopyHandshake>)
    ensures
        handshake is None ==> greeting(handshake) == seq![0u8],
        handshake matches Some(h) ==> greeting(handshake) == seq![1u8] + iosurface_message(
            h.service_name@,
            h.buffer_count,
            h.max_width,
            h.max_height,
        ),
{
}

/// A frame of a window that was greeted reaches the consumer by the callback that belongs to
/// how the window draws: one for surfaces, one for copies. A title reaches it by its own, and
/// nothing else changes.
pub proof fn a_greeted_window_reaches_its_consumer(
    window: EmbedWindow,
    zero_copy: bool,
    on_ready: Callback,
    on_frame: Callback,
    on_title: Callback,
    slot: Slot,
)
    requires
        window.wf(),
        zero_copy <==> window.target is Surfaces,
    ensures
        ({
            let after = attached(window, zero_copy, on_ready, on_frame, on_title);
            &&& after.wf()
            &&& after.plan() matches DrawPlan::Surface { callback, .. } ==> callback == Some(
                on_ready,
            )
            &&& after.plan() matches DrawPlan::Readback { callback, .. } ==> callback == Some(
                on_frame,
            )
            &&& zero_copy ==> after.on_frame == window.on_frame
            &&& !zero_copy ==> after.on_ready == window.on_ready
            &&& after.core.callbacks.at(slot) == if slot == Slot::TitleChange {
                Some(on_title)
            } else {
                window.core.callbacks.at(slot)
            }
            &&& after.core.bounds == window.core.bounds
            &&& after.core.force_frame == window.core.force_frame
            &&& after.pixels == window.pixels
            &&& after.target == window.target
            &&& after.scale_percent == window.scale_percent
        }),
{
}

/// Input is performed at the window's scale and by three lines a notch; a pause changes
/// nothing and goes on; a consumer that is gone closes its window once. Only input changes
/// what is pasted and what the host's colors are.
pub proof fn only_a_lost_consumer_closes(
    session: Session,
    received: Received,
    window: EmbedWindow,
    bridge: BridgeView,
    clipboard: Option<String>,
)
    ensures
        received is Empty <==> session.receive_step(received, window) is Proceed,
        received is Disconnected <==> session.receive_step(received, window) is Close,
        received is Disconnected ==> session.receive_step(received, window) == ReceiveStep::Close(
            window.core.close,
        ),
        received is Disconnected ==> window_after(window, received).core.close is None,
        received is Disconnected ==> session.receive_step(
            received,
            window_after(window, received),
        ) == ReceiveStep::Close(None),
        !(received is Disconnected) ==> window_after(window, received) == window,
        window_after(window, received).core.callbacks == window.core.callbacks,
        window_after(window, received).pixels == window.pixels,
        !(received is Input) ==> session.input_after(received, window) == session.input,
        !(received is Input) ==> heard_by(bridge, received) == bridge,
        !(received is Input) ==> pasted_after(clipboard, received) == clipboard,
        received matches Received::Input(EmbedInput::Clipboard { text }) ==> pasted_after(
            clipboard,
            received,
        ) == Some(text),
        received matches Received::Input(EmbedInput::Palette { colors }) ==> heard_by(
            bridge,
            received,
        ).palette == Some(colors@),
        received matches Received::Input(input) ==> session.receive_step(received, window)
            == ReceiveStep::Perform(
            session.input.after(input, window.scale_percent).action(
                input,
                window.scale_percent,
                3,
            ),
        ),
{
}

/// A tick that is over stays over, and so does a session.
pub proof fn what_is_over_stays_over(connected: bool)
    ensures
        session_step_after(SessionStep::Wait, connected) == SessionStep::Wait,
        session_step_after(SessionStep::End, connected) == SessionStep::End,
{
}

} // verus!
