//! One window's frame clock: every tick forwards the input that came, asks for a
//! frame, and tells the consumer of a changed cursor.
//!
//! [`begin_tick`] and [`next_tick_step`] say what a tick does, step by step.

use std::collections::VecDeque;

use vstd::prelude::*;

use crate::cursor::{cursor_name_spec, CursorStyle, PendingCursor};
use crate::embed_palette::{BridgeView, EmbedBridge};
use crate::events::{LogicalPoint, PlatformInput, ScrollDelta, SCROLL_LINES};
use crate::input::EmbedInput;
use crate::input_state::{EmbedAction, EmbedInputState};
use crate::linux::client::{EMBED_DMABUF_MAX_HEIGHT, EMBED_DMABUF_MAX_WIDTH};
use crate::protocol::{whole_cursor_message, write_cursor};
use crate::text::same_text;

verus! {

/// The time between two ticks, in milliseconds.
pub const TICK_MS: u64 = 16;

/// A step of a tick.
#[derive(Clone, Copy, Debug, PartialEq, Eq, Structural)]
pub enum TickStep {
    /// The consumer is gone: close the window, if it is still there.
    CloseWindow,
    /// The window is gone: shut the connection down.
    ShutConnection,
    /// Tell the window active, unless it was told.
    TellActive,
    /// Take the messages that are queued now, and do what each asks for before the next
    /// is taken.
    TakeInput,
    /// Ask for a frame.
    RequestFrame,
    /// Tell the consumer of a changed cursor.
    SendCursor,
    /// The tick is over; the next one comes after [`TICK_MS`].
    Wait,
    /// The clock stops.
    Stop,
}

/// What a tick begins with: either side that is gone ends the other.
pub open spec fn first_tick_step(connected: bool, window_alive: bool) -> TickStep {
    if !connected {
        TickStep::CloseWindow
    } else if !window_alive {
        TickStep::ShutConnection
    } else {
        TickStep::TellActive
    }
}

/// The step that follows.
pub open spec fn tick_step_after(step: TickStep) -> TickStep {
    match step {
        TickStep::CloseWindow => TickStep::Stop,
        TickStep::ShutConnection => TickStep::Stop,
        TickStep::TellActive => TickStep::TakeInput,
        TickStep::TakeInput => TickStep::RequestFrame,
        TickStep::RequestFrame => TickStep::SendCursor,
        TickStep::SendCursor => TickStep::Wait,
        TickStep::Wait => TickStep::Wait,
        TickStep::Stop => TickStep::Stop,
    }
}

/// How many steps are left.
pub open spec fn tick_steps_left(step: TickStep) -> nat {
    match step {
        TickStep::CloseWindow => 1,
        TickStep::ShutConnection => 1,
        TickStep::TellActive => 4,
        TickStep::TakeInput => 3,
        TickStep::RequestFrame => 2,
        TickStep::SendCursor => 1,
        TickStep::Wait => 0,
        TickStep::Stop => 0,
    }
}

/// The steps that are taken, in order, up to the one that ends the tick.
pub open spec fn tick_steps(step: TickStep) -> Seq<TickStep>
    decreases tick_steps_left(step),
{
    if tick_steps_left(step) == 0 {
        seq![step]
    } else {
        seq![step] + tick_steps(tick_step_after(step))
    }
}

/// What a tick begins with, by whether the consumer is connected and the window
/// still there. A tick that runs forgets the cursor that was asked for before it: the
/// windows of a process take their ticks in turn, and what is asked for during one is
/// its own window's.
pub fn begin_tick(connected: bool, window_alive: bool, pending: &mut PendingCursor) -> (step:
    TickStep)
    ensures
        step == first_tick_step(connected, window_alive),
        final(pending).name == if step == TickStep::TellActive {
            None
        } else {
            old(pending).name
        },
{
    if !connected {
        TickStep::CloseWindow
    } else if !window_alive {
        TickStep::ShutConnection
    } else {
        pending.name = None;
        TickStep::TellActive
    }
}

/// The step that follows.
pub fn next_tick_step(step: TickStep) -> (next: TickStep)
    ensures
        next == tick_step_after(step),
{
    match step {
        TickStep::CloseWindow => TickStep::Stop,
        TickStep::ShutConnection => TickStep::Stop,
        TickStep::TellActive => TickStep::TakeInput,
        TickStep::TakeInput => TickStep::RequestFrame,
        TickStep::RequestFrame => TickStep::SendCursor,
        TickStep::SendCursor => TickStep::Wait,
        TickStep::Wait => TickStep::Wait,
        TickStep::Stop => TickStep::Stop,
    }
}

/// Takes all that is queued. What is queued from now on waits for the next tick.
pub fn drain(queue: &mut VecDeque<EmbedInput>) -> (batch: VecDeque<EmbedInput>)
    ensures
        batch@ == old(queue)@,
        final(queue)@ == Seq::<EmbedInput>::empty(),
{
    let mut batch: VecDeque<EmbedInput> = VecDeque::new();
    std::mem::swap(queue, &mut batch);
    batch
}

/// An action as the headless client takes it: sizes are cut down to that of the
/// shared buffers, so that copying a frame into them never overflows; a headless window
/// keeps its scale, and its clock its pace.
pub open spec fn headless_action(action: EmbedAction) -> EmbedAction {
    match action {
        EmbedAction::Resize { width, height } => EmbedAction::Resize {
            width: if width <= EMBED_DMABUF_MAX_WIDTH {
                width
            } else {
                EMBED_DMABUF_MAX_WIDTH
            },
            height: if height <= EMBED_DMABUF_MAX_HEIGHT {
                height
            } else {
                EMBED_DMABUF_MAX_HEIGHT
            },
        },
        EmbedAction::SetScale { .. } => EmbedAction::Stored,
        EmbedAction::RetargetClock { .. } => EmbedAction::Stored,
        other => other,
    }
}

/// What the headless client does with a message: its windows are at a scale of one, and a
/// notch of a wheel scrolls [`SCROLL_LINES`].
pub open spec fn action_for(state: EmbedInputState, input: EmbedInput) -> EmbedAction {
    headless_action(state.after(input, 100).action(input, 100, SCROLL_LINES))
}

/// The bridge after a message.
pub open spec fn bridge_after(bridge: BridgeView, input: EmbedInput) -> BridgeView {
    match input {
        EmbedInput::Palette { colors } => bridge.with_palette(colors@),
        _ => bridge,
    }
}

/// The cached clipboard after a message.
pub open spec fn clipboard_after(clipboard: Option<String>, input: EmbedInput) -> Option<String> {
    match input {
        EmbedInput::Clipboard { text } => Some(text),
        _ => clipboard,
    }
}

/// The cached clipboard when a message of a batch is taken, with those before it taken
/// one by one. An app that is told of one may copy: `app` says what that leaves cached.
pub open spec fn clipboard_before(
    clipboard: Option<String>,
    batch: Seq<EmbedInput>,
    app: spec_fn(int, Option<String>) -> Option<String>,
    index: nat,
) -> Option<String>
    decreases index,
{
    if index == 0 {
        clipboard
    } else {
        let last = (index - 1) as nat;
        app(
            last as int,
            clipboard_after(
                clipboard_before(clipboard, batch, app, last),
                batch[last as int],
            ),
        )
    }
}

/// What a window's clock remembers between ticks.
pub struct FrameClock {
    pub input: EmbedInputState,
    /// The name of the cursor that was sent last.
    pub last_cursor: Option<&'static str>,
}

/// The text of an optional name.
pub open spec fn name_text(name: Option<&'static str>) -> Option<Seq<char>> {
    match name {
        Some(name) => Some(name@),
        None => None,
    }
}

/// The cursor that a tick tells the consumer of: the one it asked for, unless that was
/// sent last.
pub open spec fn cursor_sent(last: Option<Seq<char>>, pending: Option<Seq<char>>) -> Option<
    Seq<char>,
> {
    if pending == last {
        None
    } else {
        pending
    }
}

/// The cursor that was sent last, after a tick that asked for `pending`.
pub open spec fn cursor_after(last: Option<Seq<char>>, pending: Option<Seq<char>>) -> Option<
    Seq<char>,
> {
    if pending is Some {
        pending
    } else {
        last
    }
}

/// What such a tick sends.
pub open spec fn cursor_bytes(last: Option<Seq<char>>, pending: Option<Seq<char>>) -> Seq<u8> {
    match cursor_sent(last, pending) {
        Some(name) => whole_cursor_message(name),
        None => seq![],
    }
}

/// The cursor that is asked for after these requests, each in place of the one before.
pub open spec fn asked_after(pending: Option<Seq<char>>, styles: Seq<CursorStyle>) -> Option<
    Seq<char>,
>
    decreases styles.len(),
{
    if styles.len() == 0 {
        pending
    } else {
        asked_after(Some(cursor_name_spec(styles[0])), styles.skip(1))
    }
}

/// What a tick tells the consumer, with the cursors that are asked for during it.
pub open spec fn tick_sends(last: Option<Seq<char>>, styles: Seq<CursorStyle>) -> Option<
    Seq<char>,
> {
    cursor_sent(last, asked_after(None, styles))
}

/// The names that a window's ticks send, one after the other.
pub open spec fn names_sent(last: Option<Seq<char>>, ticks: Seq<Seq<CursorStyle>>) -> Seq<Seq<char>>
    decreases ticks.len(),
{
    if ticks.len() == 0 {
        seq![]
    } else {
        let later = names_sent(cursor_after(last, asked_after(None, ticks[0])), ticks.skip(1));
        match tick_sends(last, ticks[0]) {
            Some(name) => seq![name] + later,
            None => later,
        }
    }
}

/// A tick of one of a process's windows: which window's, and the cursors that are asked
/// for during it.
pub struct WindowTick {
    pub window: int,
    pub styles: Seq<CursorStyle>,
}

/// The ticks of one window.
pub open spec fn ticks_of(window: int, ticks: Seq<WindowTick>) -> Seq<Seq<CursorStyle>>
    decreases ticks.len(),
{
    if ticks.len() == 0 {
        seq![]
    } else if ticks[0].window == window {
        seq![ticks[0].styles] + ticks_of(window, ticks.skip(1))
    } else {
        ticks_of(window, ticks.skip(1))
    }
}

/// The names that one window's consumer is sent while all windows take their ticks in
/// turn: they share the request, which each tick begins by forgetting, and each knows what
/// it sent last.
pub open spec fn names_sent_to(
    window: int,
    lasts: Map<int, Option<Seq<char>>>,
    ticks: Seq<WindowTick>,
) -> Seq<Seq<char>>
    decreases ticks.len(),
{
    if ticks.len() == 0 {
        seq![]
    } else {
        let ticking = ticks[0].window;
        let pending = asked_after(None, ticks[0].styles);
        let later = names_sent_to(
            window,
            lasts.insert(ticking, cursor_after(lasts[ticking], pending)),
            ticks.skip(1),
        );
        match cursor_sent(lasts[ticking], pending) {
            Some(name) if ticking == window => seq![name] + later,
            _ => later,
        }
    }
}

/// The cursors that are asked for from a step of a tick until one is sent, with those that
/// `during` says each step asks for.
pub open spec fn asked_from(
    step: TickStep,
    during: spec_fn(TickStep) -> Seq<CursorStyle>,
) -> Seq<CursorStyle>
    decreases tick_steps_left(step),
{
    if step == TickStep::SendCursor || tick_steps_left(step) == 0 {
        seq![]
    } else {
        during(step) + asked_from(tick_step_after(step), during)
    }
}

impl FrameClock {
    /// A clock before its first tick.
    pub fn new() -> (clock: FrameClock)
        ensures
            clock.input == EmbedInputState::initial(),
            clock.last_cursor is None,
    {
        FrameClock { input: EmbedInputState::new(), last_cursor: None }
    }

    /// Takes one message of a batch: stores what it alone stores, and returns what is to be
    /// done before the next one is taken.
    pub fn receive(
        &mut self,
        input: EmbedInput,
        bridge: &mut EmbedBridge,
        clipboard: &mut Option<String>,
    ) -> (action: EmbedAction)
        ensures
            final(self).input == old(self).input.after(input, 100),
            final(self).last_cursor == old(self).last_cursor,
            final(bridge)@ == bridge_after(old(bridge)@, input),
            *final(clipboard) == clipboard_after(*old(clipboard), input),
            action == action_for(old(self).input, input),
    {
        let (_, action) = self.input.apply(input, 100, SCROLL_LINES, bridge, clipboard);
        match action {
            EmbedAction::Resize { width, height } => EmbedAction::Resize {
                width: if width <= EMBED_DMABUF_MAX_WIDTH {
                    width
                } else {
                    EMBED_DMABUF_MAX_WIDTH
                },
                height: if height <= EMBED_DMABUF_MAX_HEIGHT {
                    height
                } else {
                    EMBED_DMABUF_MAX_HEIGHT
                },
            },
            EmbedAction::SetScale { .. } => EmbedAction::Stored,
            EmbedAction::RetargetClock { .. } => EmbedAction::Stored,
            other => other,
        }
    }

    /// Ends a tick: appends the message that tells the consumer of the cursor that
    /// the tick asked for, if it asked for one and it is not the one sent last.
    pub fn end_tick(&mut self, pending: &PendingCursor, out: &mut Vec<u8>)
        ensures
            final(self).input == old(self).input,
            name_text(final(self).last_cursor) == cursor_after(
                name_text(old(self).last_cursor),
                name_text(pending.name),
            ),
            final(out)@ == old(out)@ + cursor_bytes(
                name_text(old(self).last_cursor),
                name_text(pending.name),
            ),
    {
        let ghost before = out@;
        assert(before + seq![] =~= before);
        if let Some(name) = pending.name {
            let sent: bool = match self.last_cursor {
                Some(last) => same_text(last, name),
                None => false,
            };
            if !sent {
                self.last_cursor = Some(name);
                write_cursor(out, name);
            }
        }
    }
}

/// The steps of a tick. Where both sides are there the window is told active before it
/// gets input, the frame shows that input, and the cursor comes last; where one is gone
/// the other is ended, and nothing else happens.
pub proof fn steps_of_a_tick(connected: bool, window_alive: bool)
    ensures
        tick_steps(first_tick_step(connected, window_alive)) == if !connected {
            seq![TickStep::CloseWindow, TickStep::Stop]
        } else if !window_alive {
            seq![TickStep::ShutConnection, TickStep::Stop]
        } else {
            seq![
                TickStep::TellActive,
                TickStep::TakeInput,
                TickStep::RequestFrame,
                TickStep::SendCursor,
                TickStep::Wait,
            ]
        },
{
    reveal_with_fuel(tick_steps, 6);
}

/// The cursor follows the frame: what the paint of a frame asks for goes out in the same
/// tick, whatever was asked for before the frame.
pub proof fn the_cursor_follows_the_frame(
    last: Option<Seq<char>>,
    during: spec_fn(TickStep) -> Seq<CursorStyle>,
)
    requires
        during(TickStep::RequestFrame).len() > 0,
    ensures
        tick_sends(last, asked_from(TickStep::TellActive, during)) == cursor_sent(
            last,
            Some(cursor_name_spec(during(TickStep::RequestFrame).last())),
        ),
{
    reveal_with_fuel(asked_from, 5);
    let styles = asked_from(TickStep::TellActive, during);
    assert(styles.last() == during(TickStep::RequestFrame).last());
    the_last_request_stands(None, styles);
}

proof fn the_last_request_stands(pending: Option<Seq<char>>, styles: Seq<CursorStyle>)
    ensures
        asked_after(pending, styles) == if styles.len() > 0 {
            Some(cursor_name_spec(styles.last()))
        } else {
            pending
        },
    decreases styles.len(),
{
    if styles.len() > 0 {
        the_last_request_stands(Some(cursor_name_spec(styles[0])), styles.skip(1));
    }
}

/// A tick sends one cursor message at most: that of the style that was asked for last,
/// unless its name was sent last. A tick that asks for none sends none.
pub proof fn one_cursor_a_tick(last: Option<Seq<char>>, styles: Seq<CursorStyle>)
    ensures
        tick_sends(last, styles) == if styles.len() > 0 && last != Some(
            cursor_name_spec(styles.last()),
        ) {
            Some(cursor_name_spec(styles.last()))
        } else {
            None
        },
        cursor_bytes(last, asked_after(None, styles)) == match tick_sends(last, styles) {
            Some(name) => whole_cursor_message(name),
            None => Seq::<u8>::empty(),
        },
{
    the_last_request_stands(None, styles);
}

/// No two cursor messages that follow one another to a consumer carry the same name,
/// however many ticks lie between them.
pub proof fn successive_cursors_differ(last: Option<Seq<char>>, ticks: Seq<Seq<CursorStyle>>)
    ensures
        ({
            let names = names_sent(last, ticks);
            &&& names.len() > 0 ==> last != Some(names[0])
            &&& names.len() <= ticks.len()
            &&& forall|i: int| 0 < i < names.len() ==> names[i - 1] != #[trigger] names[i]
        }),
    decreases ticks.len(),
{
    if ticks.len() > 0 {
        let pending = asked_after(None, ticks[0]);
        let after = cursor_after(last, pending);
        let later = names_sent(after, ticks.skip(1));
        let names = names_sent(last, ticks);
        successive_cursors_differ(after, ticks.skip(1));
        if let Some(name) = tick_sends(last, ticks[0]) {
            assert(names =~= seq![name] + later);
            assert forall|i: int| 0 < i < names.len() implies names[i - 1] != #[trigger] names[i] by {
                assert(names[i] == later[i - 1]);
                if i > 1 {
                    assert(names[i - 1] == later[i - 2]);
                }
            }
        }
    }
}

/// A cursor is sent once, however often it is asked for and however many ticks ask for
/// none in between.
pub proof fn a_cursor_is_sent_once(name: Seq<char>, ticks: Seq<Seq<CursorStyle>>)
    requires
        forall|i: int|
            0 <= i < ticks.len() && (#[trigger] ticks[i]).len() > 0 ==> cursor_name_spec(
                ticks[i].last(),
            ) == name,
    ensures
        names_sent(Some(name), ticks) == Seq::<Seq<char>>::empty(),
    decreases ticks.len(),
{
    if ticks.len() > 0 {
        the_last_request_stands(None, ticks[0]);
        assert(ticks[0].len() > 0 ==> cursor_name_spec(ticks[0].last()) == name);
        assert forall|i: int|
            0 <= i < ticks.skip(1).len() && (#[trigger] ticks.skip(1)[i]).len()
                > 0 implies cursor_name_spec(ticks.skip(1)[i].last()) == name by {
            assert(ticks.skip(1)[i] == ticks[i + 1]);
        }
        a_cursor_is_sent_once(name, ticks.skip(1));
    }
}

/// No other window's cursor reaches a consumer: it is sent what its own window's ticks
/// ask for, whatever the others' do in between.
pub proof fn windows_keep_their_cursors(
    window: int,
    lasts: Map<int, Option<Seq<char>>>,
    ticks: Seq<WindowTick>,
)
    ensures
        names_sent_to(window, lasts, ticks) == names_sent(lasts[window], ticks_of(window, ticks)),
    decreases ticks.len(),
{
    if ticks.len() > 0 {
        let ticking = ticks[0].window;
        let pending = asked_after(None, ticks[0].styles);
        let after = lasts.insert(ticking, cursor_after(lasts[ticking], pending));
        windows_keep_their_cursors(window, after, ticks.skip(1));
        if ticking == window {
            let own = ticks_of(window, ticks);
            assert(own.skip(1) =~= ticks_of(window, ticks.skip(1)));
            assert(own[0] == ticks[0].styles);
        }
    }
}

/// Messages are taken one by one: what an event finds on the clipboard is what came before
/// it, and no message behind it changes that.
pub proof fn an_event_finds_what_came_before(
    clipboard: Option<String>,
    batch: Seq<EmbedInput>,
    other: Seq<EmbedInput>,
    app: spec_fn(int, Option<String>) -> Option<String>,
    index: nat,
)
    requires
        index <= batch.len(),
        index <= other.len(),
        batch.take(index as int) == other.take(index as int),
    ensures
        clipboard_before(clipboard, batch, app, index) == clipboard_before(
            clipboard,
            other,
            app,
            index,
        ),
    decreases index,
{
    if index > 0 {
        let last = (index - 1) as nat;
        assert(batch.take(index as int)[last as int] == batch[last as int]);
        assert(other.take(index as int)[last as int] == other[last as int]);
        assert(batch.take(last as int) =~= batch.take(index as int).take(last as int));
        assert(other.take(last as int) =~= other.take(index as int).take(last as int));
        an_event_finds_what_came_before(clipboard, batch, other, app, last);
    }
}

/// A size that is asked for fits the buffers once it was cut down.
pub proof fn sizes_fit_the_buffers(action: EmbedAction)
    ensures
        headless_action(action) matches EmbedAction::Resize { width, height } ==> width
            <= EMBED_DMABUF_MAX_WIDTH && height <= EMBED_DMABUF_MAX_HEIGHT,
{
}

/// A size that fits the buffers is asked of the window as the consumer sent it. Where it
/// does not, each side is as large as the buffers allow and no larger than was sent.
pub proof fn a_size_is_cut_only_where_it_must(width: u32, height: u32)
    ensures
        headless_action(EmbedAction::Resize { width, height }) matches EmbedAction::Resize {
            width: w,
            height: h,
        } && w <= width && h <= height && w <= 3840 && h <= 2160 && (w == width || w == 3840) && (h
            == height || h == 2160),
        width <= EMBED_DMABUF_MAX_WIDTH && height <= EMBED_DMABUF_MAX_HEIGHT ==> headless_action(
            EmbedAction::Resize { width, height },
        ) == (EmbedAction::Resize { width, height }),
        EMBED_DMABUF_MAX_WIDTH == 3840,
        EMBED_DMABUF_MAX_HEIGHT == 2160,
{
}

/// A window of the headless client is asked for what the consumer sent: a size cut down to
/// the buffers and nothing else changed. An event reaches it as it is, with coordinates
/// that are its own pixels and with three lines for a notch.
pub proof fn a_headless_window_takes_pixels_as_they_are(
    state: EmbedInputState,
    input: EmbedInput,
)
    ensures
        ({
            let action = action_for(state, input);
            &&& input matches EmbedInput::PointerMove { x_bits: x, y_bits: y } ==> (action
                matches EmbedAction::Dispatch(
                PlatformInput::MouseMove {
                    position: LogicalPoint { x_bits, y_bits, scale_percent },
                    ..
                },
            ) && x_bits == x && y_bits == y && scale_percent == 100)
            &&& input matches EmbedInput::Scroll { dx_bits: dx, dy_bits: dy } ==> (action
                matches EmbedAction::Dispatch(
                PlatformInput::ScrollWheel {
                    delta: ScrollDelta::Lines { dx_bits, dy_bits, lines_per_notch },
                    ..
                },
            ) && dx_bits == dx && dy_bits == dy && lines_per_notch == 3)
            &&& input matches EmbedInput::ScrollPixels { dx_bits: dx, dy_bits: dy } ==> (action
                matches EmbedAction::Dispatch(
                PlatformInput::ScrollWheel {
                    delta: ScrollDelta::Pixels { dx_bits, dy_bits, scale_percent },
                    ..
                },
            ) && dx_bits == dx && dy_bits == dy && scale_percent == 100)
            &&& action is Dispatch <==> !(input is Resize || input is ScalePercent
                || input is Display || input is Palette || input is Clipboard)
            &&& action is Dispatch ==> action == state.after(input, 100).action(input, 100, 3)
            &&& action is Resize <==> input is Resize
            &&& input matches EmbedInput::Resize { width, height } ==> (action
                matches EmbedAction::Resize { width: w, height: h } && w <= width && h <= height
                && (width <= 3840 ==> w == width) && (height <= 2160 ==> h == height))
            &&& !(action is SetScale || action is RetargetClock)
        }),
{
}

/// A tick that is over stays over, and so does a clock that was stopped.
pub proof fn what_is_over_stays_over()
    ensures
        tick_step_after(TickStep::Wait) == TickStep::Wait,
        tick_step_after(TickStep::Stop) == TickStep::Stop,
{
}

/// A message stores what it carries and nothing else: a palette is the bridge's from then
/// on, a text the clipboard's, and every other message leaves both as they are.
pub proof fn messages_store_what_they_carry(
    bridge: BridgeView,
    clipboard: Option<String>,
    input: EmbedInput,
)
    ensures
        input matches EmbedInput::Palette { colors } ==> bridge_after(bridge, input).palette == Some(
            colors@,
        ),
        bridge_after(bridge, input).connections == bridge.connections,
        bridge_after(bridge, input).pending_paths == bridge.pending_paths,
        !(input is Palette) ==> bridge_after(bridge, input) == bridge,
        input matches EmbedInput::Clipboard { text } ==> clipboard_after(clipboard, input) == Some(
            text,
        ),
        !(input is Clipboard) ==> clipboard_after(clipboard, input) == clipboard,
{
}

} // verus!
