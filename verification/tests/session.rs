use std::collections::VecDeque;

use zed_embed::clipboard::EmbedClipboard;
use zed_embed::cursor::{CursorStyle, PendingCursor};
use zed_embed::embed_palette::{embed_palette, EmbedBridge};
use zed_embed::events::{
    wheel_scroll_lines, LogicalPoint, PlatformInput, ScrollDelta, TouchPhase,
};
use zed_embed::input::{EmbedInput, Modifiers, MouseButton};
use zed_embed::input_state::{EmbedAction, EmbedInputState};
use zed_embed::linux::atlas::{AtlasTextureKind, DeviceSize, HeadlessAtlas};
use zed_embed::linux::client::{next_step, step_bytes, HeadlessClient, OpenResult, OpenStep};
use zed_embed::linux::clock::{begin_tick, drain, next_tick_step, FrameClock, TickStep};
use zed_embed::linux::window::HeadlessWindow;
use zed_embed::window::{
    Bounds, Callback, LogicalSize, PixelSize, Slot, WindowBackgroundAppearance, WindowCore,
};

fn size(width: f32, height: f32) -> LogicalSize {
    LogicalSize { width_bits: width.to_bits(), height_bits: height.to_bits() }
}

fn bounds() -> Bounds {
    Bounds { x_bits: 0, y_bits: 0, size: size(800.0, 600.0) }
}

const CALLBACK: Callback = Callback { id: 11 };

fn apply(state: &mut EmbedInputState, input: EmbedInput) -> (bool, EmbedAction) {
    let mut bridge = EmbedBridge::new();
    let mut clipboard = None;
    state.apply(input, 200, 3, &mut bridge, &mut clipboard)
}

#[test]
fn a_drag_carries_its_button() {
    let mut state = EmbedInputState::new();
    apply(&mut state, EmbedInput::Button { button: 3, pressed: true });
    apply(&mut state, EmbedInput::Scroll { dx_bits: 0, dy_bits: 0 });
    let (dispatched, action) = apply(&mut state, EmbedInput::PointerMove { x_bits: 5, y_bits: 6 });
    assert!(dispatched);
    match action {
        EmbedAction::Dispatch(PlatformInput::MouseMove { position, pressed_button, modifiers }) => {
            assert_eq!(
                position,
                LogicalPoint { x_bits: 5, y_bits: 6, scale_percent: 200 }
            );
            assert_eq!(pressed_button, Some(MouseButton::Right));
            assert_eq!(modifiers, Modifiers::default());
        }
        _ => panic!("not a move"),
    }
    let (_, action) = apply(&mut state, EmbedInput::Button { button: 3, pressed: false });
    match action {
        EmbedAction::Dispatch(PlatformInput::MouseUp { button, position, click_count, .. }) => {
            assert_eq!(button, MouseButton::Right);
            assert_eq!(position.x_bits, 5);
            assert_eq!(click_count, 1);
        }
        _ => panic!("not a release"),
    }
    assert_eq!(state.pressed_button, None);
}

#[test]
fn a_click_lands_where_the_pointer_moved_last() {
    let mut state = EmbedInputState::new();
    apply(&mut state, EmbedInput::PointerMove { x_bits: 7, y_bits: 8 });
    apply(&mut state, EmbedInput::ScalePercent { pct: 300 });
    match apply(&mut state, EmbedInput::Button { button: 1, pressed: true }).1 {
        EmbedAction::Dispatch(PlatformInput::MouseDown { position, first_mouse, .. }) => {
            assert_eq!(
                position,
                LogicalPoint { x_bits: 7, y_bits: 8, scale_percent: 200 }
            );
            assert!(!first_mouse);
        }
        _ => panic!("not a press"),
    }
}

#[test]
fn scrolling_is_in_lines_or_in_pixels() {
    let mut state = EmbedInputState::new();
    match apply(&mut state, EmbedInput::Scroll { dx_bits: 1, dy_bits: 2 }).1 {
        EmbedAction::Dispatch(PlatformInput::ScrollWheel { delta, touch_phase, .. }) => {
            assert_eq!(
                delta,
                ScrollDelta::Lines { dx_bits: 1, dy_bits: 2, lines_per_notch: 3 }
            );
            assert_eq!(touch_phase, TouchPhase::Moved);
        }
        _ => panic!("not a scroll"),
    }
    match apply(&mut state, EmbedInput::ScrollPixels { dx_bits: 1, dy_bits: 2 }).1 {
        EmbedAction::Dispatch(PlatformInput::ScrollWheel { delta, .. }) => assert_eq!(
            delta,
            ScrollDelta::Pixels { dx_bits: 1, dy_bits: 2, scale_percent: 200 }
        ),
        _ => panic!("not a scroll"),
    }
    assert_eq!(wheel_scroll_lines(Some(5)), 5);
    assert_eq!(wheel_scroll_lines(Some(0)), 3);
    assert_eq!(wheel_scroll_lines(None), 3);
}

#[test]
fn keys_go_down_and_up() {
    let mut state = EmbedInputState::new();
    let key = |pressed| EmbedInput::Key {
        key: "a".into(),
        key_char: Some("A".into()),
        modifiers: Modifiers { shift: true, ..Modifiers::default() },
        pressed,
    };
    match apply(&mut state, key(true)) {
        (
            true,
            EmbedAction::Dispatch(PlatformInput::KeyDown {
                keystroke,
                is_held: false,
                prefer_character_input: false,
            }),
        ) => {
            assert_eq!(keystroke.key, "a");
            assert_eq!(keystroke.key_char.as_deref(), Some("A"));
            assert!(keystroke.modifiers.shift);
        }
        _ => panic!("not a key going down"),
    }
    assert!(matches!(
        apply(&mut state, key(false)),
        (true, EmbedAction::Dispatch(PlatformInput::KeyUp { .. }))
    ));
    assert!(matches!(
        apply(
            &mut state,
            EmbedInput::ModifiersChanged { modifiers: Modifiers::default() }
        ),
        (
            true,
            EmbedAction::Dispatch(PlatformInput::ModifiersChanged { capslock: false, .. })
        )
    ));
}

#[test]
fn what_is_no_event_is_consumed() {
    let mut state = EmbedInputState::new();
    assert!(matches!(
        apply(&mut state, EmbedInput::Resize { width: 1, height: 2 }),
        (false, EmbedAction::Resize { width: 1, height: 2 })
    ));
    assert!(matches!(
        apply(&mut state, EmbedInput::ScalePercent { pct: 150 }),
        (false, EmbedAction::SetScale { percent: 150 })
    ));
    assert!(matches!(
        apply(&mut state, EmbedInput::Display { display_id: 4 }),
        (false, EmbedAction::RetargetClock { display_id: 4 })
    ));
    let mut bridge = EmbedBridge::new();
    let mut clipboard = None;
    let (dispatched, action) = state.apply(
        EmbedInput::Palette { colors: [5; 13] },
        100,
        3,
        &mut bridge,
        &mut clipboard,
    );
    assert!(!dispatched && matches!(action, EmbedAction::Stored));
    assert_eq!(embed_palette(&bridge).unwrap().1.colors, [5; 13]);
    state.apply(
        EmbedInput::Clipboard { text: "t".into() },
        100,
        3,
        &mut bridge,
        &mut clipboard,
    );
    assert_eq!(clipboard.as_deref(), Some("t"));
}

#[test]
fn the_linux_clock_drains_its_queue() {
    let mut clock = FrameClock::new();
    let mut bridge = EmbedBridge::new();
    let mut clipboard = Some("old".to_string());
    let mut queue = VecDeque::new();
    queue.push_back(EmbedInput::PointerMove { x_bits: 1, y_bits: 2 });
    queue.push_back(EmbedInput::Resize { width: 5000, height: 5000 });
    queue.push_back(EmbedInput::Palette { colors: [1; 13] });
    queue.push_back(EmbedInput::Clipboard { text: "new".into() });
    queue.push_back(EmbedInput::Resize { width: 10, height: 0 });
    queue.push_back(EmbedInput::ScalePercent { pct: 200 });
    let batch = drain(&mut queue);
    assert!(queue.is_empty());
    assert_eq!(batch.len(), 6);
    let actions: Vec<EmbedAction> = batch
        .into_iter()
        .map(|input| clock.receive(input, &mut bridge, &mut clipboard))
        .collect();
    assert!(matches!(
        actions[0],
        EmbedAction::Dispatch(PlatformInput::MouseMove { .. })
    ));
    // Sizes are cut down to the buffers.
    assert!(matches!(
        actions[1],
        EmbedAction::Resize { width: 3840, height: 2160 }
    ));
    assert!(matches!(actions[4], EmbedAction::Resize { width: 10, height: 0 }));
    // A headless window keeps its scale.
    assert!(matches!(actions[5], EmbedAction::Stored));
    assert_eq!(clipboard.as_deref(), Some("new"));
    assert_eq!(embed_palette(&bridge).unwrap().0, 1);
    assert_eq!(
        clock.input.position,
        LogicalPoint { x_bits: 1, y_bits: 2, scale_percent: 100 }
    );
}

#[test]
fn a_paste_finds_what_came_before_it() {
    let mut clock = FrameClock::new();
    let mut bridge = EmbedBridge::new();
    let mut client = HeadlessClient::new(true);
    client.clipboard.cache = Some("old".into());
    let key = |name: &str| EmbedInput::Key {
        key: name.into(),
        key_char: None,
        modifiers: Modifiers { control: true, ..Modifiers::default() },
        pressed: true,
    };
    let mut queue = VecDeque::new();
    queue.push_back(key("v"));
    queue.push_back(EmbedInput::Clipboard { text: "new".into() });
    queue.push_back(key("v"));
    queue.push_back(key("c"));
    queue.push_back(key("v"));
    queue.push_back(EmbedInput::Clipboard { text: "host".into() });
    let mut pasted = Vec::new();
    for input in drain(&mut queue) {
        let action = clock.receive(input, &mut bridge, &mut client.clipboard.cache);
        if let EmbedAction::Dispatch(PlatformInput::KeyDown { keystroke, .. }) = action {
            if keystroke.key == "v" {
                pasted.push(client.read_from_clipboard());
            } else {
                client.write_to_clipboard(Some("copied".into()));
            }
        }
    }
    assert_eq!(
        pasted,
        [Some("old".to_string()), Some("new".into()), Some("copied".into())]
    );
    assert_eq!(client.read_from_clipboard().as_deref(), Some("host"));
}

#[test]
fn the_linux_cursor_follows_the_frame() {
    let mut client = HeadlessClient::new(true);
    let mut clock = FrameClock::new();
    let mut out = Vec::new();
    let mut steps = Vec::new();
    let mut step = begin_tick(true, true, &mut client.pending_cursor);
    while !matches!(step, TickStep::Wait | TickStep::Stop) {
        steps.push(step);
        match step {
            TickStep::TakeInput => client.set_cursor_style(CursorStyle::Arrow),
            TickStep::RequestFrame => client.set_cursor_style(CursorStyle::PointingHand),
            TickStep::SendCursor => clock.end_tick(&client.pending_cursor, &mut out),
            _ => {}
        }
        step = next_tick_step(step);
    }
    assert_eq!(step, TickStep::Wait);
    assert_eq!(
        steps,
        [
            TickStep::TellActive,
            TickStep::TakeInput,
            TickStep::RequestFrame,
            TickStep::SendCursor,
        ]
    );
    assert_eq!(out, b"CURS\x07pointer");
    assert_eq!(next_tick_step(TickStep::CloseWindow), TickStep::Stop);
    assert_eq!(next_tick_step(TickStep::ShutConnection), TickStep::Stop);
}

#[test]
fn the_linux_clock_sends_a_cursor_once() {
    let mut clock = FrameClock::new();
    let mut pending = PendingCursor::new();
    let mut out = Vec::new();
    for style in [Some(CursorStyle::IBeam), Some(CursorStyle::IBeam), None] {
        assert_eq!(begin_tick(true, true, &mut pending), TickStep::TellActive);
        if let Some(style) = style {
            pending.set_cursor_style(CursorStyle::Arrow);
            pending.set_cursor_style(style);
        }
        clock.end_tick(&pending, &mut out);
    }
    assert_eq!(out, b"CURS\x04text");
    pending.set_cursor_style(CursorStyle::OpenHand);
    clock.end_tick(&pending, &mut out);
    assert_eq!(out, b"CURS\x04textCURS\x04grab");
}

#[test]
fn every_window_has_its_own_cursor() {
    let mut pending = PendingCursor::new();
    let mut first = FrameClock::new();
    let mut second = FrameClock::new();
    let (mut to_first, mut to_second) = (Vec::new(), Vec::new());
    begin_tick(true, true, &mut pending);
    pending.set_cursor_style(CursorStyle::IBeam);
    first.end_tick(&pending, &mut to_first);
    begin_tick(true, true, &mut pending);
    second.end_tick(&pending, &mut to_second);
    assert_eq!(to_first, b"CURS\x04text");
    assert!(to_second.is_empty());
}

#[test]
fn the_linux_clock_ends_with_either_side() {
    let mut pending = PendingCursor::new();
    pending.set_cursor_style(CursorStyle::IBeam);
    assert_eq!(begin_tick(false, true, &mut pending), TickStep::CloseWindow);
    assert_eq!(begin_tick(false, false, &mut pending), TickStep::CloseWindow);
    assert_eq!(begin_tick(true, false, &mut pending), TickStep::ShutConnection);
    assert_eq!(pending.name, Some("text"));
    assert_eq!(begin_tick(true, true, &mut pending), TickStep::TellActive);
    assert_eq!(pending.name, None);
}

fn open(dmabuf: bool, failing: Option<OpenStep>) -> (Vec<OpenStep>, OpenResult) {
    let mut steps = Vec::new();
    let mut step = HeadlessClient::new(true).open_window();
    loop {
        if let OpenStep::Done(result) = step {
            return (steps, result);
        }
        steps.push(step);
        step = next_step(step, Some(step) != failing, dmabuf);
    }
}

#[test]
fn windows_open_step_by_step() {
    assert_eq!(
        HeadlessClient::new(false).open_window(),
        OpenStep::Done(OpenResult::Plain)
    );
    let (steps, result) = open(false, None);
    assert_eq!(result, OpenResult::Embedded);
    assert_eq!(steps.len(), 13);
    assert_eq!(steps[3], OpenStep::WriteMode);
    for dmabuf in [false, true] {
        let mut out = Vec::new();
        for step in open(dmabuf, None).0 {
            step_bytes(step, dmabuf, &mut out);
        }
        assert_eq!(out, [dmabuf as u8]);
    }
    assert!(steps.contains(&OpenStep::AttachFrames));
    assert!(!steps.contains(&OpenStep::SendHandshake));
    let (steps, result) = open(true, None);
    assert_eq!(result, OpenResult::Embedded);
    assert_eq!(steps.len(), 15);
    assert!(!steps.contains(&OpenStep::AttachFrames));

    assert_eq!(open(true, Some(OpenStep::CreateRenderer)).1, OpenResult::Failed);
    assert_eq!(open(true, Some(OpenStep::TakeConnection)).1, OpenResult::Plain);
    assert_eq!(open(true, Some(OpenStep::CloneReader)).1, OpenResult::Failed);
    assert_eq!(open(false, Some(OpenStep::AttachFrames)).1, OpenResult::Failed);
    assert_eq!(open(false, Some(OpenStep::CloneCloser)).1, OpenResult::Failed);
    for tolerated in [
        OpenStep::BridgeClipboard,
        OpenStep::AttachTitle,
        OpenStep::EnableDmabuf,
        OpenStep::SendHandshake,
        OpenStep::AttachReady,
    ] {
        assert_eq!(open(true, Some(tolerated)).1, OpenResult::Embedded);
    }
}

#[test]
fn the_first_frame_is_forced() {
    let mut core = WindowCore::new(bounds());
    core.register(Slot::RequestFrame, CALLBACK);
    let (callback, options) = core.tick_frame();
    assert_eq!(callback, Some(CALLBACK));
    assert!(options.force_render && options.require_presentation);
    // While the callback runs another tick finds none.
    assert_eq!(core.tick_frame().0, None);
    core.put_back(Slot::RequestFrame, callback);
    let (callback, options) = core.tick_frame();
    assert_eq!(callback, Some(CALLBACK));
    assert!(!options.force_render && !options.require_presentation);
    core.put_back(Slot::RequestFrame, callback);
    core.force_next_frame();
    assert!(core.tick_frame().1.force_render);
}

#[test]
fn a_window_closes_once() {
    let mut core = WindowCore::new(bounds());
    assert_eq!(core.fire_close(), None);
    core.on_close(CALLBACK);
    assert_eq!(core.fire_close(), Some(CALLBACK));
    assert_eq!(core.fire_close(), None);
    assert!(core.is_active() && core.is_hovered() && core.commits_key_char());
}

#[test]
fn titles_are_mirrored() {
    let mut window = HeadlessWindow::new(bounds());
    assert_eq!(window.core.get_title(), "");
    assert_eq!(window.core.set_title("a".into()), None);
    assert_eq!(window.set_on_title(CALLBACK).as_deref(), Some("a"));
    let callback = window.core.set_title("b".into());
    assert_eq!(callback, Some(CALLBACK));
    window.core.put_back(Slot::TitleChange, callback);
    assert_eq!(window.core.get_title(), "b");
}

#[test]
fn a_changed_background_repaints() {
    let mut core = WindowCore::new(bounds());
    core.tick_frame();
    assert!(!core.set_background_appearance(WindowBackgroundAppearance::Opaque));
    assert!(!core.force_frame);
    assert!(core.set_background_appearance(WindowBackgroundAppearance::Transparent));
    assert!(core.force_frame);
    core.toggle_fullscreen();
    assert!(core.is_fullscreen);
    core.toggle_fullscreen();
    assert!(!core.is_fullscreen);
}

#[test]
fn a_linux_window_resizes_once() {
    let mut window = HeadlessWindow::new_embed(bounds());
    window.core.tick_frame();
    window.core.register(Slot::Resize, CALLBACK);
    assert!(window.resize_embed(800, 600, size(800.0, 600.0)).is_none());
    assert!(!window.core.force_frame);
    let effects = window.resize_embed(1024, 768, size(1024.0, 768.0)).unwrap();
    assert_eq!(effects.target, Some(PixelSize { width: 1024, height: 768 }));
    assert_eq!(effects.callback, Some(CALLBACK));
    assert_eq!(effects.scale_percent, 100);
    assert!(window.core.force_frame);
    assert!(window.resize_embed(1024, 768, size(1024.0, 768.0)).is_none());
    // Zeros of either sign are one size.
    window.resize_embed(0, 0, size(0.0, 0.0));
    assert!(window.resize_embed(0, 0, size(-0.0, 0.0)).is_none());

    let mut plain = HeadlessWindow::new(bounds());
    assert_eq!(plain.resize_embed(1, 1, size(1.0, 1.0)).unwrap().target, None);
    assert!(!plain.draw() && window.draw());
}

#[test]
fn a_linux_window_waits_for_its_callbacks() {
    let mut window = HeadlessWindow::new_embed(bounds());
    window.core.tick_frame();
    assert_eq!(window.ensure_active(), None);
    assert!(!window.core.force_frame);
    window.core.register(Slot::ActiveStatusChange, CALLBACK);
    assert_eq!(window.ensure_active(), Some((Some(CALLBACK), None)));
    assert!(window.core.force_frame);
    window.core.put_back(Slot::ActiveStatusChange, Some(CALLBACK));
    assert_eq!(window.ensure_active(), None);
}

#[test]
fn own_copies_are_pasted() {
    let mut clipboard = EmbedClipboard::new();
    assert!(clipboard.write_to_clipboard(Some("one".into())).is_none());
    assert_eq!(clipboard.read_from_clipboard().as_deref(), Some("one"));
    clipboard.bind(1);
    clipboard.bind(2);
    let outgoing = clipboard.write_to_clipboard(Some("two".into())).unwrap();
    assert_eq!(outgoing.connection, 2);
    assert_eq!(outgoing.message, b"CLIP\x03\0\0\0two");
    assert!(clipboard.write_to_clipboard(None).is_none());
    assert_eq!(clipboard.read_from_clipboard().as_deref(), Some("two"));
    clipboard.cache = Some("host".into());
    assert_eq!(clipboard.read_from_clipboard().as_deref(), Some("host"));
}

#[test]
fn atlas_numbers_are_never_reused() {
    let mut atlas = HeadlessAtlas::new();
    let tile_size = DeviceSize { width: 3, height: 4 };
    let build = || Ok::<_, ()>(Some(tile_size));
    let kind = AtlasTextureKind::Monochrome;
    let first = atlas.get_or_insert_with(7, kind, build).unwrap().unwrap();
    assert_eq!((first.texture_index, first.tile_id), (1, 2));
    assert_eq!(first.size, tile_size);
    assert_eq!(first.padding, 0);
    let unused = || -> Result<Option<DeviceSize>, ()> { panic!("the key is known") };
    assert_eq!(atlas.get_or_insert_with(7, kind, unused), Ok(Some(first)));
    let second = atlas
        .get_or_insert_with(8, AtlasTextureKind::Polychrome, build)
        .unwrap()
        .unwrap();
    assert_eq!((second.texture_index, second.tile_id), (3, 4));
    atlas.remove(7);
    let again = atlas.get_or_insert_with(7, kind, build).unwrap().unwrap();
    assert_eq!((again.texture_index, again.tile_id), (5, 6));
    assert_eq!(atlas.get_or_insert_with(9, kind, || Ok::<_, ()>(None)), Ok(None));
    assert_eq!(atlas.get_or_insert_with(9, kind, || Err("no")), Err("no"));
    let last = atlas.get_or_insert_with(9, kind, build).unwrap().unwrap();
    assert_eq!(last.tile_id, 8);
}
