use zed_embed::scale::adopt;
use zed_embed::window::{
    Bounds, Callback, LogicalSize, PixelSize, Slot, WindowBackgroundAppearance,
};
use zed_embed::windows::embed_window::{EmbedWindow, Reallocation, Reshare};
use zed_embed::windows::pipe::{
    accept, announce_frame, module_offset, wait, ExactRead, ExactWrite, Progress, StartStep,
};

const RESIZED: Callback = Callback { id: 1 };
const RESHARED: Callback = Callback { id: 2 };
const FRAME: Callback = Callback { id: 3 };

fn size(width: f32, height: f32) -> LogicalSize {
    LogicalSize { width_bits: width.to_bits(), height_bits: height.to_bits() }
}

fn window(has_consumer: bool) -> EmbedWindow {
    let bounds = Bounds { x_bits: 0, y_bits: 0, size: size(800.0, 600.0) };
    let mut window = EmbedWindow::new(bounds, 800, 600, has_consumer);
    window.core.tick_frame();
    window.core.register(Slot::Resize, RESIZED);
    window.reshare = Some(RESHARED);
    window.on_frame = Some(FRAME);
    window
}

#[test]
fn textures_take_turns() {
    let mut window = window(true);
    assert_eq!(window.draw(true), Some(0));
    assert_eq!(window.draw(true), Some(1));
    // A texture that cannot be bound keeps its turn.
    assert_eq!(window.draw(false), None);
    assert_eq!(window.draw(true), Some(0));
    assert_eq!(window.draw(true), Some(1));
}

#[test]
fn a_frame_without_a_fence_is_not_told_of() {
    let window = window(true);
    assert_eq!(window.finish_draw(1, None), None);
    let frame = window.finish_draw(1, Some(9)).unwrap();
    assert_eq!(frame.callback, Some(FRAME));
    assert_eq!((frame.index, frame.fence_value), (1, 9));
    assert_eq!(frame.size, PixelSize { width: 800, height: 600 });
}

#[test]
fn resizing_shares_new_textures() {
    let mut window = window(true);
    window.draw(true);
    assert_eq!(window.begin_resize(800, 600, size(800.0, 600.0)), None);
    assert_eq!(
        window.begin_resize(1000, 0, size(1000.0, 1.0)),
        Some(PixelSize { width: 1000, height: 1 })
    );
    let effects = window.finish_resize(Reallocation::Shared { first: 5, second: 6 });
    assert_eq!(
        effects.reshare,
        Some(Reshare {
            callback: Some(RESHARED),
            first: 5,
            second: 6,
            size: PixelSize { width: 1000, height: 1 },
        })
    );
    assert_eq!(effects.callback, Some(RESIZED));
    assert_eq!(effects.size, size(1000.0, 1.0));
    assert_eq!(effects.scale_percent, 100);
    assert_eq!(window.next_buffer, 0);
    assert_eq!(window.shared, PixelSize { width: 1000, height: 1 });
    assert!(window.core.force_frame);
}

#[test]
fn a_failed_resize_still_lays_out() {
    for failure in [Reallocation::NotAllocated, Reallocation::NotRetargeted] {
        let mut window = window(true);
        window.draw(true);
        window.begin_resize(10, 10, size(10.0, 10.0));
        let effects = window.finish_resize(failure);
        assert_eq!(effects.reshare, None);
        assert_eq!(effects.callback, Some(RESIZED));
        assert_eq!(window.next_buffer, 1);
        assert_eq!(window.shared, PixelSize { width: 800, height: 600 });
        assert!(!window.core.force_frame);
    }
    let mut window = window(true);
    window.begin_resize(10, 10, size(10.0, 10.0));
    assert_eq!(window.finish_resize(Reallocation::NotShared).reshare, None);
    assert_eq!(window.shared, PixelSize { width: 10, height: 10 });
    assert!(window.core.force_frame);
}

#[test]
fn without_a_consumer_there_are_no_handles() {
    let mut window = window(false);
    window.begin_resize(10, 10, size(10.0, 10.0));
    let reshare = window
        .finish_resize(Reallocation::Shared { first: 5, second: 6 })
        .reshare
        .unwrap();
    assert_eq!((reshare.first, reshare.second), (0, 0));
}

#[test]
fn scales_are_adopted_within_limits() {
    assert_eq!(adopt(0), None);
    assert_eq!(adopt(1), Some(25));
    assert_eq!(adopt(150), Some(150));
    assert_eq!(adopt(u32::MAX), Some(800));

    let mut window = window(true);
    assert!(window.set_scale(0, size(1.0, 1.0)).is_none());
    assert!(window.set_scale(100, size(1.0, 1.0)).is_none());
    let effects = window.set_scale(200, size(400.0, 300.0)).unwrap();
    assert_eq!(effects.callback, Some(RESIZED));
    assert_eq!(effects.size, size(400.0, 300.0));
    assert_eq!(effects.scale_percent, 200);
    assert_eq!(effects.reshare, None);
    assert_eq!(window.pixels, PixelSize { width: 800, height: 600 });
    assert!(window.core.force_frame);
    assert!(window.set_scale(200, size(400.0, 300.0)).is_none());
    window.begin_resize(1000, 600, size(500.0, 300.0));
    let effects = window.finish_resize(Reallocation::NotAllocated);
    assert_eq!(effects.scale_percent, 200);
}

#[test]
fn a_window_activates_when_it_can_tell() {
    let mut window = window(true);
    assert_eq!(window.ensure_active(), None);
    window.core.register(Slot::HoverStatusChange, FRAME);
    assert_eq!(window.ensure_active(), Some((None, Some(FRAME))));
    window.core.put_back(Slot::HoverStatusChange, Some(FRAME));
    assert_eq!(window.ensure_active(), None);
}

#[test]
fn only_a_pending_operation_is_waited_for() {
    assert_eq!(accept(Ok(())), StartStep::Done);
    assert_eq!(accept(Err(0x8007_0000 + 997)), StartStep::Wait);
    assert_eq!(accept(Err(0x8007_0000 + 535)), StartStep::Done);
    assert_eq!(accept(Err(5)), StartStep::Fail { code: 5 });
    assert_eq!(wait(Ok(())), StartStep::Wait);
    assert_eq!(wait(Err(0x8007_0000 + 997)), StartStep::Wait);
    assert_eq!(wait(Err(535)), StartStep::Fail { code: 535 });
}

#[test]
fn transfers_go_on_until_they_are_complete() {
    let (mut read, progress) = ExactRead::new(5);
    assert_eq!(progress, Progress::More { left: 5 });
    assert_eq!(read.receive(b"ab"), Progress::More { left: 3 });
    assert_eq!(read.receive(b"cde"), Progress::Complete);
    assert_eq!(read.received, b"abcde");
    let (mut read, _) = ExactRead::new(5);
    read.receive(b"ab");
    assert_eq!(read.receive(b""), Progress::Disconnected);
    assert_eq!(ExactRead::new(0).1, Progress::Complete);

    let (mut write, progress) = ExactWrite::new(4);
    assert_eq!(progress, Progress::More { left: 4 });
    assert_eq!(write.sent(1), Progress::More { left: 3 });
    assert_eq!(write.written, 1);
    assert_eq!(write.sent(0), Progress::Disconnected);
    assert_eq!(write.sent(3), Progress::Complete);
    assert_eq!(ExactWrite::new(0).1, Progress::Complete);
}

#[test]
fn a_frame_is_announced_after_its_fence() {
    let mut out = Vec::new();
    announce_frame(&mut out, 1, 2, 3, 4);
    assert_eq!(
        out,
        b"FNCV\x04\0\0\0\0\0\0\0RDY!\x01\0\0\0\x02\0\0\0\x03\0\0\0"
    );
}

#[test]
fn addresses_are_told_as_offsets() {
    assert_eq!(module_offset(0x1400_1234, 0x1400_0000), 0x1234);
    assert_eq!(module_offset(0, 1), u64::MAX);
}

#[test]
fn frames_stay_opaque() {
    let mut window = window(true);
    window.core.tick_frame();
    window.set_background_appearance(WindowBackgroundAppearance::Transparent);
    assert_eq!(
        window.background_appearance(),
        WindowBackgroundAppearance::Opaque
    );
    assert!(!window.core.force_frame);
}
