use zed_embed::clipboard::Outgoing;
use zed_embed::cursor::CursorStyle;
use zed_embed::embed_palette::EmbedBridge;
use zed_embed::input::{EmbedInput, Modifiers};
use zed_embed::input_state::EmbedAction;
use zed_embed::macos::clock::{ClockStep, EmbedFrameClock};
use zed_embed::macos::embed_window::{finish_draw, DrawPlan, EmbedTarget, EmbedWindow};
use zed_embed::macos::iosurface::{
    max_size_for, release_rights, serve_surfaces, EmbedSurfaces, ServiceNames, ServiceStep,
    SurfaceError, SurfaceRequest, SurfaceSize, SurfaceStep, KERN_SUCCESS, MACH_RCV_TIMED_OUT,
};
use zed_embed::macos::menu::{
    find_binding, Action, BindingKeystroke, KeyBinding, Menu, MenuItem, NativeItem, OsAction,
    Selector, SystemMenuType,
};
use zed_embed::macos::menu_bar::Menus;
use zed_embed::macos::platform::{
    credentials_created, credentials_deleted, credentials_read, credentials_updated, is_bundle,
    open_urls, register_url_scheme, restart_path, should_auto_hide_scrollbars, thermal_state,
    ActivationPolicy, ClipboardRead, ClipboardWrite, CredentialError, CredentialStep, MacPlatform,
    OpenChoice, PlatformSlot, ThermalState, UrlSchemeError,
};
use zed_embed::macos::prompt::{
    correct_name, prompt_for_new_path, prompt_for_paths, ChosenPath, ChosenUrl,
};
use zed_embed::macos::session::{ReceiveStep, Received, Session, SessionStep};
use zed_embed::macos::version::OsVersion;
use zed_embed::window::{
    Bounds, Callback, LogicalSize, PixelSize, Slot, WindowBackgroundAppearance,
};

const ONE: Callback = Callback { id: 1 };
const TWO: Callback = Callback { id: 2 };
const THREE: Callback = Callback { id: 3 };

fn version(major: u64, minor: u64, patch: u64) -> OsVersion {
    OsVersion { major, minor, patch }
}

fn size(width: f32, height: f32) -> LogicalSize {
    LogicalSize { width_bits: width.to_bits(), height_bits: height.to_bits() }
}

fn window(width: u32, height: u32) -> EmbedWindow {
    let bounds = Bounds {
        x_bits: 0,
        y_bits: 0,
        size: size(width as f32, height as f32),
    };
    EmbedWindow::new(bounds, width, height)
}

#[test]
fn versions_are_ordered_by_their_parts() {
    assert!(version(12, 0, 0).at_least(12, 0, 0));
    assert!(version(12, 0, 1).at_least(12, 0, 0));
    assert!(version(13, 0, 0).at_least(12, 9, 9));
    assert!(version(9, 10, 0).at_least(9, 9, 0));
    assert!(!version(11, 99, 99).at_least(12, 0, 0));
    assert!(!version(12, 0, 0).at_least(12, 0, 1));
}

#[test]
fn surfaces_hold_the_largest_display() {
    let display = |width, height| PixelSize { width, height };
    assert_eq!(max_size_for(&[]), display(3840, 2160));
    assert_eq!(max_size_for(&[display(1920, 1080)]), display(3840, 2160));
    assert_eq!(
        max_size_for(&[display(5120, 1080), display(0, 0), display(2160, 3840)]),
        display(5120, 3840)
    );
    assert_eq!(
        max_size_for(&[display(u32::MAX, 4321)]),
        display(7680, 4320)
    );
}

#[test]
fn services_have_names_of_their_own() {
    let mut names = ServiceNames { next: u32::MAX };
    assert_eq!(
        names.next_name(4242).unwrap(),
        "dev.slop2.zed.embed.4242.4294967295"
    );
    assert_eq!(names.next_name(4242).unwrap(), "dev.slop2.zed.embed.4242.0");
    assert_eq!(names.next_name(0).unwrap(), "dev.slop2.zed.embed.0.1");
}

#[test]
fn rights_are_given_back() {
    let release = release_rights(9, &[3, 0, 4]);
    assert_eq!(release.send_rights, [3, 4]);
    assert_eq!(release.receive_right, Some(9));
    assert_eq!(release_rights(0, &[]).receive_right, None);
}

/// Surfaces of the smallest size.
fn surfaces() -> EmbedSurfaces {
    let (surfaces, step) = EmbedSurfaces::new::<()>(&mut SurfaceSize::new(), &[]);
    assert!(matches!(
        step,
        SurfaceStep::Create { index: 0, size: PixelSize { width: 3840, height: 2160 } }
    ));
    surfaces
}

#[test]
fn the_first_displays_settle_the_size() {
    let large = PixelSize { width: 5120, height: 2880 };
    let mut size = SurfaceSize::new();
    assert_eq!(size.embed_max_size(&[large]), large);
    let larger = PixelSize { width: 6016, height: 3384 };
    assert_eq!(size.embed_max_size(&[large, larger]), large);
    assert_eq!(size.embed_max_size(&[]), large);
    let (surfaces, _) = EmbedSurfaces::new::<()>(&mut size, &[larger]);
    assert_eq!(surfaces.size, large);
}

#[test]
fn surfaces_are_created_one_by_one() {
    let mut surfaces = surfaces();
    assert!(matches!(
        surfaces.add_buffer::<()>(Ok(3)),
        SurfaceStep::Create { index: 1, size: PixelSize { width: 3840, height: 2160 } }
    ));
    assert!(matches!(surfaces.add_buffer::<()>(Ok(4)), SurfaceStep::Serve));
    assert!(surfaces.serve(KERN_SUCCESS, 9, true).is_none());
    let release = surfaces.serve(KERN_SUCCESS, 9, false).unwrap();
    assert_eq!(release.send_rights, [3, 4]);
    assert_eq!(release.receive_right, Some(9));
    let release = surfaces.serve(1100, 9, true).unwrap();
    assert_eq!(release.send_rights, [3, 4]);
    assert_eq!(release.receive_right, None);
}

#[test]
fn a_failed_surface_gives_back_the_earlier_ones() {
    let mut surfaces = surfaces();
    surfaces.add_buffer::<&str>(Ok(3));
    match surfaces.add_buffer(Err("no memory")) {
        SurfaceStep::Fail { error: SurfaceError::Call("no memory"), release } => {
            assert_eq!(release.send_rights, [3]);
            assert_eq!(release.receive_right, None);
        }
        _ => panic!("no failure"),
    }
    match surfaces.add_buffer::<&str>(Ok(0)) {
        SurfaceStep::Fail { error: SurfaceError::NullPort, release } => {
            assert_eq!(release.send_rights, [3]);
        }
        _ => panic!("no failure"),
    }
}

#[test]
fn only_requests_are_answered() {
    let ports = vec![3, 4];
    let request = SurfaceRequest { bits: 0x1112, id: 100, reply_port: 8 };
    match serve_surfaces(KERN_SUCCESS, request, &ports) {
        ServiceStep::Reply(reply) => {
            assert_eq!(reply.bits, 0x8000_0012);
            assert_eq!((reply.id, reply.reply_port), (200, 8));
            assert_eq!(reply.descriptor_count, 2);
            assert_eq!(reply.surfaces, [3, 4]);
        }
        _ => panic!("no answer"),
    }
    assert!(matches!(
        serve_surfaces(MACH_RCV_TIMED_OUT, request, &ports),
        ServiceStep::Wait
    ));
    assert!(matches!(serve_surfaces(1, request, &ports), ServiceStep::Stop));
    assert!(matches!(
        serve_surfaces(KERN_SUCCESS, SurfaceRequest { id: 101, ..request }, &ports),
        ServiceStep::Wait
    ));
    assert!(matches!(
        serve_surfaces(KERN_SUCCESS, SurfaceRequest { reply_port: 0, ..request }, &ports),
        ServiceStep::Wait
    ));
}

#[test]
fn frames_are_read_back_without_surfaces() {
    let mut window = window(3, 2);
    window.on_frame = Some(ONE);
    let plan = DrawPlan::Readback {
        size: PixelSize { width: 3, height: 2 },
        bytes: 24,
        callback: Some(ONE),
    };
    assert_eq!(window.draw(), plan);
    assert_eq!(window.draw(), plan);

    let rendered: Vec<u8> = (0..24).collect();
    let frame = finish_draw(plan, Some(rendered)).unwrap();
    assert_eq!(frame.callback, ONE);
    assert_eq!(frame.size, PixelSize { width: 3, height: 2 });
    assert_eq!(frame.bytes.len(), 24);
    assert_eq!(&frame.bytes[..8], &[2, 1, 0, 3, 6, 5, 4, 7]);
    // Nobody is told of a frame that failed, nor where nobody listens.
    assert!(finish_draw(plan, None).is_none());
    window.on_frame = None;
    assert!(finish_draw(window.draw(), Some(vec![0; 24])).is_none());
}

#[test]
fn surfaces_take_turns() {
    let mut window = window(800, 600);
    let handshake = window
        .enable_zero_copy::<()>(Ok("service".into()), &surfaces(), size(0.0, 0.0))
        .unwrap();
    assert_eq!(handshake.service_name, "service");
    assert_eq!(handshake.buffer_count, 2);
    assert_eq!((handshake.max_width, handshake.max_height), (3840, 2160));
    assert_eq!(window.core.bounds.size, size(800.0, 600.0));
    window.on_ready = Some(TWO);
    for turn in [0, 1, 0] {
        assert_eq!(
            window.draw(),
            DrawPlan::Surface {
                index: turn,
                size: PixelSize { width: 800, height: 600 },
                callback: Some(TWO),
            }
        );
    }
}

#[test]
fn a_window_past_the_surfaces_is_cut_down() {
    let mut window = window(8000, 600);
    window
        .enable_zero_copy::<()>(Ok("s".into()), &surfaces(), size(3840.0, 600.0))
        .unwrap();
    assert_eq!(window.pixels, PixelSize { width: 3840, height: 600 });
    assert_eq!(window.core.bounds.size, size(3840.0, 600.0));
    assert_eq!(
        window.frame_size(5000, 0),
        PixelSize { width: 3840, height: 1 }
    );
}

#[test]
fn without_surfaces_nothing_changes() {
    let mut window = window(8000, 600);
    let failed = window.enable_zero_copy(
        Err("no"),
        &surfaces(),
        size(1.0, 1.0),
    );
    assert_eq!(failed.unwrap_err(), "no");
    assert_eq!(window.target, EmbedTarget::Readback);
    assert_eq!(window.frame_size(8000, 0), PixelSize { width: 8000, height: 1 });
}

#[test]
fn a_resize_allocates_only_what_is_read_back() {
    let mut read_back = window(800, 600);
    read_back.core.register(Slot::Resize, ONE);
    assert!(read_back.resize_embed(800, 600, size(800.0, 600.0)).is_none());
    let effects = read_back.resize_embed(400, 300, size(400.0, 300.0)).unwrap();
    assert_eq!(effects.target, Some(PixelSize { width: 400, height: 300 }));
    assert_eq!(effects.callback, Some(ONE));
    assert_eq!(effects.scale_percent, 100);

    let mut shared = window(800, 600);
    shared
        .enable_zero_copy::<()>(
            Ok("s".into()),
            &surfaces(),
            size(0.0, 0.0),
        )
        .unwrap();
    let effects = shared.resize_embed(9000, 300, size(3840.0, 300.0)).unwrap();
    assert_eq!(effects.target, None);
    assert_eq!(shared.pixels, PixelSize { width: 3840, height: 300 });
}

#[test]
fn a_scale_keeps_the_pixels() {
    let mut window = window(800, 600);
    window.core.tick_frame();
    window.core.register(Slot::Resize, ONE);
    assert!(window.set_scale(100, size(1.0, 1.0)).is_none());
    let effects = window.set_scale(10, size(3200.0, 2400.0)).unwrap();
    assert_eq!(effects.scale_percent, 25);
    assert_eq!(effects.target, None);
    assert_eq!(effects.callback, Some(ONE));
    assert_eq!(window.pixels, PixelSize { width: 800, height: 600 });
    assert!(window.core.force_frame);
    assert!(window.set_scale(20, size(1.0, 1.0)).is_none());
}

#[test]
fn backgrounds_clear_to_transparent() {
    let mut window = window(8, 6);
    window.core.tick_frame();
    window.set_background_appearance(WindowBackgroundAppearance::Opaque);
    assert!(!window.transparent && !window.core.force_frame);
    window.set_background_appearance(WindowBackgroundAppearance::Blurred);
    assert!(window.transparent && window.core.force_frame);
    window.set_background_appearance(WindowBackgroundAppearance::Opaque);
    assert!(!window.transparent);
}

#[test]
fn a_macos_window_waits_for_its_callbacks() {
    let mut window = window(8, 6);
    assert_eq!(window.ensure_active(), None);
    window.core.register(Slot::ActiveStatusChange, ONE);
    assert_eq!(window.ensure_active(), Some((Some(ONE), None)));
    assert_eq!(window.ensure_active(), None);
}

#[test]
fn consumers_are_greeted_with_their_transport() {
    let mut plain = window(8, 6);
    let mut out = Vec::new();
    Session::greet(&mut plain, &None, ONE, TWO, THREE, &mut out);
    assert_eq!(out, [0]);
    assert_eq!((plain.on_ready, plain.on_frame), (None, Some(TWO)));
    assert_eq!(plain.core.set_title("t".into()), Some(THREE));

    let mut shared = window(8, 6);
    let handshake = shared
        .enable_zero_copy::<()>(
            Ok("ab".into()),
            &surfaces(),
            size(0.0, 0.0),
        )
        .ok();
    let mut out = Vec::new();
    Session::greet(&mut shared, &handshake, ONE, TWO, THREE, &mut out);
    assert_eq!(out, b"\x01IOSF\x02\0\0\0ab\x02\0\0\0\x00\x0f\0\0\x70\x08\0\0");
    assert_eq!((shared.on_ready, shared.on_frame), (Some(ONE), None));
}

#[test]
fn a_session_ends_with_either_side() {
    assert_eq!(Session::begin_tick(true, true), SessionStep::TellActive);
    assert_eq!(Session::begin_tick(false, true), SessionStep::End);
    assert_eq!(Session::begin_tick(true, false), SessionStep::End);

    let mut session = Session::new();
    let mut window = window(8, 6);
    window.core.on_close(ONE);
    let mut bridge = EmbedBridge::new();
    let mut clipboard = None;
    let step = session.receive(Received::Empty, &mut window, &mut bridge, &mut clipboard);
    assert!(matches!(step, ReceiveStep::Proceed));
    let step = session.receive(
        Received::Input(EmbedInput::Clipboard { text: "t".into() }),
        &mut window,
        &mut bridge,
        &mut clipboard,
    );
    assert!(matches!(step, ReceiveStep::Perform(EmbedAction::Stored)));
    assert_eq!(clipboard.as_deref(), Some("t"));
    for expected in [Some(ONE), None] {
        match session.receive(Received::Disconnected, &mut window, &mut bridge, &mut clipboard) {
            ReceiveStep::Close(callback) => assert_eq!(callback, expected),
            _ => panic!("not closed"),
        }
    }
}

#[test]
fn the_macos_cursor_goes_before_the_frame() {
    let run = |connected| {
        let mut steps = vec![Session::begin_tick(true, true)];
        while !matches!(steps.last().unwrap(), SessionStep::Wait | SessionStep::End) {
            steps.push(Session::next_step(*steps.last().unwrap(), connected));
        }
        steps
    };
    assert_eq!(
        run(true),
        [
            SessionStep::TellActive,
            SessionStep::Receive,
            SessionStep::SendCursor,
            SessionStep::RequestFrame,
            SessionStep::Wait,
        ]
    );
    assert_eq!(
        run(false),
        [SessionStep::TellActive, SessionStep::Receive, SessionStep::End]
    );
}

#[test]
fn a_cursor_that_was_not_sent_is_tried_again() {
    let mut session = Session::new();
    assert_eq!(session.cursor_to_send(None), None);
    assert_eq!(session.cursor_to_send(Some("text")), Some("text"));
    session.cursor_sent("text", false);
    assert_eq!(session.cursor_to_send(Some("text")), Some("text"));
    session.cursor_sent("text", true);
    assert_eq!(session.cursor_to_send(Some("text")), None);
    assert_eq!(session.cursor_to_send(Some("grab")), Some("grab"));
}

#[test]
fn the_clock_follows_the_consumer() {
    let (mut clock, step) = EmbedFrameClock::spawn(1, true);
    assert_eq!(step, ClockStep::Keep);
    assert_eq!(clock.retarget(1), ClockStep::Keep);
    assert_eq!(clock.retarget(2), ClockStep::Subscribe { display: 2 });
    assert_eq!(clock.moved(2, true), ClockStep::Keep);
    assert_eq!(clock.display, Some(2));
    assert_eq!(clock.retarget(2), ClockStep::Keep);

    assert_eq!(clock.moved(3, false), ClockStep::Subscribe { display: 2 });
    clock.moved_back(true);
    assert_eq!(clock.display, Some(2));
    clock.moved_back(false);
    assert_eq!(clock.display, None);
    assert_eq!(clock.moved(4, false), ClockStep::Keep);
    assert_eq!(clock.tick(false), ClockStep::Keep);
    assert_eq!(clock.tick(true), ClockStep::Unsubscribe);
}

#[test]
fn a_clock_on_the_timer_stays_there() {
    let (clock, step) = EmbedFrameClock::spawn(1, false);
    assert_eq!(step, ClockStep::StartTimer);
    assert_eq!(clock.retarget(2), ClockStep::Keep);
    assert_eq!(clock.tick(true), ClockStep::Keep);
}

fn action_item(name: &str, id: u64, os_action: Option<OsAction>) -> MenuItem {
    MenuItem::Action {
        name: name.into(),
        action: Action { id },
        os_action,
        checked: id == 2,
        disabled: id == 3,
    }
}

fn binding(id: u64, applies: bool, keys: &[&str]) -> KeyBinding {
    let keystrokes = keys
        .iter()
        .map(|key| BindingKeystroke {
            key: key.to_string(),
            modifiers: Modifiers { platform: true, shift: true, ..Modifiers::default() },
        })
        .collect();
    KeyBinding { action: Action { id }, applies, keystrokes }
}

#[test]
fn the_first_binding_that_applies_is_shown() {
    let keymap = vec![
        binding(1, false, &["a"]),
        binding(2, false, &["b"]),
        binding(1, true, &["c"]),
        binding(1, true, &["d"]),
        binding(2, false, &["e"]),
    ];
    assert_eq!(find_binding(&keymap, Action { id: 1 }), Some(2));
    assert_eq!(find_binding(&keymap, Action { id: 2 }), Some(1));
    assert_eq!(find_binding(&keymap, Action { id: 3 }), None);
}

fn menu(name: &str, items: Vec<MenuItem>) -> Menu {
    Menu { name: name.into(), items, disabled: false }
}

#[test]
fn menus_become_native_ones() {
    let mut menus = Menus::new();
    assert!(menus.get_menus().is_none());
    let keymap = vec![binding(1, true, &["s"]), binding(2, true, &["k", "s"])];
    let bar = menus.set_menus(
        vec![
            menu(
                "File",
                vec![
                    action_item("Save", 1, None),
                    MenuItem::Separator,
                    MenuItem::Submenu(menu(
                        "More",
                        vec![
                            action_item("Copy", 2, Some(OsAction::Copy)),
                            action_item("Undo", 3, Some(OsAction::Undo)),
                        ],
                    )),
                    MenuItem::SystemMenu {
                        name: "Services".into(),
                        menu_type: SystemMenuType::Services,
                    },
                ],
            ),
            menu("Window", vec![action_item("Zoom", 4, None)]),
        ],
        &keymap,
        version(12, 0, 0),
    );
    assert_eq!(bar.len(), 2);
    assert!(!bar[0].lists_windows && bar[1].lists_windows);
    assert_eq!(bar[0].title, "File");
    match &bar[0].items[0] {
        NativeItem::Action { title, selector, equivalent, checked, enabled, tag } => {
            assert_eq!(title, "Save");
            assert_eq!(*selector, Selector::HandleGpuiMenuItem);
            let equivalent = equivalent.as_ref().unwrap();
            assert_eq!(equivalent.key, "s");
            assert!(equivalent.mask.command && equivalent.mask.shift);
            assert!(!equivalent.mask.control && !equivalent.mask.alternate);
            assert!(equivalent.fixed);
            assert!(!*checked && *enabled);
            assert_eq!(*tag, 0);
        }
        _ => panic!("not an action"),
    }
    assert!(matches!(bar[0].items[1], NativeItem::Separator));
    match &bar[0].items[2] {
        NativeItem::Submenu { title, items, enabled } => {
            assert_eq!(title, "More");
            assert!(*enabled);
            assert!(matches!(
                items[0],
                NativeItem::Action {
                    selector: Selector::Copy,
                    equivalent: None,
                    checked: true,
                    tag: 1,
                    ..
                }
            ));
            assert!(matches!(
                items[1],
                NativeItem::Action {
                    selector: Selector::HandleGpuiMenuItem,
                    enabled: false,
                    tag: 2,
                    ..
                }
            ));
        }
        _ => panic!("not a submenu"),
    }
    assert!(matches!(&bar[0].items[3], NativeItem::Services { title } if title == "Services"));
    assert!(matches!(bar[1].items[0], NativeItem::Action { tag: 3, .. }));
    for (tag, id) in [(0, 1), (1, 2), (2, 3), (3, 4)] {
        assert_eq!(menus.action(tag), Some(Action { id }));
    }
    assert_eq!(menus.action(4), None);
    assert_eq!(menus.action(-1), None);
    assert_eq!(menus.get_menus().unwrap().len(), 2);
}

#[test]
fn earlier_tags_keep_their_meaning() {
    let mut menus = Menus::new();
    let keymap = Vec::new();
    let os = version(11, 0, 0);
    assert!(menus.set_dock_menu(&vec![action_item("A", 7, None)], &keymap, os).is_none());
    let released = menus.set_dock_menu(&vec![action_item("B", 8, None)], &keymap, os);
    assert!(matches!(released.unwrap()[0], NativeItem::Action { tag: 0, .. }));
    assert!(matches!(
        menus.dock.as_ref().unwrap()[0],
        NativeItem::Action { tag: 1, .. }
    ));
    assert_eq!(menus.action(0), Some(Action { id: 7 }));
    assert_eq!(menus.action(1), Some(Action { id: 8 }));
}

#[test]
fn key_equivalents_move_on_earlier_systems() {
    let keymap = vec![binding(1, true, &["s"])];
    let mut menus = Menus::new();
    menus.set_dock_menu(&vec![action_item("A", 1, None)], &keymap, version(11, 7, 10));
    match &menus.dock.as_ref().unwrap()[0] {
        NativeItem::Action { equivalent: Some(equivalent), .. } => assert!(!equivalent.fixed),
        _ => panic!("no key equivalent"),
    }
}

#[test]
fn an_endpoint_makes_a_process_embed() {
    assert!(MacPlatform::new(false, Some("/tmp/s")).embedding);
    assert!(!MacPlatform::new(false, Some("")).embedding);
    assert!(!MacPlatform::new(false, None).embedding);
}

#[test]
fn windows_open_for_waiting_consumers() {
    let mut native = MacPlatform::new(false, None);
    assert_eq!(native.open_window(true, None), OpenChoice::Rejected);
    assert_eq!(native.open_window(false, Some(1)), OpenChoice::Native);
    let mut embed = MacPlatform::new(false, Some("/tmp/s"));
    assert!(!native.wants_connection(false) && !native.wants_connection(true));
    // A popup takes no consumer from the window that it came for.
    assert!(embed.wants_connection(false) && !embed.wants_connection(true));
    assert_eq!(embed.open_window(true, Some(1)), OpenChoice::Rejected);
    assert_eq!(embed.open_window(false, None), OpenChoice::Native);
    assert_eq!(embed.clipboard.owner, None);
    assert_eq!(embed.open_window(false, Some(1)), OpenChoice::Embedded);
    assert_eq!(embed.open_window(false, Some(2)), OpenChoice::Embedded);
    assert_eq!(embed.clipboard.owner, Some(2));
}

#[test]
fn cursors_and_clipboards_go_to_the_host() {
    let mut native = MacPlatform::new(false, None);
    assert_eq!(native.set_cursor_style(CursorStyle::IBeam), Some(CursorStyle::IBeam));
    assert!(matches!(native.read_from_clipboard(), ClipboardRead::Native));
    assert!(matches!(
        native.write_to_clipboard(Some("t".into())),
        ClipboardWrite::Native
    ));

    let mut embed = MacPlatform::new(false, Some("/tmp/s"));
    assert_eq!(embed.set_cursor_style(CursorStyle::IBeam), None);
    assert_eq!(embed.pending_cursor.take(), Some("text"));
    assert!(matches!(
        embed.write_to_clipboard(Some("t".into())),
        ClipboardWrite::Embedded(None)
    ));
    assert!(matches!(
        embed.read_from_clipboard(),
        ClipboardRead::Embedded(Some(text)) if text == "t"
    ));
    embed.open_window(false, Some(5));
    match embed.write_to_clipboard(Some("u".into())) {
        ClipboardWrite::Embedded(Some(Outgoing { connection, message })) => {
            assert_eq!(connection, 5);
            assert_eq!(message, b"CLIP\x01\0\0\0u");
        }
        _ => panic!("nothing to send"),
    }
    assert!(matches!(
        embed.write_to_clipboard(None),
        ClipboardWrite::Embedded(None)
    ));
}

#[test]
fn apps_are_told_of_their_launch_once() {
    let mut headless = MacPlatform::new(true, None);
    assert_eq!(headless.run(ONE), Some(ONE));
    assert_eq!(headless.did_finish_launching(false).callback, None);

    let mut platform = MacPlatform::new(false, None);
    assert_eq!(platform.run(ONE), None);
    assert!(!platform.on_system_wake(TWO, false));
    let effects = platform.did_finish_launching(true);
    assert_eq!(effects.policy, ActivationPolicy::Accessory);
    assert!(effects.observe_wake);
    assert_eq!(effects.callback, Some(ONE));
    let effects = platform.did_finish_launching(false);
    assert_eq!(effects.policy, ActivationPolicy::Regular);
    assert!(!effects.observe_wake);
    assert_eq!(effects.callback, None);
    assert!(!platform.on_system_wake(THREE, true));

    let mut late = MacPlatform::new(false, None);
    assert!(late.on_system_wake(ONE, true));
    assert!(!late.on_system_wake(TWO, true));
    assert_eq!(late.callbacks.get(PlatformSlot::SystemWake), Some(TWO));
}

#[test]
fn a_newer_callback_is_kept() {
    let mut platform = MacPlatform::new(false, None);
    platform.callbacks.set(PlatformSlot::Reopen, Some(ONE));
    assert_eq!(platform.should_handle_reopen(true), None);
    assert_eq!(platform.should_handle_reopen(false), Some(ONE));
    assert_eq!(platform.should_handle_reopen(false), None);
    platform.callbacks.set(PlatformSlot::Reopen, Some(TWO));
    platform.callbacks.restore(PlatformSlot::Reopen, ONE);
    assert_eq!(platform.callbacks.take(PlatformSlot::Reopen), Some(TWO));
    platform.callbacks.restore(PlatformSlot::Reopen, ONE);
    assert_eq!(platform.callbacks.get(PlatformSlot::Reopen), Some(ONE));
    for slot in [
        PlatformSlot::Quit,
        PlatformSlot::KeyboardLayoutChange,
        PlatformSlot::ThermalStateChange,
        PlatformSlot::SystemWake,
        PlatformSlot::MenuCommand,
        PlatformSlot::ValidateMenuCommand,
        PlatformSlot::WillOpenMenu,
        PlatformSlot::OpenUrls,
    ] {
        assert_eq!(platform.callbacks.get(slot), None);
        platform.callbacks.set(slot, Some(THREE));
        assert_eq!(platform.callbacks.take(slot), Some(THREE));
    }
}

#[test]
fn chosen_items_find_their_actions() {
    let mut platform = MacPlatform::new(false, None);
    platform
        .menus
        .set_dock_menu(&vec![action_item("A", 7, None)], &Vec::new(), version(12, 0, 0));
    assert_eq!(platform.handle_menu_item(0), (None, None));
    platform.callbacks.set(PlatformSlot::MenuCommand, Some(ONE));
    assert_eq!(platform.handle_menu_item(0), (Some(ONE), Some(Action { id: 7 })));
    platform.callbacks.restore(PlatformSlot::MenuCommand, ONE);
    assert_eq!(platform.handle_menu_item(9), (Some(ONE), None));
    assert_eq!(platform.validate_menu_item(0), (None, None));
    platform.callbacks.set(PlatformSlot::ValidateMenuCommand, Some(TWO));
    assert_eq!(platform.validate_menu_item(0), (Some(TWO), Some(Action { id: 7 })));
}

#[test]
fn the_cursor_hides_once() {
    let mut platform = MacPlatform::new(false, None);
    assert!(platform.hide_cursor_until_mouse_moves());
    assert!(!platform.hide_cursor_until_mouse_moves());
    assert!(!platform.cursor_visible);
}

#[test]
fn urls_that_are_no_text_are_left_out() {
    let urls = vec![b"zed://a".to_vec(), vec![0xff], b"zed://b".to_vec()];
    assert_eq!(open_urls(&urls), ["zed://a", "zed://b"]);
}

#[test]
fn numbers_of_the_system_have_meanings() {
    assert_eq!(thermal_state(0), ThermalState::Nominal);
    assert_eq!(thermal_state(1), ThermalState::Fair);
    assert_eq!(thermal_state(2), ThermalState::Serious);
    assert_eq!(thermal_state(3), ThermalState::Critical);
    assert_eq!(thermal_state(-1), ThermalState::Nominal);
    assert!(should_auto_hide_scrollbars(1));
    assert!(!should_auto_hide_scrollbars(0));
}

#[test]
fn schemes_need_an_installed_bundle() {
    assert_eq!(
        register_url_scheme(version(11, 9, 9), true, true),
        Err(UrlSchemeError::SystemTooOld)
    );
    assert_eq!(
        register_url_scheme(version(12, 0, 0), false, true),
        Err(UrlSchemeError::NotBundled)
    );
    assert_eq!(
        register_url_scheme(version(12, 0, 0), true, false),
        Err(UrlSchemeError::NotInstalled)
    );
    assert_eq!(register_url_scheme(version(12, 0, 0), true, true), Ok(()));
}

#[test]
fn a_restart_opens_the_bundle_or_the_program() {
    let path = |text: &str| text.as_bytes().to_vec();
    let restart = |binary: Option<&str>, app: Option<&str>| {
        restart_path(binary.map(path), app.map(path), path("/p"))
    };
    assert_eq!(restart(Some("/b"), Some("/Zed.app")), path("/b"));
    assert_eq!(restart(None, Some("/Zed.app")), path("/Zed.app"));
    assert_eq!(restart(None, Some("/bin")), path("/p"));
    assert_eq!(restart(None, None), path("/p"));
}

#[test]
fn bundles_are_told_by_their_extension() {
    for path in [
        "/Applications/Zed.app",
        "/Applications/Zed.app/",
        "Zed.app/./",
        "Zed.app//.",
        "a.b.app",
        "..app",
        "/x/..app",
        "app",
        ".app",
        "/x/.app",
        "/x/.app/",
        "Zed.app/..",
        "Zed.app/Contents",
        "Zed.App",
        "Zed.apps",
        "Zed.app.",
        "Zed.app. /",
        "/",
        "//./",
        ".",
        "./",
        "..",
        "",
    ] {
        let expected = std::path::Path::new(path).extension().is_some_and(|extension| extension == "app");
        assert_eq!(is_bundle(path.as_bytes()), expected, "{path}");
    }
    assert!(is_bundle(b"/\xff.app"));
}

#[test]
fn passwords_are_updated_or_created() {
    assert_eq!(credentials_updated(0), CredentialStep::Written);
    assert_eq!(credentials_updated(-25300), CredentialStep::Create);
    assert_eq!(
        credentials_updated(-128),
        CredentialStep::Failed(CredentialError::Updating { status: -128 })
    );
    assert_eq!(credentials_created(0), Ok(()));
    assert_eq!(
        credentials_created(-25300),
        Err(CredentialError::Creating { status: -25300 })
    );
    assert_eq!(credentials_read(0), Ok(true));
    assert_eq!(credentials_read(-25300), Ok(false));
    assert_eq!(credentials_read(-128), Ok(false));
    assert_eq!(credentials_read(1), Err(CredentialError::Reading { status: 1 }));
    assert_eq!(credentials_deleted(0), Ok(()));
    assert_eq!(
        credentials_deleted(-25300),
        Err(CredentialError::Deleting { status: -25300 })
    );
}

#[test]
fn an_extension_too_many_is_dropped() {
    let os = version(15, 0, 0);
    assert_eq!(correct_name(b"a.sql.s", os), b"a.sql");
    assert_eq!(correct_name(b"a.txtx.txt", os), b"a.txtx");
    assert_eq!(correct_name(b"a.sql.sql", os), b"a.sql");
    assert_eq!(correct_name(b"a.sql.", os), b"a.sql");
    assert_eq!(correct_name(b"a.sql.s", version(14, 9, 9)), b"a.sql.s");
    assert_eq!(correct_name(b"a.s.sql", os), b"a.s.sql");
    assert_eq!(correct_name(b"a.tar.gz", os), b"a.tar.gz");
    assert_eq!(correct_name(b"a.b.b.b", os), b"a.b.b.b");
    assert_eq!(correct_name(b"a.sql", os), b"a.sql");
    assert_eq!(correct_name(b"", os), b"");
}

#[test]
fn paths_come_out_of_confirmed_panels() {
    let url = |is_file, path: Option<&str>| ChosenUrl { is_file, path: path.map(str::to_owned) };
    let urls = vec![
        url(true, Some("/a")),
        url(false, Some("/b")),
        url(true, None),
        url(true, Some("/c")),
    ];
    assert_eq!(prompt_for_paths(false, &urls), None);
    assert_eq!(
        prompt_for_paths(true, &urls),
        Some(vec!["/a".to_string(), "/c".to_string()])
    );

    let os = version(15, 1, 0);
    let path = |name: Option<&[u8]>| {
        Some(ChosenPath { parent: b"/home".to_vec(), name: name.map(<[u8]>::to_vec) })
    };
    let chosen = prompt_for_new_path(true, true, path(Some(b"a.sql.s")), os).unwrap();
    assert_eq!(chosen.parent, b"/home");
    assert_eq!(chosen.name.unwrap(), b"a.sql");
    assert!(prompt_for_new_path(true, true, path(None), os).unwrap().name.is_none());
    assert!(prompt_for_new_path(false, true, path(None), os).is_none());
    assert!(prompt_for_new_path(true, false, path(None), os).is_none());
    assert!(prompt_for_new_path(true, true, None, os).is_none());
}
