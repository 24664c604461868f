//! The decisions of the macOS platform: what an embed session changes in how windows
//! open, in the cursor and in the clipboard, and what is made of the system's answers.

use vstd::prelude::*;

use crate::clipboard::{outgoing_view, EmbedClipboard, Outgoing};
use crate::cursor::{cursor_name_spec, CursorStyle, PendingCursor};
use crate::macos::menu::Action;
use crate::macos::menu_bar::{action_at, Menus};
use crate::macos::version::OsVersion;
use crate::text::{copy_range, decoded_texts, utf8_exact};
use crate::window::Callback;

verus! {

/// The callbacks that the platform calls any number of times.
#[derive(Clone, Copy, Debug, PartialEq, Eq, Structural)]
pub enum PlatformSlot {
    Reopen,
    Quit,
    KeyboardLayoutChange,
    ThermalStateChange,
    SystemWake,
    MenuCommand,
    ValidateMenuCommand,
    WillOpenMenu,
    OpenUrls,
}

/// The callbacks an app has registered with the platform.
#[derive(Clone, Copy, Debug, PartialEq, Eq, Structural)]
pub struct PlatformCallbacks {
    pub reopen: Option<Callback>,
    pub quit: Option<Callback>,
    pub keyboard_layout_change: Option<Callback>,
    pub thermal_state_change: Option<Callback>,
    pub system_wake: Option<Callback>,
    pub menu_command: Option<Callback>,
    pub validate_menu_command: Option<Callback>,
    pub will_open_menu: Option<Callback>,
    pub open_urls: Option<Callback>,
}

impl PlatformCallbacks {
    /// The callback in a slot.
    pub open spec fn at(self, slot: PlatformSlot) -> Option<Callback> {
        match slot {
            PlatformSlot::Reopen => self.reopen,
            PlatformSlot::Quit => self.quit,
            PlatformSlot::KeyboardLayoutChange => self.keyboard_layout_change,
            PlatformSlot::ThermalStateChange => self.thermal_state_change,
            PlatformSlot::SystemWake => self.system_wake,
            PlatformSlot::MenuCommand => self.menu_command,
            PlatformSlot::ValidateMenuCommand => self.validate_menu_command,
            PlatformSlot::WillOpenMenu => self.will_open_menu,
            PlatformSlot::OpenUrls => self.open_urls,
        }
    }

    /// The same but for one slot.
    pub open spec fn with(self, slot: PlatformSlot, callback: Option<Callback>) -> PlatformCallbacks {
        match slot {
            PlatformSlot::Reopen => PlatformCallbacks { reopen: callback, ..self },
            PlatformSlot::Quit => PlatformCallbacks { quit: callback, ..self },
            PlatformSlot::KeyboardLayoutChange => PlatformCallbacks {
                keyboard_layout_change: callback,
                ..self
            },
            PlatformSlot::ThermalStateChange => PlatformCallbacks {
                thermal_state_change: callback,
                ..self
            },
            PlatformSlot::SystemWake => PlatformCallbacks { system_wake: callback, ..self },
            PlatformSlot::MenuCommand => PlatformCallbacks { menu_command: callback, ..self },
            PlatformSlot::ValidateMenuCommand => PlatformCallbacks {
                validate_menu_command: callback,
                ..self
            },
            PlatformSlot::WillOpenMenu => PlatformCallbacks { will_open_menu: callback, ..self },
            PlatformSlot::OpenUrls => PlatformCallbacks { open_urls: callback, ..self },
        }
    }

    /// What putting back a callback leaves: one that was registered while it was being
    /// called stays.
    pub open spec fn restored(self, slot: PlatformSlot, callback: Callback) -> PlatformCallbacks {
        if self.at(slot) is Some {
            self
        } else {
            self.with(slot, Some(callback))
        }
    }

    /// The callback in a slot.
    pub fn get(&self, slot: PlatformSlot) -> (callback: Option<Callback>)
        ensures
            callback == self.at(slot),
    {
        match slot {
            PlatformSlot::Reopen => self.reopen,
            PlatformSlot::Quit => self.quit,
            PlatformSlot::KeyboardLayoutChange => self.keyboard_layout_change,
            PlatformSlot::ThermalStateChange => self.thermal_state_change,
            PlatformSlot::SystemWake => self.system_wake,
            PlatformSlot::MenuCommand => self.menu_command,
            PlatformSlot::ValidateMenuCommand => self.validate_menu_command,
            PlatformSlot::WillOpenMenu => self.will_open_menu,
            PlatformSlot::OpenUrls => self.open_urls,
        }
    }

    /// Fills or empties a slot.
    pub fn set(&mut self, slot: PlatformSlot, callback: Option<Callback>)
        ensures
            *final(self) == old(self).with(slot, callback),
    {
        match slot {
            PlatformSlot::Reopen => {
                self.reopen = callback;
            },
            PlatformSlot::Quit => {
                self.quit = callback;
            },
            PlatformSlot::KeyboardLayoutChange => {
                self.keyboard_layout_change = callback;
            },
            PlatformSlot::ThermalStateChange => {
                self.thermal_state_change = callback;
            },
            PlatformSlot::SystemWake => {
                self.system_wake = callback;
            },
            PlatformSlot::MenuCommand => {
                self.menu_command = callback;
            },
            PlatformSlot::ValidateMenuCommand => {
                self.validate_menu_command = callback;
            },
            PlatformSlot::WillOpenMenu => {
                self.will_open_menu = callback;
            },
            PlatformSlot::OpenUrls => {
                self.open_urls = callback;
            },
        }
    }

    /// Takes the callback out of a slot, to call it.
    pub fn take(&mut self, slot: PlatformSlot) -> (callback: Option<Callback>)
        ensures
            callback == old(self).at(slot),
            *final(self) == old(self).with(slot, None),
    {
        let callback: Option<Callback> = self.get(slot);
        self.set(slot, None);
        callback
    }

    /// Puts a callback back after its call.
    pub fn restore(&mut self, slot: PlatformSlot, callback: Callback)
        ensures
            *final(self) == old(self).restored(slot, callback),
    {
        if self.get(slot).is_none() {
            self.set(slot, Some(callback));
        }
    }
}

/// How a window opens.
#[derive(Clone, Copy, Debug, PartialEq, Eq, Structural)]
pub enum OpenChoice {
    /// Popups are not supported natively; the app falls back to its own.
    Rejected,
    /// Offscreen, for the consumer whose connection was taken.
    Embedded,
    /// As a native window.
    Native,
}

/// How a window opens, by whether the process embeds, whether the window is a popup and
/// whether a connection was taken for it.
pub open spec fn open_choice(embedding: bool, is_popup: bool, connected: bool) -> OpenChoice {
    if is_popup {
        OpenChoice::Rejected
    } else if embedding && connected {
        OpenChoice::Embedded
    } else {
        OpenChoice::Native
    }
}

/// What is pasted.
#[derive(Debug)]
pub enum ClipboardRead {
    /// What the embed's clipboard holds.
    Embedded(Option<String>),
    /// What is on the system's pasteboard.
    Native,
}

/// What is left to do with what was copied.
#[derive(Debug)]
pub enum ClipboardWrite {
    /// Send this, if anything.
    Embedded(Option<Outgoing>),
    /// Put it on the system's pasteboard.
    Native,
}

/// How the app appears in the dock.
#[derive(Clone, Copy, Debug, PartialEq, Eq, Structural)]
pub enum ActivationPolicy {
    Regular,
    /// Without an icon of its own.
    Accessory,
}

/// What the end of launching leaves to do, in this order.
#[derive(Clone, Copy, Debug, PartialEq, Eq, Structural)]
pub struct LaunchEffects {
    pub policy: ActivationPolicy,
    /// Observe the system's waking up.
    pub observe_wake: bool,
    /// Call this, once.
    pub callback: Option<Callback>,
}

/// The platform's state.
pub struct MacPlatform {
    pub headless: bool,
    /// Whether this process serves an embed socket.
    pub embedding: bool,
    pub callbacks: PlatformCallbacks,
    pub finish_launching: Option<Callback>,
    pub system_wake_observer_registered: bool,
    pub menus: Menus,
    pub cursor_visible: bool,
    /// The cursor that was asked for since the last tick.
    pub pending_cursor: PendingCursor,
    pub clipboard: EmbedClipboard,
}

impl MacPlatform {
    /// The platform of a process that was given an endpoint to serve, or was not. An
    /// empty one counts as none.
    pub fn new(headless: bool, endpoint: Option<&str>) -> (platform: MacPlatform)
        ensures
            platform.headless == headless,
            platform.embedding == (endpoint matches Some(path) && path@.len() > 0),
            forall|slot: PlatformSlot| platform.callbacks.at(slot) is None,
            platform.finish_launching is None,
            !platform.system_wake_observer_registered,
            platform.menus.actions@ == Seq::<Action>::empty(),
            platform.menus.menus is None,
            platform.menus.dock is None,
            platform.cursor_visible,
            platform.pending_cursor.name is None,
            platform.clipboard == (EmbedClipboard { cache: None, owner: None }),
    {
        let embedding: bool = match endpoint {
            Some(path) => !path.is_empty(),
            None => false,
        };
        MacPlatform {
            headless,
            embedding,
            callbacks: PlatformCallbacks {
                reopen: None,
                quit: None,
                keyboard_layout_change: None,
                thermal_state_change: None,
                system_wake: None,
                menu_command: None,
                validate_menu_command: None,
                will_open_menu: None,
                open_urls: None,
            },
            finish_launching: None,
            system_wake_observer_registered: false,
            menus: Menus::new(),
            cursor_visible: true,
            pending_cursor: PendingCursor::new(),
            clipboard: EmbedClipboard::new(),
        }
    }

    /// What is called right away when the app starts.
    pub open spec fn called_at_once(self, on_finish_launching: Callback) -> Option<Callback> {
        if self.headless {
            Some(on_finish_launching)
        } else {
            None
        }
    }

    /// The platform while the app starts.
    pub open spec fn starting(self, on_finish_launching: Callback) -> MacPlatform {
        if self.headless {
            self
        } else {
            MacPlatform { finish_launching: Some(on_finish_launching), ..self }
        }
    }

    /// Starts the app: a headless one is told right away that it has launched, another
    /// once it has.
    pub fn run(&mut self, on_finish_launching: Callback) -> (call_now: Option<Callback>)
        ensures
            call_now == old(self).called_at_once(on_finish_launching),
            *final(self) == old(self).starting(on_finish_launching),
    {
        if self.headless {
            Some(on_finish_launching)
        } else {
            self.finish_launching = Some(on_finish_launching);
            None
        }
    }

    /// Whether a connection is to be taken for a window that is about to open.
    pub open spec fn wants(self, is_popup: bool) -> bool {
        self.embedding && !is_popup
    }

    /// Whether a connection is to be taken for a window that is about to open: in an embed
    /// session, and never for a popup, which would lose a consumer to a window that is
    /// rejected.
    pub fn wants_connection(&self, is_popup: bool) -> (wants: bool)
        ensures
            wants == self.wants(is_popup),
    {
        self.embedding && !is_popup
    }

    /// How a window opens: in an embed session for the consumer that waits, if one
    /// does. `socket` is the number of its connection, if
    /// [`wants_connection`](MacPlatform::wants_connection) asked for one and it could be
    /// taken.
    pub fn open_window(&mut self, is_popup: bool, socket: Option<u64>) -> (choice: OpenChoice)
        ensures
            choice == open_choice(old(self).embedding, is_popup, socket is Some),
            *final(self) == match socket {
                Some(socket) if choice == OpenChoice::Embedded => MacPlatform {
                    clipboard: old(self).clipboard.bound_to(socket),
                    ..*old(self)
                },
                _ => *old(self),
            },
    {
        if is_popup {
            return OpenChoice::Rejected;
        }
        if self.embedding {
            if let Some(socket) = socket {
                self.clipboard.bind(socket);
                return OpenChoice::Embedded;
            }
        }
        OpenChoice::Native
    }

    /// The cursor to set natively, if any.
    pub open spec fn native_cursor(self, style: CursorStyle) -> Option<CursorStyle> {
        if self.embedding {
            None
        } else {
            Some(style)
        }
    }

    /// Asks for a cursor. In an embed session the latest request waits for the next
    /// tick; otherwise the returned style is set natively.
    pub fn set_cursor_style(&mut self, style: CursorStyle) -> (native: Option<CursorStyle>)
        ensures
            native == old(self).native_cursor(style),
            old(self).embedding ==> {
                &&& final(self).pending_cursor.name matches Some(name) && name@
                    == cursor_name_spec(style)
                &&& *final(self) == (MacPlatform {
                    pending_cursor: final(self).pending_cursor,
                    ..*old(self)
                })
            },
            !old(self).embedding ==> *final(self) == *old(self),
    {
        if self.embedding {
            self.pending_cursor.set_cursor_style(style);
            None
        } else {
            Some(style)
        }
    }

    /// The platform whose cursor is hidden.
    pub open spec fn hidden(self) -> MacPlatform {
        MacPlatform { cursor_visible: false, ..self }
    }

    /// Hides the cursor until the mouse moves; says whether the system is to be told.
    pub fn hide_cursor_until_mouse_moves(&mut self) -> (tell: bool)
        ensures
            tell == old(self).cursor_visible,
            *final(self) == old(self).hidden(),
    {
        let tell: bool = self.cursor_visible;
        self.cursor_visible = false;
        tell
    }

    /// What is pasted.
    pub open spec fn pasted(self) -> ClipboardRead {
        if self.embedding {
            ClipboardRead::Embedded(self.clipboard.cache)
        } else {
            ClipboardRead::Native
        }
    }

    /// What is pasted. An embed takes what the host pushed: the pasteboard this process
    /// could reach may be that of another machine.
    pub fn read_from_clipboard(&self) -> (read: ClipboardRead)
        ensures
            read == self.pasted(),
    {
        if self.embedding {
            ClipboardRead::Embedded(self.clipboard.read_from_clipboard())
        } else {
            ClipboardRead::Native
        }
    }

    /// The platform after something was copied.
    pub open spec fn after_copy(self, text: Option<String>) -> MacPlatform {
        if self.embedding {
            MacPlatform { clipboard: self.clipboard.after_copy(text), ..self }
        } else {
            self
        }
    }

    /// Takes what was copied; `text` is its text, if it has any.
    pub fn write_to_clipboard(&mut self, text: Option<String>) -> (write: ClipboardWrite)
        ensures
            *final(self) == old(self).after_copy(text),
            write is Native <==> !old(self).embedding,
            write matches ClipboardWrite::Embedded(outgoing) ==> outgoing_view(outgoing)
                == old(self).clipboard.sent_copy(text),
    {
        if !self.embedding {
            return ClipboardWrite::Native;
        }
        ClipboardWrite::Embedded(self.clipboard.write_to_clipboard(text))
    }

    /// Whether to observe the system's waking up now.
    pub open spec fn observes_now(self, has_delegate: bool) -> bool {
        has_delegate && !self.system_wake_observer_registered
    }

    /// The platform with a callback for the system's waking up.
    pub open spec fn waking(self, callback: Callback, has_delegate: bool) -> MacPlatform {
        MacPlatform {
            callbacks: self.callbacks.with(PlatformSlot::SystemWake, Some(callback)),
            system_wake_observer_registered: self.system_wake_observer_registered || has_delegate,
            ..self
        }
    }

    /// Registers a callback for the system's waking up; says whether to observe that
    /// now, which needs the app's delegate and happens once.
    pub fn on_system_wake(&mut self, callback: Callback, has_delegate: bool) -> (observe: bool)
        ensures
            observe == old(self).observes_now(has_delegate),
            *final(self) == old(self).waking(callback, has_delegate),
    {
        self.callbacks.set(PlatformSlot::SystemWake, Some(callback));
        if self.system_wake_observer_registered {
            return false;
        }
        if has_delegate {
            self.system_wake_observer_registered = true;
            return true;
        }
        false
    }

    /// What the end of launching leaves to do.
    pub open spec fn launch_effects(self, endpoint: bool) -> LaunchEffects {
        LaunchEffects {
            policy: if endpoint {
                ActivationPolicy::Accessory
            } else {
                ActivationPolicy::Regular
            },
            observe_wake: self.callbacks.system_wake is Some
                && !self.system_wake_observer_registered,
            callback: self.finish_launching,
        }
    }

    /// The platform once the app has launched.
    pub open spec fn launched(self) -> MacPlatform {
        MacPlatform {
            finish_launching: None,
            system_wake_observer_registered: self.system_wake_observer_registered
                || self.callbacks.system_wake is Some,
            ..self
        }
    }

    /// The app has launched. `endpoint` says whether the process was given an endpoint,
    /// be it an empty one: it then has nothing of its own on screen, but the windows it
    /// does open have to be activatable.
    pub fn did_finish_launching(&mut self, endpoint: bool) -> (effects: LaunchEffects)
        ensures
            effects == old(self).launch_effects(endpoint),
            *final(self) == old(self).launched(),
    {
        let policy = if endpoint {
            ActivationPolicy::Accessory
        } else {
            ActivationPolicy::Regular
        };
        let observe_wake: bool = self.callbacks.system_wake.is_some()
            && !self.system_wake_observer_registered;
        if observe_wake {
            self.system_wake_observer_registered = true;
        }
        LaunchEffects { policy, observe_wake, callback: self.finish_launching.take() }
    }

    /// The platform while a callback is being called.
    pub open spec fn calling(self, slot: PlatformSlot) -> MacPlatform {
        MacPlatform { callbacks: self.callbacks.with(slot, None), ..self }
    }

    /// What is called when the app is opened again.
    pub open spec fn reopens(self, has_open_windows: bool) -> Option<Callback> {
        if has_open_windows {
            None
        } else {
            self.callbacks.reopen
        }
    }

    /// What is called for an item with a tag, and with which action.
    pub open spec fn item_call(self, slot: PlatformSlot, tag: i64) -> (
        Option<Callback>,
        Option<Action>,
    ) {
        (
            self.callbacks.at(slot),
            if self.callbacks.at(slot) is Some {
                action_at(self.menus.actions@, tag)
            } else {
                None
            },
        )
    }

    /// The app was opened again: it is told where it has no open window. What is
    /// returned is to be called, then restored.
    pub fn should_handle_reopen(&mut self, has_open_windows: bool) -> (callback: Option<Callback>)
        ensures
            callback == old(self).reopens(has_open_windows),
            *final(self) == if has_open_windows {
                *old(self)
            } else {
                old(self).calling(PlatformSlot::Reopen)
            },
    {
        if has_open_windows {
            None
        } else {
            self.callbacks.take(PlatformSlot::Reopen)
        }
    }

    /// An item with a tag was chosen: what to call, if anything, and with which
    /// action. What is called is to be restored, with or without an action.
    pub fn handle_menu_item(&mut self, tag: i64) -> (call: (Option<Callback>, Option<Action>))
        ensures
            call == old(self).item_call(PlatformSlot::MenuCommand, tag),
            *final(self) == old(self).calling(PlatformSlot::MenuCommand),
    {
        let callback: Option<Callback> = self.callbacks.take(PlatformSlot::MenuCommand);
        if callback.is_none() {
            return (None, None);
        }
        (callback, self.menus.action(tag))
    }

    /// Whether an item with a tag is enabled is asked: what to call, if anything, and
    /// with which action. Without both the item is disabled.
    pub fn validate_menu_item(&mut self, tag: i64) -> (call: (Option<Callback>, Option<Action>))
        ensures
            call == old(self).item_call(PlatformSlot::ValidateMenuCommand, tag),
            *final(self) == old(self).calling(PlatformSlot::ValidateMenuCommand),
    {
        let callback: Option<Callback> = self.callbacks.take(PlatformSlot::ValidateMenuCommand);
        if callback.is_none() {
            return (None, None);
        }
        (callback, self.menus.action(tag))
    }
}

/// A callback that is registered while its predecessor is being called is the one
/// that stays.
pub proof fn a_new_callback_stays(
    callbacks: PlatformCallbacks,
    slot: PlatformSlot,
    running: Callback,
    registered: Callback,
)
    ensures
        callbacks.with(slot, None).with(slot, Some(registered)).restored(slot, running).at(slot)
            == Some(registered),
        callbacks.at(slot) == Some(running) ==> callbacks.with(slot, None).restored(slot, running)
            == callbacks,
{
}

/// The texts of URLs; one that is not UTF-8 is left out.
pub fn open_urls(urls: &Vec<Vec<u8>>) -> (texts: Vec<String>)
    ensures
        texts@.map_values(|text: String| text@) == decoded_texts(
            urls@.map_values(|url: Vec<u8>| url@),
        ),
{
    let ghost all = urls@.map_values(|url: Vec<u8>| url@);
    let mut texts: Vec<String> = Vec::new();
    let mut i: usize = 0;
    proof {
        assert(all.skip(0) =~= all);
        assert(texts@.map_values(|text: String| text@) + decoded_texts(all) =~= decoded_texts(all));
    }
    while i < urls.len()
        invariant
            i <= urls@.len(),
            all == urls@.map_values(|url: Vec<u8>| url@),
            texts@.map_values(|text: String| text@) + decoded_texts(all.skip(i as int))
                == decoded_texts(all),
        decreases urls@.len() - i,
    {
        let ghost before = texts@.map_values(|text: String| text@);
        let ghost rest = all.skip(i as int);
        let url = copy_range(urls[i].as_slice(), 0, urls[i].len());
        proof {
            assert(url@ =~= rest[0]);
            assert(rest.skip(1) =~= all.skip(i + 1));
        }
        if let Some(text) = utf8_exact(url) {
            texts.push(text);
            proof {
                assert(texts@.map_values(|text: String| text@) =~= before.push(text@));
                assert(before + (seq![text@] + decoded_texts(rest.skip(1))) =~= before.push(text@)
                    + decoded_texts(rest.skip(1)));
            }
        }
        i += 1;
    }
    proof {
        assert(texts@.map_values(|text: String| text@) + decoded_texts(all.skip(i as int))
            =~= texts@.map_values(|text: String| text@));
    }
    texts
}

/// How hot the machine is.
#[derive(Clone, Copy, Debug, PartialEq, Eq, Structural)]
pub enum ThermalState {
    Nominal,
    Fair,
    Serious,
    Critical,
}

/// The thermal state that the system's number stands for.
pub open spec fn thermal_state_spec(state: i64) -> ThermalState {
    if state == 1 {
        ThermalState::Fair
    } else if state == 2 {
        ThermalState::Serious
    } else if state == 3 {
        ThermalState::Critical
    } else {
        ThermalState::Nominal
    }
}

/// The thermal state that the system's number stands for.
pub fn thermal_state(state: i64) -> (thermal: ThermalState)
    ensures
        thermal == thermal_state_spec(state),
{
    match state {
        0 => ThermalState::Nominal,
        1 => ThermalState::Fair,
        2 => ThermalState::Serious,
        3 => ThermalState::Critical,
        _ => ThermalState::Nominal,
    }
}

/// Whether scrollbars hide on their own: where the preferred style is the overlay.
pub fn should_auto_hide_scrollbars(preferred_style: i64) -> (hide: bool)
    ensures
        hide == (preferred_style == 1),
{
    preferred_style == 1
}

/// Why a URL scheme cannot be registered.
#[derive(Clone, Copy, Debug, PartialEq, Eq, Structural)]
pub enum UrlSchemeError {
    /// The system is older than version 12.
    SystemTooOld,
    /// The app is not bundled.
    NotBundled,
    /// The app is not installed.
    NotInstalled,
}

/// Whether a URL scheme can be registered, and the first reason why it cannot.
pub open spec fn url_scheme(os: OsVersion, bundled: bool, installed: bool) -> Result<
    (),
    UrlSchemeError,
> {
    if !os.reaches(OsVersion { major: 12, minor: 0, patch: 0 }) {
        Err(UrlSchemeError::SystemTooOld)
    } else if !bundled {
        Err(UrlSchemeError::NotBundled)
    } else if !installed {
        Err(UrlSchemeError::NotInstalled)
    } else {
        Ok(())
    }
}

/// Whether a URL scheme can be registered.
pub fn register_url_scheme(os: OsVersion, bundled: bool, installed: bool) -> (result: Result<
    (),
    UrlSchemeError,
>)
    ensures
        result == url_scheme(os, bundled, installed),
{
    if !os.at_least(12, 0, 0) {
        return Err(UrlSchemeError::SystemTooOld);
    }
    if !bundled {
        return Err(UrlSchemeError::NotBundled);
    }
    if !installed {
        return Err(UrlSchemeError::NotInstalled);
    }
    Ok(())
}

/// A path up to the end of its last name: without the slashes behind it, and without the
/// dots between them that stand for the directory itself.
pub open spec fn up_to_last_name(path: Seq<u8>) -> Seq<u8>
    decreases path.len(),
{
    if path.len() > 0 && path.last() == 0x2F {
        up_to_last_name(path.drop_last())
    } else if path.len() > 1 && path.last() == 0x2E && path[path.len() - 2] == 0x2F {
        up_to_last_name(path.drop_last())
    } else {
        path
    }
}

/// Whether a path is a bundle's: its last name has the extension `app`. A name that is
/// nothing but `.app` has no extension.
pub open spec fn is_bundle_spec(path: Seq<u8>) -> bool {
    let named = up_to_last_name(path);
    let at = named.len() - 4;
    &&& at > 0
    &&& named[at - 1] != 0x2F
    &&& named.skip(at) == seq![0x2Eu8, 0x61u8, 0x70u8, 0x70u8]
}

/// Whether a path is a bundle's.
pub fn is_bundle(path: &[u8]) -> (bundle: bool)
    ensures
        bundle == is_bundle_spec(path@),
{
    let mut end: usize = path.len();
    assert(path@.take(end as int) =~= path@);
    while end > 0 && (path[end - 1] == 0x2F || (end > 1 && path[end - 1] == 0x2E && path[end - 2]
        == 0x2F))
        invariant
            end <= path@.len(),
            up_to_last_name(path@.take(end as int)) == up_to_last_name(path@),
        decreases end,
    {
        assert(path@.take(end as int).drop_last() =~= path@.take(end - 1));
        end -= 1;
    }
    let ghost named = path@.take(end as int);
    assert(up_to_last_name(path@) == named);
    if end <= 4 {
        return false;
    }
    let bundle: bool = path[end - 5] != 0x2F && path[end - 4] == 0x2E && path[end - 3] == 0x61
        && path[end - 2] == 0x70 && path[end - 1] == 0x70;
    proof {
        let tail = named.skip(end - 4);
        assert(tail.len() == 4);
        assert(tail[0] == path@[end - 4] && tail[1] == path@[end - 3] && tail[2] == path@[end - 2]
            && tail[3] == path@[end - 1]);
        if bundle {
            assert(tail =~= seq![0x2Eu8, 0x61u8, 0x70u8, 0x70u8]);
        }
    }
    bundle
}

/// What to open again when the app restarts.
pub open spec fn restarted(
    binary: Option<Vec<u8>>,
    app: Option<Vec<u8>>,
    program: Vec<u8>,
) -> Vec<u8> {
    match (binary, app) {
        (Some(binary), _) => binary,
        (None, Some(app)) if is_bundle_spec(app@) => app,
        _ => program,
    }
}

/// What to open again when the app restarts: the path it was given; else the app's,
/// if that is a bundle and not the directory of an unbundled one; else the program.
pub fn restart_path(binary: Option<Vec<u8>>, app: Option<Vec<u8>>, program: Vec<u8>) -> (path: Vec<
    u8,
>)
    ensures
        path == restarted(binary, app, program),
{
    if let Some(binary) = binary {
        return binary;
    }
    if let Some(app) = app {
        if is_bundle(app.as_slice()) {
            return app;
        }
    }
    program
}

/// Success.
pub const ERR_SEC_SUCCESS: i32 = 0;

/// The user canceled.
pub const ERR_SEC_USER_CANCELED: i32 = -128;

/// There is no such item.
pub const ERR_SEC_ITEM_NOT_FOUND: i32 = -25300;

/// What failed on a password, with the system's status.
#[derive(Clone, Copy, Debug, PartialEq, Eq, Structural)]
pub enum CredentialError {
    Updating { status: i32 },
    Creating { status: i32 },
    Reading { status: i32 },
    Deleting { status: i32 },
}

/// What follows the attempt to update a password.
#[derive(Clone, Copy, Debug, PartialEq, Eq, Structural)]
pub enum CredentialStep {
    /// There was none: create it.
    Create,
    /// It is written.
    Written,
    Failed(CredentialError),
}

/// What follows the attempt to update a password.
pub open spec fn after_updating(status: i32) -> CredentialStep {
    if status == ERR_SEC_ITEM_NOT_FOUND {
        CredentialStep::Create
    } else if status == ERR_SEC_SUCCESS {
        CredentialStep::Written
    } else {
        CredentialStep::Failed(CredentialError::Updating { status })
    }
}

/// The outcome of creating a password.
pub open spec fn after_creating(status: i32) -> Result<(), CredentialError> {
    if status == ERR_SEC_SUCCESS {
        Ok(())
    } else {
        Err(CredentialError::Creating { status })
    }
}

/// Whether a password was found.
pub open spec fn after_reading(status: i32) -> Result<bool, CredentialError> {
    if status == ERR_SEC_SUCCESS {
        Ok(true)
    } else if status == ERR_SEC_ITEM_NOT_FOUND || status == ERR_SEC_USER_CANCELED {
        Ok(false)
    } else {
        Err(CredentialError::Reading { status })
    }
}

/// The outcome of deleting a password.
pub open spec fn after_deleting(status: i32) -> Result<(), CredentialError> {
    if status == ERR_SEC_SUCCESS {
        Ok(())
    } else {
        Err(CredentialError::Deleting { status })
    }
}

/// What follows the attempt to update a password.
pub fn credentials_updated(status: i32) -> (step: CredentialStep)
    ensures
        step == after_updating(status),
{
    if status == ERR_SEC_ITEM_NOT_FOUND {
        CredentialStep::Create
    } else if status == ERR_SEC_SUCCESS {
        CredentialStep::Written
    } else {
        CredentialStep::Failed(CredentialError::Updating { status })
    }
}

/// The outcome of creating a password.
pub fn credentials_created(status: i32) -> (result: Result<(), CredentialError>)
    ensures
        result == after_creating(status),
{
    if status == ERR_SEC_SUCCESS {
        Ok(())
    } else {
        Err(CredentialError::Creating { status })
    }
}

/// Whether a password was found; a user that canceled has none.
pub fn credentials_read(status: i32) -> (result: Result<bool, CredentialError>)
    ensures
        result == after_reading(status),
{
    if status == ERR_SEC_SUCCESS {
        Ok(true)
    } else if status == ERR_SEC_ITEM_NOT_FOUND || status == ERR_SEC_USER_CANCELED {
        Ok(false)
    } else {
        Err(CredentialError::Reading { status })
    }
}

/// The outcome of deleting a password.
pub fn credentials_deleted(status: i32) -> (result: Result<(), CredentialError>)
    ensures
        result == after_deleting(status),
{
    if status == ERR_SEC_SUCCESS {
        Ok(())
    } else {
        Err(CredentialError::Deleting { status })
    }
}

/// The slots are independent.
pub proof fn platform_slots_are_independent(
    callbacks: PlatformCallbacks,
    slot: PlatformSlot,
    other: PlatformSlot,
    callback: Option<Callback>,
    running: Callback,
)
    ensures
        callbacks.with(slot, callback).at(other) == if slot == other {
            callback
        } else {
            callbacks.at(other)
        },
        slot != other ==> callbacks.restored(slot, running).at(other) == callbacks.at(other),
        callbacks.with(slot, None).with(slot, callbacks.at(slot)) == callbacks,
{
}

/// A window is a consumer's exactly where a connection was wanted for it and taken; a popup
/// is always rejected, and a process that does not embed opens native windows alone.
pub proof fn windows_are_for_who_is_connected(embedding: bool, is_popup: bool, connected: bool)
    ensures
        open_choice(embedding, is_popup, connected) == OpenChoice::Embedded <==> embedding
            && !is_popup && connected,
        open_choice(embedding, is_popup, connected) == OpenChoice::Rejected <==> is_popup,
        open_choice(embedding, is_popup, connected) == OpenChoice::Native <==> !is_popup
            && !(embedding && connected),
{
}

/// An app is told of its launch once, and the system's waking up is observed once: launching
/// again leaves nothing to call and nothing to observe. A process with an endpoint has no
/// icon of its own. All else stays as it was.
pub proof fn an_app_launches_once(platform: MacPlatform, endpoint: bool, again: bool)
    ensures
        platform.launch_effects(endpoint).policy == ActivationPolicy::Accessory <==> endpoint,
        platform.launch_effects(endpoint).callback == platform.finish_launching,
        platform.launched().launch_effects(again).callback is None,
        !platform.launched().launch_effects(again).observe_wake,
        platform.launch_effects(endpoint).observe_wake ==> platform.callbacks.system_wake is Some,
        platform.launch_effects(endpoint).observe_wake
            || platform.system_wake_observer_registered || platform.callbacks.system_wake is None,
        platform.launched().callbacks == platform.callbacks,
        platform.launched().clipboard == platform.clipboard,
        platform.launched().embedding == platform.embedding,
        platform.launched().menus == platform.menus,
        platform.launched().cursor_visible == platform.cursor_visible,
{
}

/// The system's numbers for how hot it is go up: 1 is fair, 2 serious and 3 critical, and
/// every other number is nominal.
pub proof fn heat_goes_by_its_number(state: i64)
    ensures
        thermal_state_spec(state) == ThermalState::Fair <==> state == 1,
        thermal_state_spec(state) == ThermalState::Serious <==> state == 2,
        thermal_state_spec(state) == ThermalState::Critical <==> state == 3,
        thermal_state_spec(state) == ThermalState::Nominal <==> state < 1 || state > 3,
{
}

/// A URL scheme can be registered by an app that is bundled and installed, on every system
/// from version 12 on; what is said else is the first thing that is lacking.
pub proof fn schemes_need_an_installed_bundle(os: OsVersion, bundled: bool, installed: bool)
    ensures
        url_scheme(os, bundled, installed) is Ok <==> os.major >= 12 && bundled && installed,
        url_scheme(os, bundled, installed) == Err::<(), UrlSchemeError>(
            UrlSchemeError::SystemTooOld,
        ) <==> os.major < 12,
        url_scheme(os, bundled, installed) == Err::<(), UrlSchemeError>(UrlSchemeError::NotBundled)
            <==> os.major >= 12 && !bundled,
        url_scheme(os, bundled, installed) == Err::<(), UrlSchemeError>(
            UrlSchemeError::NotInstalled,
        ) <==> os.major >= 12 && bundled && !installed,
{
}

/// A path is a bundle's where its last name has something in front of `.app`, whatever
/// directory it is in. A slash behind it changes nothing, nor does a dot behind that.
pub proof fn bundles_end_in_app(front: Seq<u8>, path: Seq<u8>)
    ensures
        ({
            let app = seq![0x2Eu8, 0x61u8, 0x70u8, 0x70u8];
            &&& is_bundle_spec(front + app) <==> front.len() > 0 && front.last() != 0x2F
            &&& is_bundle_spec(path.push(0x2F)) <==> is_bundle_spec(path)
            &&& is_bundle_spec(path.push(0x2F).push(0x2E)) <==> is_bundle_spec(path)
        }),
{
    let app = seq![0x2Eu8, 0x61u8, 0x70u8, 0x70u8];
    let whole = front + app;
    reveal_with_fuel(up_to_last_name, 3);
    assert(whole.last() == 0x70);
    assert(whole.skip(front.len() as int) =~= app);
    assert(path.push(0x2F).drop_last() =~= path);
    assert(path.push(0x2F).push(0x2E).drop_last() =~= path.push(0x2F));
}

/// A path that ends in a name of its own is a bundle's only where the name ends in `.app`.
pub proof fn other_names_are_no_bundles(path: Seq<u8>)
    requires
        path.len() > 0,
        path.last() != 0x2F,
        path.last() != 0x2E,
    ensures
        is_bundle_spec(path) ==> path.len() > 4 && path[path.len() - 4] == 0x2E && path[path.len()
            - 3] == 0x61 && path[path.len() - 2] == 0x70 && path[path.len() - 1] == 0x70
            && path[path.len() - 5] != 0x2F,
{
    if is_bundle_spec(path) {
        let tail = path.skip(path.len() - 4);
        assert(tail[0] == 0x2E && tail[1] == 0x61 && tail[2] == 0x70 && tail[3] == 0x70);
    }
}

/// What is opened again is the path that was given, if one was; the app's is opened only
/// where it is a bundle's, and else the program.
pub proof fn a_given_path_is_opened_again(
    binary: Option<Vec<u8>>,
    app: Option<Vec<u8>>,
    program: Vec<u8>,
)
    ensures
        binary matches Some(given) ==> restarted(binary, app, program) == given,
        binary is None && app is None ==> restarted(binary, app, program) == program,
        binary is None ==> (app matches Some(bundle) ==> restarted(binary, app, program)
            == if is_bundle_spec(bundle@) {
            bundle
        } else {
            program
        }),
{
}

/// What is said of a password is what the system said: success is zero, and there being none
/// is no error of reading it, nor is a user who canceled. Every other status is an error of
/// the very thing that was tried, and says the status.
pub proof fn passwords_go_by_the_system(status: i32)
    ensures
        after_updating(status) == CredentialStep::Written <==> status == 0,
        after_updating(status) == CredentialStep::Create <==> status == -25300,
        after_updating(status) matches CredentialStep::Failed(error) ==> error
            == (CredentialError::Updating { status }),
        after_creating(status) is Ok <==> status == 0,
        after_creating(status) matches Err(error) ==> error == (CredentialError::Creating {
            status,
        }),
        after_reading(status) == Ok::<bool, CredentialError>(true) <==> status == 0,
        after_reading(status) == Ok::<bool, CredentialError>(false) <==> status == -25300 || status
            == -128,
        after_reading(status) matches Err(error) ==> error == (CredentialError::Reading { status }),
        after_deleting(status) is Ok <==> status == 0,
        after_deleting(status) matches Err(error) ==> error == (CredentialError::Deleting {
            status,
        }),
{
}

/// An app is told once that it has launched: a headless one at once, another when it has.
pub proof fn an_app_is_told_when_it_launches(platform: MacPlatform, callback: Callback, endpoint: bool)
    ensures
        platform.headless ==> platform.called_at_once(callback) == Some(callback)
            && platform.starting(callback) == platform,
        !platform.headless ==> platform.called_at_once(callback) is None && platform.starting(
            callback,
        ).launch_effects(endpoint).callback == Some(callback),
        platform.starting(callback).callbacks == platform.callbacks,
        platform.starting(callback).embedding == platform.embedding,
        platform.starting(callback).launched().finish_launching is None,
{
}

/// A connection is taken exactly where the window that it is for would open on it.
pub proof fn a_connection_is_taken_for_who_opens_on_it(platform: MacPlatform, is_popup: bool)
    ensures
        platform.wants(is_popup) <==> open_choice(platform.embedding, is_popup, true)
            == OpenChoice::Embedded,
        is_popup ==> !platform.wants(is_popup),
{
}

/// An embed session leaves the system's cursor and pasteboard alone, and every other one
/// leaves the consumer's. What was copied in an embed session is what is pasted in it.
pub proof fn an_embed_keeps_to_its_consumer(
    platform: MacPlatform,
    style: CursorStyle,
    text: String,
)
    ensures
        platform.native_cursor(style) is None <==> platform.embedding,
        platform.native_cursor(style) matches Some(set) ==> set == style,
        platform.pasted() is Native <==> !platform.embedding,
        platform.embedding ==> platform.after_copy(Some(text)).pasted() == ClipboardRead::Embedded(
            Some(text),
        ),
        platform.embedding ==> platform.after_copy(None).pasted() == platform.pasted(),
        !platform.embedding ==> platform.after_copy(Some(text)) == platform,
        platform.after_copy(Some(text)).callbacks == platform.callbacks,
        platform.after_copy(Some(text)).clipboard.owner == platform.clipboard.owner,
{
}

/// The system is told once to hide the cursor, and hiding changes nothing else.
pub proof fn a_hidden_cursor_is_not_hidden_again(platform: MacPlatform)
    ensures
        !platform.hidden().cursor_visible,
        platform.hidden().hidden() == platform.hidden(),
        platform.hidden().callbacks == platform.callbacks,
        platform.hidden().pending_cursor == platform.pending_cursor,
        platform.hidden().clipboard == platform.clipboard,
        platform.hidden().embedding == platform.embedding,
{
}

/// The system's waking up is observed once, as soon as there is a delegate, be it when a
/// callback is registered or when the app has launched; the callback is the last one.
pub proof fn waking_up_is_observed_once(
    platform: MacPlatform,
    callback: Callback,
    next: Callback,
    has_delegate: bool,
    endpoint: bool,
)
    ensures
        platform.observes_now(has_delegate) ==> has_delegate
            && !platform.system_wake_observer_registered,
        has_delegate ==> platform.observes_now(true) || platform.system_wake_observer_registered,
        has_delegate ==> !platform.waking(callback, has_delegate).observes_now(true),
        has_delegate ==> !platform.waking(callback, has_delegate).launch_effects(
            endpoint,
        ).observe_wake,
        !has_delegate && !platform.system_wake_observer_registered ==> platform.waking(
            callback,
            has_delegate,
        ).launch_effects(endpoint).observe_wake,
        platform.waking(callback, has_delegate).callbacks.at(PlatformSlot::SystemWake) == Some(
            callback,
        ),
        platform.waking(callback, has_delegate).waking(next, has_delegate) == platform.waking(
            next,
            has_delegate,
        ),
{
}

/// An app that has open windows is not told that it was opened again; another is, by its
/// callback for that.
pub proof fn only_an_app_without_windows_reopens(platform: MacPlatform, has_open_windows: bool)
    ensures
        has_open_windows ==> platform.reopens(has_open_windows) is None,
        !has_open_windows ==> platform.reopens(has_open_windows) == platform.callbacks.at(
            PlatformSlot::Reopen,
        ),
{
}

/// An item is handed to its callback with the action that its tag numbers, and to none
/// without a callback. While it is called its slot is empty, and the others are as they were.
pub proof fn an_item_is_handed_over_with_its_action(
    platform: MacPlatform,
    slot: PlatformSlot,
    other: PlatformSlot,
    tag: i64,
)
    ensures
        platform.item_call(slot, tag).0 == platform.callbacks.at(slot),
        platform.item_call(slot, tag).1 matches Some(action) ==> {
            &&& platform.callbacks.at(slot) is Some
            &&& 0 <= tag < platform.menus.actions@.len()
            &&& action == platform.menus.actions@[tag as int]
        },
        platform.callbacks.at(slot) is Some && 0 <= tag < platform.menus.actions@.len()
            ==> platform.item_call(slot, tag).1 is Some,
        platform.calling(slot).callbacks.at(other) == if other == slot {
            None
        } else {
            platform.callbacks.at(other)
        },
        platform.calling(slot).menus == platform.menus,
        platform.calling(slot).embedding == platform.embedding,
        platform.calling(slot).clipboard == platform.clipboard,
{
}

} // verus!
