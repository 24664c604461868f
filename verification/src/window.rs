//! What every embed window has: no native window stands behind it, frames and input
//! travel over a connection, and the app is told of both through the callbacks it
//! registered.
//!
//! A callback is called outside of this module. It is taken out of its slot first
//! and put back afterwards, so that a call from within the callback finds the slot
//! empty and does nothing.

use vstd::prelude::*;

verus! {

/// A registered callback, by the number it goes by.
#[derive(Clone, Copy, Debug, PartialEq, Eq, Structural)]
pub struct Callback {
    pub id: u64,
}

/// The callbacks that are called any number of times.
#[derive(Clone, Copy, Debug, PartialEq, Eq, Structural)]
pub enum Slot {
    RequestFrame,
    Input,
    Resize,
    ActiveStatusChange,
    HoverStatusChange,
    TitleChange,
}

/// The callbacks an app has registered with a window.
#[derive(Clone, Copy, Debug, PartialEq, Eq, Structural)]
pub struct Callbacks {
    pub request_frame: Option<Callback>,
    pub input: Option<Callback>,
    pub resize: Option<Callback>,
    pub active_status_change: Option<Callback>,
    pub hover_status_change: Option<Callback>,
    pub title_change: Option<Callback>,
}

impl Callbacks {
    /// None is registered.
    pub open spec fn none() -> Callbacks {
        Callbacks {
            request_frame: None,
            input: None,
            resize: None,
            active_status_change: None,
            hover_status_change: None,
            title_change: None,
        }
    }

    /// The callback in a slot.
    pub open spec fn at(self, slot: Slot) -> Option<Callback> {
        match slot {
            Slot::RequestFrame => self.request_frame,
            Slot::Input => self.input,
            Slot::Resize => self.resize,
            Slot::ActiveStatusChange => self.active_status_change,
            Slot::HoverStatusChange => self.hover_status_change,
            Slot::TitleChange => self.title_change,
        }
    }

    /// The same but for one slot.
    pub open spec fn with(self, slot: Slot, callback: Option<Callback>) -> Callbacks {
        match slot {
            Slot::RequestFrame => Callbacks { request_frame: callback, ..self },
            Slot::Input => Callbacks { input: callback, ..self },
            Slot::Resize => Callbacks { resize: callback, ..self },
            Slot::ActiveStatusChange => Callbacks { active_status_change: callback, ..self },
            Slot::HoverStatusChange => Callbacks { hover_status_change: callback, ..self },
            Slot::TitleChange => Callbacks { title_change: callback, ..self },
        }
    }

    /// No callback yet.
    pub fn new() -> (callbacks: Callbacks)
        ensures
            callbacks == Callbacks::none(),
    {
        Callbacks {
            request_frame: None,
            input: None,
            resize: None,
            active_status_change: None,
            hover_status_change: None,
            title_change: None,
        }
    }

    /// The callback in a slot.
    pub fn get(&self, slot: Slot) -> (callback: Option<Callback>)
        ensures
            callback == self.at(slot),
    {
        match slot {
            Slot::RequestFrame => self.request_frame,
            Slot::Input => self.input,
            Slot::Resize => self.resize,
            Slot::ActiveStatusChange => self.active_status_change,
            Slot::HoverStatusChange => self.hover_status_change,
            Slot::TitleChange => self.title_change,
        }
    }

    /// Fills or empties a slot.
    pub fn set(&mut self, slot: Slot, callback: Option<Callback>)
        ensures
            *final(self) == old(self).with(slot, callback),
    {
        match slot {
            Slot::RequestFrame => {
                self.request_frame = callback;
            },
            Slot::Input => {
                self.input = callback;
            },
            Slot::Resize => {
                self.resize = callback;
            },
            Slot::ActiveStatusChange => {
                self.active_status_change = callback;
            },
            Slot::HoverStatusChange => {
                self.hover_status_change = callback;
            },
            Slot::TitleChange => {
                self.title_change = callback;
            },
        }
    }

    /// Takes the callback out of a slot, to call it.
    pub fn take(&mut self, slot: Slot) -> (callback: Option<Callback>)
        ensures
            callback == old(self).at(slot),
            *final(self) == old(self).with(slot, None),
    {
        let callback: Option<Callback> = self.get(slot);
        self.set(slot, None);
        callback
    }
}

/// A size in logical pixels, each side the bits of an `f32`.
#[derive(Clone, Copy, Debug, PartialEq, Eq, Structural)]
pub struct LogicalSize {
    pub width_bits: u32,
    pub height_bits: u32,
}

/// A size in device pixels.
#[derive(Clone, Copy, Debug, PartialEq, Eq, Structural)]
pub struct PixelSize {
    pub width: u32,
    pub height: u32,
}

/// A window's place and size in logical pixels; the place, too, as bits.
#[derive(Clone, Copy, Debug, PartialEq, Eq, Structural)]
pub struct Bounds {
    pub x_bits: u32,
    pub y_bits: u32,
    pub size: LogicalSize,
}

/// Whether the `f32`s with these bits compare equal: the bits are the same and no
/// NaN, or both are a zero.
pub open spec fn same_number(a: u32, b: u32) -> bool {
    let nan = a % 0x8000_0000 > 0x7f80_0000;
    let zeros = a % 0x8000_0000 == 0 && b % 0x8000_0000 == 0;
    (a == b && !nan) || zeros
}

impl LogicalSize {
    /// Whether both sides are numbers.
    pub open spec fn is_number(self) -> bool {
        self.width_bits % 0x8000_0000 <= 0x7f80_0000 && self.height_bits % 0x8000_0000
            <= 0x7f80_0000
    }

    /// Whether the two sizes compare equal.
    pub open spec fn same(self, other: LogicalSize) -> bool {
        same_number(self.width_bits, other.width_bits) && same_number(
            self.height_bits,
            other.height_bits,
        )
    }

    /// Whether the two sizes compare equal.
    pub fn equals(self, other: LogicalSize) -> (equal: bool)
        ensures
            equal == self.same(other),
    {
        equal_numbers(self.width_bits, other.width_bits) && equal_numbers(
            self.height_bits,
            other.height_bits,
        )
    }
}

fn equal_numbers(a: u32, b: u32) -> (equal: bool)
    ensures
        equal == same_number(a, b),
{
    (a == b && a % 0x8000_0000 <= 0x7f80_0000) || (a % 0x8000_0000 == 0 && b % 0x8000_0000 == 0)
}

/// What a frame is asked for with.
#[derive(Clone, Copy, Debug, PartialEq, Eq, Structural)]
pub struct RequestFrameOptions {
    pub require_presentation: bool,
    pub force_render: bool,
}

/// What the pixels of a frame that nothing covers hold.
#[derive(Clone, Copy, Debug, PartialEq, Eq, Structural)]
pub enum WindowBackgroundAppearance {
    Opaque,
    Transparent,
    Blurred,
}

/// The state that every embed window has.
pub struct WindowCore {
    pub bounds: Bounds,
    pub title: Option<String>,
    pub is_fullscreen: bool,
    /// Force the next frame even where the app considers the window clean: the
    /// output can change without the scene, as when a consumer has just attached or
    /// the target was allocated anew.
    pub force_frame: bool,
    pub callbacks: Callbacks,
    /// Called once, when the connection is gone.
    pub close: Option<Callback>,
    /// Whether the app was told that the window is active and hovered.
    pub activated: bool,
    pub background: WindowBackgroundAppearance,
}

impl WindowCore {
    /// The state of a new window.
    pub open spec fn fresh(bounds: Bounds) -> WindowCore {
        WindowCore {
            bounds,
            title: None,
            is_fullscreen: false,
            force_frame: true,
            callbacks: Callbacks::none(),
            close: None,
            activated: false,
            background: WindowBackgroundAppearance::Opaque,
        }
    }

    /// A new window. Its first frame is forced: a fresh consumer has nothing.
    pub fn new(bounds: Bounds) -> (core: WindowCore)
        ensures
            core == WindowCore::fresh(bounds),
    {
        WindowCore {
            bounds,
            title: None,
            is_fullscreen: false,
            force_frame: true,
            callbacks: Callbacks::new(),
            close: None,
            activated: false,
            background: WindowBackgroundAppearance::Opaque,
        }
    }

    /// Registers a callback in place of an earlier one.
    pub fn register(&mut self, slot: Slot, callback: Callback)
        ensures
            *final(self) == old(self).with_callback(slot, Some(callback)),
    {
        self.callbacks.set(slot, Some(callback));
    }

    /// The window with another callback in a slot.
    pub open spec fn with_callback(self, slot: Slot, callback: Option<Callback>) -> WindowCore {
        WindowCore { callbacks: self.callbacks.with(slot, callback), ..self }
    }

    /// Puts back what was taken out of a slot. What was registered in between is
    /// lost.
    pub fn put_back(&mut self, slot: Slot, callback: Option<Callback>)
        ensures
            *final(self) == old(self).with_callback(slot, callback),
    {
        self.callbacks.set(slot, callback);
    }

    /// The window while its frame is being produced.
    pub open spec fn after_tick(self) -> WindowCore {
        WindowCore {
            force_frame: false,
            callbacks: self.callbacks.with(Slot::RequestFrame, None),
            ..self
        }
    }

    /// The callback that produces the next frame, and the options it is called with.
    pub open spec fn frame_request(self) -> (Option<Callback>, RequestFrameOptions) {
        (
            self.callbacks.request_frame,
            RequestFrameOptions {
                require_presentation: self.force_frame,
                force_render: self.force_frame,
            },
        )
    }

    /// Starts a frame: takes the callback that produces it, to be called with these
    /// options. The force is used up, whether a callback is there or not.
    pub fn tick_frame(&mut self) -> (request: (Option<Callback>, RequestFrameOptions))
        ensures
            request == old(self).frame_request(),
            *final(self) == old(self).after_tick(),
    {
        let forced: bool = self.force_frame;
        self.force_frame = false;
        let callback: Option<Callback> = self.callbacks.take(Slot::RequestFrame);
        (callback, RequestFrameOptions { require_presentation: forced, force_render: forced })
    }

    /// The window whose next frame is forced.
    pub open spec fn forced(self) -> WindowCore {
        WindowCore { force_frame: true, ..self }
    }

    /// Makes the next tick produce a frame even if the scene did not change.
    pub fn force_next_frame(&mut self)
        ensures
            *final(self) == old(self).forced(),
    {
        self.force_frame = true;
    }

    /// Takes the callback that gets an input event.
    pub fn dispatch_input(&mut self) -> (callback: Option<Callback>)
        ensures
            callback == old(self).callbacks.at(Slot::Input),
            *final(self) == old(self).with_callback(Slot::Input, None),
    {
        self.callbacks.take(Slot::Input)
    }

    /// The window with a close callback.
    pub open spec fn closing_with(self, callback: Callback) -> WindowCore {
        WindowCore { close: Some(callback), ..self }
    }

    /// Registers the callback that is called once when the connection is gone.
    pub fn on_close(&mut self, callback: Callback)
        ensures
            *final(self) == old(self).closing_with(callback),
    {
        self.close = Some(callback);
    }

    /// The window once its close callback was taken.
    pub open spec fn closed(self) -> WindowCore {
        WindowCore { close: None, ..self }
    }

    /// Takes the close callback for its one call.
    pub fn fire_close(&mut self) -> (callback: Option<Callback>)
        ensures
            callback == old(self).close,
            *final(self) == old(self).closed(),
    {
        self.close.take()
    }

    /// The window with a title, while the callback that gets it is being called.
    pub open spec fn titled(self, title: String) -> WindowCore {
        WindowCore {
            title: Some(title),
            callbacks: self.callbacks.with(Slot::TitleChange, None),
            ..self
        }
    }

    /// The title that is shown.
    pub open spec fn shown_title(self) -> Seq<char> {
        match self.title {
            Some(title) => title@,
            None => Seq::<char>::empty(),
        }
    }

    /// Sets the title, and takes the callback that gets it.
    pub fn set_title(&mut self, title: String) -> (callback: Option<Callback>)
        ensures
            callback == old(self).callbacks.at(Slot::TitleChange),
            *final(self) == old(self).titled(title),
    {
        self.title = Some(title);
        self.callbacks.take(Slot::TitleChange)
    }

    /// The title; empty where none was set.
    pub fn get_title(&self) -> (title: String)
        ensures
            title@ == self.shown_title(),
    {
        match &self.title {
            Some(title) => title.clone(),
            None => {
                let title = String::new();
                assert(title@ =~= Seq::<char>::empty());
                title
            },
        }
    }

    /// The window with a background.
    pub open spec fn with_background(self, background: WindowBackgroundAppearance) -> WindowCore {
        if self.background == background {
            self
        } else {
            WindowCore { background, force_frame: true, ..self }
        }
    }

    /// Sets the background. A change repaints: the scene is the same, but not what
    /// the pixels it does not cover will hold. Says whether it changed.
    pub fn set_background_appearance(&mut self, background: WindowBackgroundAppearance) -> (changed:
        bool)
        ensures
            changed == (old(self).background != background),
            *final(self) == old(self).with_background(background),
    {
        if self.background == background {
            return false;
        }
        self.background = background;
        self.force_frame = true;
        true
    }

    /// The window after its fullscreen state was flipped.
    pub open spec fn toggled(self) -> WindowCore {
        WindowCore { is_fullscreen: !self.is_fullscreen, ..self }
    }

    /// Flips whether the window is full screen.
    pub fn toggle_fullscreen(&mut self)
        ensures
            *final(self) == old(self).toggled(),
    {
        self.is_fullscreen = !self.is_fullscreen;
    }

    /// Whether the window is the active one: always, for there is no focus to lose. An app
    /// takes typed text only in an active window.
    pub fn is_active(&self) -> (active: bool)
        ensures
            active,
    {
        true
    }

    /// Whether the pointer is over the window: always, for the consumer forwards it. An
    /// app changes the cursor only over a hovered window.
    pub fn is_hovered(&self) -> (hovered: bool)
        ensures
            hovered,
    {
        true
    }

    /// Whether the app commits typed characters itself: no native window does.
    pub fn commits_key_char(&self) -> (commits: bool)
        ensures
            commits,
    {
        true
    }

    /// The window with a logical size.
    pub open spec fn sized(self, size: LogicalSize) -> WindowCore {
        WindowCore { bounds: Bounds { size, ..self.bounds }, ..self }
    }

    /// Sets the logical size that the app asked for.
    pub fn resize(&mut self, size: LogicalSize)
        ensures
            *final(self) == old(self).sized(size),
    {
        self.bounds.size = size;
    }

    /// Whether the window is now told active and hovered: once, and not before one of the
    /// callbacks for it is registered.
    pub open spec fn activates(self) -> bool {
        !self.activated && (self.callbacks.active_status_change is Some
            || self.callbacks.hover_status_change is Some)
    }

    /// The window while the callbacks for it are being called.
    pub open spec fn after_activation(self) -> WindowCore {
        WindowCore {
            activated: true,
            force_frame: true,
            callbacks: self.callbacks.with(Slot::ActiveStatusChange, None).with(
                Slot::HoverStatusChange,
                None,
            ),
            ..self
        }
    }

    /// The callbacks that tell the app: the one for activity, then the one for hovering.
    pub open spec fn activation(self) -> Option<(Option<Callback>, Option<Callback>)> {
        if self.activates() {
            Some((self.callbacks.active_status_change, self.callbacks.hover_status_change))
        } else {
            None
        }
    }

    /// Tells the window active and hovered, if it was not yet: takes the callbacks
    /// that are to be called with `true`. This waits until one of them is registered: a
    /// clock can tick before they are, and a window that was marked then would stay
    /// unfocused for good. A consumer that just became live gets a frame.
    pub fn ensure_active(&mut self) -> (calls: Option<(Option<Callback>, Option<Callback>)>)
        ensures
            calls == old(self).activation(),
            *final(self) == if calls is Some {
                old(self).after_activation()
            } else {
                *old(self)
            },
    {
        if self.activated {
            return None;
        }
        if self.callbacks.active_status_change.is_none()
            && self.callbacks.hover_status_change.is_none() {
            return None;
        }
        self.activated = true;
        self.force_frame = true;
        let active: Option<Callback> = self.callbacks.take(Slot::ActiveStatusChange);
        let hover: Option<Callback> = self.callbacks.take(Slot::HoverStatusChange);
        Some((active, hover))
    }
}

/// What [`WindowCore::tick_frame`] leaves once its callback was put back.
pub open spec fn ticked(core: WindowCore) -> WindowCore {
    core.after_tick().with_callback(Slot::RequestFrame, core.callbacks.request_frame)
}

/// The first tick of a window forces a frame. After any tick the next one does not,
/// without a reason in between, and leaves the window as it is: an idle window costs
/// nothing.
pub proof fn first_frame_is_forced_then_idle(bounds: Bounds, core: WindowCore)
    ensures
        WindowCore::fresh(bounds).force_frame,
        !ticked(core).force_frame,
        ticked(core).callbacks == core.callbacks,
        ticked(ticked(core)) == ticked(core),
{
}

/// A window is closed once: whatever comes second finds no callback.
pub proof fn closing_twice_closes_once(core: WindowCore)
    ensures
        core.closed().close is None,
        core.closed().closed() == core.closed(),
{
}

/// A window is told active once: with its callbacks put back, or with others
/// registered, it is not told again. A window without callbacks is not given up on: it is
/// told as soon as one is there.
pub proof fn a_window_is_told_active_once(
    core: WindowCore,
    active: Option<Callback>,
    hover: Option<Callback>,
)
    ensures
        !core.after_activation().with_callback(Slot::ActiveStatusChange, active).with_callback(
            Slot::HoverStatusChange,
            hover,
        ).activates(),
        !core.activated && (active is Some || hover is Some) ==> core.with_callback(
            Slot::ActiveStatusChange,
            active,
        ).with_callback(Slot::HoverStatusChange, hover).activates(),
{
}

/// Taking a callback out and putting it back changes nothing.
pub proof fn taken_and_put_back(callbacks: Callbacks, slot: Slot)
    ensures
        callbacks.with(slot, None).with(slot, callbacks.at(slot)) == callbacks,
{
}

/// The slots are independent.
pub proof fn slots_are_independent(
    callbacks: Callbacks,
    slot: Slot,
    other: Slot,
    callback: Option<Callback>,
)
    ensures
        callbacks.with(slot, callback).at(other) == if slot == other {
            callback
        } else {
            callbacks.at(other)
        },
{
}

/// Whether bits are those of a NaN: the exponent is all ones, and the fraction is not zero.
pub open spec fn is_nan(bits: u32) -> bool {
    bits / 0x80_0000 % 256 == 255 && bits % 0x80_0000 != 0
}

/// Two numbers compare equal where they are the same number: a NaN is no number and equals
/// nothing, the two zeros are one number, and else the bits are the same.
pub proof fn numbers_are_equal_by_value(a: u32, b: u32)
    ensures
        same_number(a, a) <==> !is_nan(a),
        same_number(a, b) <==> same_number(b, a),
        is_nan(a) ==> !same_number(a, b),
        same_number(a, b) && a != b ==> a % 0x8000_0000 == 0 && b % 0x8000_0000 == 0,
        same_number(0, 0x8000_0000),
{
}

/// Sizes compare equal where both sides do.
pub proof fn sizes_are_equal_by_both_sides(a: LogicalSize, b: LogicalSize)
    ensures
        a.same(b) <==> same_number(a.width_bits, b.width_bits) && same_number(
            a.height_bits,
            b.height_bits,
        ),
        a.same(b) <==> b.same(a),
        a.is_number() ==> a.same(a),
        a.is_number() <==> !is_nan(a.width_bits) && !is_nan(a.height_bits),
{
}

/// A window that is told active gets a frame and keeps all else: its callbacks but for the
/// two that are called, its title, its place and what it does when it closes.
pub proof fn telling_active_changes_nothing_else(core: WindowCore, slot: Slot)
    ensures
        core.after_activation().force_frame,
        core.after_activation().activated,
        core.after_activation().title == core.title,
        core.after_activation().bounds == core.bounds,
        core.after_activation().close == core.close,
        core.after_activation().background == core.background,
        core.after_activation().is_fullscreen == core.is_fullscreen,
        core.after_activation().callbacks.at(slot) == if slot == Slot::ActiveStatusChange || slot
            == Slot::HoverStatusChange {
            None
        } else {
            core.callbacks.at(slot)
        },
        core.activates() <==> !core.activated && (core.callbacks.at(Slot::ActiveStatusChange)
            is Some || core.callbacks.at(Slot::HoverStatusChange) is Some),
{
}

/// A new window has no callback, no title and no reason to be told anything; it is opaque
/// and not full screen, and its first frame is forced.
pub proof fn a_new_window_is_blank(bounds: Bounds, slot: Slot)
    ensures
        WindowCore::fresh(bounds).bounds == bounds,
        WindowCore::fresh(bounds).callbacks.at(slot) is None,
        WindowCore::fresh(bounds).close is None,
        WindowCore::fresh(bounds).title is None,
        WindowCore::fresh(bounds).force_frame,
        !WindowCore::fresh(bounds).activated,
        !WindowCore::fresh(bounds).is_fullscreen,
        WindowCore::fresh(bounds).background == WindowBackgroundAppearance::Opaque,
{
}

/// Asking for a frame takes the callback for it and the force, and nothing else.
pub proof fn a_tick_takes_only_the_frame(core: WindowCore, slot: Slot)
    ensures
        !core.after_tick().force_frame,
        core.after_tick().callbacks.at(slot) == if slot == Slot::RequestFrame {
            None
        } else {
            core.callbacks.at(slot)
        },
        core.after_tick().bounds == core.bounds,
        core.after_tick().title == core.title,
        core.after_tick().close == core.close,
        core.after_tick().activated == core.activated,
        core.after_tick().background == core.background,
        core.after_tick().is_fullscreen == core.is_fullscreen,
        core.closed().callbacks == core.callbacks,
        core.closed().force_frame == core.force_frame,
        core.closed().bounds == core.bounds,
        core.closed().title == core.title,
{
}

/// A frame is produced by the callback for frames, and is rendered and presented exactly
/// where it is forced.
pub proof fn a_frame_is_asked_of_its_callback(core: WindowCore)
    ensures
        core.frame_request().0 == core.callbacks.at(Slot::RequestFrame),
        core.frame_request().1.require_presentation == core.force_frame,
        core.frame_request().1.force_render == core.force_frame,
        core.forced().frame_request().1.force_render,
        core.forced().frame_request().0 == core.frame_request().0,
        core.forced().after_tick() == core.after_tick(),
{
}

/// The app is told by its own callbacks, activity before hovering, and by any at all only
/// where the window was not told before.
pub proof fn activity_is_told_by_its_callbacks(core: WindowCore)
    ensures
        core.activation() is Some <==> core.activates(),
        core.activation() matches Some((active, hover)) ==> {
            &&& active == core.callbacks.at(Slot::ActiveStatusChange)
            &&& hover == core.callbacks.at(Slot::HoverStatusChange)
            &&& active is Some || hover is Some
            &&& !core.activated
        },
        core.after_activation().activation() is None,
{
}

/// A title that was set is the one that is shown, and the last one counts; without one
/// nothing is shown. Nothing else changes but the callback that is being called.
pub proof fn a_title_is_shown_as_it_was_set(core: WindowCore, title: String, next: String, slot: Slot)
    ensures
        core.titled(title).shown_title() == title@,
        core.titled(title).titled(next) == core.titled(next),
        core.title is None ==> core.shown_title().len() == 0,
        core.titled(title).callbacks.at(slot) == if slot == Slot::TitleChange {
            None
        } else {
            core.callbacks.at(slot)
        },
        core.titled(title).bounds == core.bounds,
        core.titled(title).force_frame == core.force_frame,
        core.titled(title).close == core.close,
{
}

/// A background that is set is the one that the window has. Only another one forces a
/// frame, and nothing else changes.
pub proof fn another_background_repaints(core: WindowCore, background: WindowBackgroundAppearance)
    ensures
        core.with_background(background).background == background,
        core.background == background ==> core.with_background(background) == core,
        core.background != background ==> core.with_background(background).force_frame,
        core.with_background(background).with_background(background) == core.with_background(
            background,
        ),
        core.with_background(background).callbacks == core.callbacks,
        core.with_background(background).bounds == core.bounds,
        core.with_background(background).title == core.title,
        core.with_background(background).close == core.close,
{
}

/// Flipping twice flips nothing, and once always does.
pub proof fn toggling_twice_toggles_nothing(core: WindowCore)
    ensures
        core.toggled().toggled() == core,
        core.toggled().is_fullscreen != core.is_fullscreen,
        core.toggled().bounds == core.bounds,
        core.toggled().callbacks == core.callbacks,
        core.toggled().force_frame == core.force_frame,
{
}

/// The last size counts, and the window stays where it is.
pub proof fn a_size_moves_nothing(core: WindowCore, size: LogicalSize, next: LogicalSize)
    ensures
        core.sized(size).bounds.size == size,
        core.sized(size).sized(next) == core.sized(next),
        core.sized(core.bounds.size) == core,
        core.sized(size).bounds.x_bits == core.bounds.x_bits,
        core.sized(size).bounds.y_bits == core.bounds.y_bits,
        core.sized(size).callbacks == core.callbacks,
        core.sized(size).force_frame == core.force_frame,
{
}

/// What closes a window is the callback that was registered last, once.
pub proof fn the_last_close_callback_counts(core: WindowCore, first: Callback, last: Callback)
    ensures
        core.closing_with(last).close == Some(last),
        core.closing_with(first).closing_with(last) == core.closing_with(last),
        core.closing_with(last).closed() == core.closed(),
        core.closing_with(last).callbacks == core.callbacks,
{
}

/// A callback that is registered is the one in its slot, in place of any earlier one; the
/// other slots and the rest of the window stay.
pub proof fn a_registered_callback_is_there(
    core: WindowCore,
    slot: Slot,
    other: Slot,
    callback: Option<Callback>,
)
    ensures
        core.with_callback(slot, callback).callbacks.at(slot) == callback,
        other != slot ==> core.with_callback(slot, callback).callbacks.at(other)
            == core.callbacks.at(other),
        core.with_callback(slot, core.callbacks.at(slot)) == core,
        core.with_callback(slot, callback).bounds == core.bounds,
        core.with_callback(slot, callback).title == core.title,
        core.with_callback(slot, callback).close == core.close,
        core.with_callback(slot, callback).force_frame == core.force_frame,
        core.with_callback(slot, callback).activated == core.activated,
{
}

} // verus!
