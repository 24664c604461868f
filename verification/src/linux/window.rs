//! A window of the headless client.
//!
//! Without a renderer it discards every scene, which lets command-line tools drive
//! real window code without a display server. With one it renders offscreen for a
//! consumer.

use vstd::prelude::*;

use crate::window::{Bounds, Callback, LogicalSize, PixelSize, Slot, WindowCore};

verus! {

/// A window of the headless client.
pub struct HeadlessWindow {
    pub core: WindowCore,
    /// Whether an offscreen renderer draws the window.
    pub renders: bool,
}

/// What a resize leaves to do, in this order.
#[derive(Clone, Copy, Debug, PartialEq, Eq, Structural)]
pub struct ResizeEffects {
    /// Resize the offscreen target to this many device pixels.
    pub target: Option<PixelSize>,
    /// Call this with the size and the scale, then put it back.
    pub callback: Option<Callback>,
    pub size: LogicalSize,
    pub scale_percent: u32,
}

impl HeadlessWindow {
    /// The window at a new size, while its resize callback is being called.
    pub open spec fn resized(self, size: LogicalSize) -> HeadlessWindow {
        HeadlessWindow {
            core: WindowCore {
                bounds: Bounds { size, ..self.core.bounds },
                force_frame: true,
                callbacks: self.core.callbacks.with(Slot::Resize, None),
                ..self.core
            },
            ..self
        }
    }

    /// What a display area leaves to do.
    pub open spec fn resize_effects(self, width: u32, height: u32, size: LogicalSize) -> Option<
        ResizeEffects,
    > {
        if self.core.bounds.size.same(size) {
            None
        } else {
            Some(
                ResizeEffects {
                    target: if self.renders {
                        Some(PixelSize { width, height })
                    } else {
                        None
                    },
                    callback: self.core.callbacks.resize,
                    size,
                    scale_percent: 100,
                },
            )
        }
    }

    /// A window that discards its scenes.
    pub fn new(bounds: Bounds) -> (window: HeadlessWindow)
        ensures
            window == (HeadlessWindow { core: WindowCore::fresh(bounds), renders: false }),
    {
        HeadlessWindow { core: WindowCore::new(bounds), renders: false }
    }

    /// A window with an offscreen renderer.
    pub fn new_embed(bounds: Bounds) -> (window: HeadlessWindow)
        ensures
            window == (HeadlessWindow { core: WindowCore::fresh(bounds), renders: true }),
    {
        HeadlessWindow { core: WindowCore::new(bounds), renders: true }
    }

    /// Matches the consumer's display area: `size` is the logical extent of `width`
    /// by `height` device pixels, which here is the same number. Where that is the
    /// size already nothing happens. Else the target is resized, which leaves it
    /// blank even if the scene is identical, and the app lays out anew.
    pub fn resize_embed(&mut self, width: u32, height: u32, size: LogicalSize) -> (effects: Option<
        ResizeEffects,
    >)
        ensures
            effects == old(self).resize_effects(width, height, size),
            *final(self) == if effects is Some {
                old(self).resized(size)
            } else {
                *old(self)
            },
    {
        if self.core.bounds.size.equals(size) {
            return None;
        }
        self.core.bounds.size = size;
        self.core.force_frame = true;
        let target: Option<PixelSize> = if self.renders {
            Some(PixelSize { width, height })
        } else {
            None
        };
        let callback: Option<Callback> = self.core.callbacks.take(Slot::Resize);
        Some(ResizeEffects { target, callback, size, scale_percent: 100 })
    }

    /// Marks the window active once, when one of the callbacks for it is registered.
    pub fn ensure_active(&mut self) -> (calls: Option<(Option<Callback>, Option<Callback>)>)
        ensures
            calls == old(self).core.activation(),
            *final(self) == if calls is Some {
                HeadlessWindow { core: old(self).core.after_activation(), ..*old(self) }
            } else {
                *old(self)
            },
    {
        self.core.ensure_active()
    }

    /// Registers a callback for changes of the title. It is called right away with
    /// the title this returns.
    pub fn set_on_title(&mut self, callback: Callback) -> (current: Option<String>)
        ensures
            current == old(self).core.title,
            *final(self) == (HeadlessWindow {
                core: old(self).core.with_callback(Slot::TitleChange, Some(callback)),
                ..*old(self)
            }),
    {
        let current: Option<String> = match &self.core.title {
            Some(title) => Some(title.clone()),
            None => None,
        };
        self.core.register(Slot::TitleChange, callback);
        current
    }

    /// Whether a scene is drawn rather than discarded.
    pub fn draw(&self) -> (drawn: bool)
        ensures
            drawn == self.renders,
    {
        self.renders
    }
}

/// Asking twice for one size changes a window once.
pub proof fn resizing_twice_changes_once(window: HeadlessWindow, size: LogicalSize)
    requires
        size.is_number(),
    ensures
        window.resized(size).core.bounds.size.same(size),
{
}

/// A new size is told by the callback for sizes, with the scale of one, and the target has
/// as many pixels as the consumer's area; only a window that renders has a target. The size
/// that the window has is not told again.
pub proof fn a_resize_fills_the_area(
    window: HeadlessWindow,
    width: u32,
    height: u32,
    size: LogicalSize,
)
    ensures
        window.resize_effects(width, height, size) is None <==> window.core.bounds.size.same(size),
        window.resize_effects(width, height, size) matches Some(effects) ==> {
            &&& effects.target is Some <==> window.renders
            &&& effects.target matches Some(target) ==> target.width == width && target.height
                == height
            &&& effects.callback == window.core.callbacks.at(Slot::Resize)
            &&& effects.size == size
            &&& effects.scale_percent == 100
        },
        size.is_number() ==> window.resized(size).resize_effects(width, height, size) is None,
{
}

/// A resize gives the window its size and forces a frame; its place, its title and its
/// other callbacks stay.
pub proof fn a_resize_changes_nothing_else(window: HeadlessWindow, size: LogicalSize, slot: Slot)
    ensures
        window.resized(size).core.bounds.size == size,
        window.resized(size).core.bounds.x_bits == window.core.bounds.x_bits,
        window.resized(size).core.bounds.y_bits == window.core.bounds.y_bits,
        window.resized(size).core.force_frame,
        window.resized(size).core.title == window.core.title,
        window.resized(size).core.close == window.core.close,
        window.resized(size).core.activated == window.core.activated,
        window.resized(size).core.background == window.core.background,
        window.resized(size).core.is_fullscreen == window.core.is_fullscreen,
        window.resized(size).renders == window.renders,
        window.resized(size).core.callbacks.at(slot) == if slot == Slot::Resize {
            None
        } else {
            window.core.callbacks.at(slot)
        },
{
}

} // verus!
