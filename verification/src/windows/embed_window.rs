//! The window that a Windows session renders into.

use vstd::prelude::*;

use crate::scale::{adopt, adopted, INITIAL_SCALE, MAX_SCALE, MIN_SCALE};
use crate::window::{
    Bounds, Callback, LogicalSize, PixelSize, Slot, WindowBackgroundAppearance, WindowCore,
};

verus! {

/// The window of a session. Frames alternate between two textures, because the
/// consumer samples asynchronously: with one, the next frame's writes would land in
/// what it is reading.
pub struct EmbedWindow {
    pub core: WindowCore,
    /// The texture that the next frame draws into.
    pub next_buffer: usize,
    /// The size of the textures.
    pub shared: PixelSize,
    /// The size of a frame, which is what the consumer sends.
    pub pixels: PixelSize,
    /// The consumer's scale, in hundredths.
    pub scale_percent: u32,
    /// Whether there is a consumer's process to share textures with.
    pub has_consumer: bool,
    /// Called with the handles of new textures.
    pub reshare: Option<Callback>,
    /// Called with a finished frame.
    pub on_frame: Option<Callback>,
}

/// How allocating new textures went.
#[derive(Clone, Copy, Debug, PartialEq, Eq, Structural)]
pub enum Reallocation {
    /// They could not be allocated.
    NotAllocated,
    /// The renderer could not be pointed at them.
    NotRetargeted,
    /// They are in use, but could not be shared with the consumer.
    NotShared,
    /// They are in use, with these handles in the consumer's process.
    Shared { first: i64, second: i64 },
}

/// New textures to tell the consumer of.
#[derive(Clone, Copy, Debug, PartialEq, Eq, Structural)]
pub struct Reshare {
    /// Call this with the handles and the size.
    pub callback: Option<Callback>,
    pub first: i64,
    pub second: i64,
    pub size: PixelSize,
}

/// What a new size leaves to do, in this order.
#[derive(Clone, Copy, Debug, PartialEq, Eq, Structural)]
pub struct ResizeEffects {
    pub reshare: Option<Reshare>,
    /// Call this with the size and the scale, then put it back.
    pub callback: Option<Callback>,
    pub size: LogicalSize,
    pub scale_percent: u32,
}

/// A finished frame to tell the consumer of.
#[derive(Clone, Copy, Debug, PartialEq, Eq, Structural)]
pub struct FinishedFrame {
    pub callback: Option<Callback>,
    pub index: usize,
    pub size: PixelSize,
    pub fence_value: u64,
}

/// At least one.
pub open spec fn at_least_one(value: u32) -> u32 {
    if value < 1 {
        1
    } else {
        value
    }
}

impl EmbedWindow {
    /// The scale is one that can be adopted, the next texture exists, and no side is
    /// empty.
    pub open spec fn wf(self) -> bool {
        &&& MIN_SCALE <= self.scale_percent <= MAX_SCALE
        &&& self.pixels.width > 0 && self.pixels.height > 0
        &&& self.next_buffer < 2
    }

    /// The state of a new window.
    pub open spec fn fresh(
        bounds: Bounds,
        width: u32,
        height: u32,
        has_consumer: bool,
    ) -> EmbedWindow {
        EmbedWindow {
            core: WindowCore::fresh(bounds),
            next_buffer: 0,
            shared: PixelSize { width, height },
            pixels: PixelSize { width, height },
            scale_percent: INITIAL_SCALE,
            has_consumer,
            reshare: None,
            on_frame: None,
        }
    }

    /// A new window, with two textures of so many device pixels.
    pub fn new(bounds: Bounds, width: u32, height: u32, has_consumer: bool) -> (window: EmbedWindow)
        requires
            width > 0,
            height > 0,
        ensures
            window.wf(),
            window == EmbedWindow::fresh(bounds, width, height, has_consumer),
    {
        EmbedWindow {
            core: WindowCore::new(bounds),
            next_buffer: 0,
            shared: PixelSize { width, height },
            pixels: PixelSize { width, height },
            scale_percent: INITIAL_SCALE,
            has_consumer,
            reshare: None,
            on_frame: None,
        }
    }

    /// The size of the textures that a display area of the consumer needs, if it needs any.
    pub open spec fn allocation(self, width: u32, height: u32, extent: LogicalSize) -> Option<
        PixelSize,
    > {
        if self.core.bounds.size.same(extent) {
            None
        } else {
            Some(PixelSize { width: at_least_one(width), height: at_least_one(height) })
        }
    }

    /// The window while textures of a size are being allocated.
    pub open spec fn resizing(self, size: PixelSize, extent: LogicalSize) -> EmbedWindow {
        EmbedWindow {
            core: WindowCore {
                bounds: Bounds { size: extent, ..self.core.bounds },
                ..self.core
            },
            pixels: size,
            ..self
        }
    }

    /// Begins to match the consumer's display area: `extent` is the logical size, at the
    /// window's scale, of at least one by one pixels. Where that is the size already
    /// nothing happens. Else two textures of the returned size are to be allocated, the
    /// renderer pointed at the first and, if there is a consumer, both shared with it.
    pub fn begin_resize(&mut self, width: u32, height: u32, extent: LogicalSize) -> (allocate: Option<
        PixelSize,
    >)
        requires
            old(self).wf(),
        ensures
            final(self).wf(),
            allocate == old(self).allocation(width, height, extent),
            *final(self) == match allocate {
                Some(size) => old(self).resizing(size, extent),
                None => *old(self),
            },
    {
        let size = PixelSize {
            width: if width < 1 {
                1
            } else {
                width
            },
            height: if height < 1 {
                1
            } else {
                height
            },
        };
        if self.core.bounds.size.equals(extent) {
            return None;
        }
        self.core.bounds.size = extent;
        self.pixels = size;
        Some(size)
    }

    /// What the end of a resize leaves to do.
    pub open spec fn resize_effects(self, reallocation: Reallocation) -> ResizeEffects {
        ResizeEffects {
            reshare: match reallocation {
                Reallocation::Shared { first, second } => Some(
                    Reshare {
                        callback: self.reshare,
                        first: if self.has_consumer {
                            first
                        } else {
                            0
                        },
                        second: if self.has_consumer {
                            second
                        } else {
                            0
                        },
                        size: self.pixels,
                    },
                ),
                _ => None,
            },
            callback: self.core.callbacks.resize,
            size: self.core.bounds.size,
            scale_percent: self.scale_percent,
        }
    }

    /// The window after a resize, while its resize callback is being called.
    pub open spec fn resized(self, reallocation: Reallocation) -> EmbedWindow {
        let in_use = reallocation is Shared || reallocation is NotShared;
        EmbedWindow {
            core: WindowCore {
                callbacks: self.core.callbacks.with(Slot::Resize, None),
                force_frame: self.core.force_frame || in_use,
                ..self.core
            },
            next_buffer: if in_use {
                0
            } else {
                self.next_buffer
            },
            shared: if in_use {
                self.pixels
            } else {
                self.shared
            },
            ..self
        }
    }

    /// Ends a resize. Textures in use start over with the first, and are blank even if
    /// the scene is the same, so that the next frame is forced. Only those that are
    /// shared are told of; the app lays out anew in any case.
    pub fn finish_resize(&mut self, reallocation: Reallocation) -> (effects: ResizeEffects)
        requires
            old(self).wf(),
        ensures
            final(self).wf(),
            effects == old(self).resize_effects(reallocation),
            *final(self) == old(self).resized(reallocation),
    {
        let reshare: Option<Reshare> = match reallocation {
            Reallocation::NotAllocated => None,
            Reallocation::NotRetargeted => None,
            Reallocation::NotShared => {
                self.next_buffer = 0;
                self.core.force_frame = true;
                self.shared = self.pixels;
                None
            },
            Reallocation::Shared { first, second } => {
                self.next_buffer = 0;
                self.core.force_frame = true;
                self.shared = self.pixels;
                let (first, second): (i64, i64) = if self.has_consumer {
                    (first, second)
                } else {
                    (0, 0)
                };
                Some(Reshare { callback: self.reshare, first, second, size: self.pixels })
            },
        };
        let callback: Option<Callback> = self.core.callbacks.take(Slot::Resize);
        ResizeEffects {
            reshare,
            callback,
            size: self.core.bounds.size,
            scale_percent: self.scale_percent,
        }
    }

    /// The window at a scale that is reported, while its resize callback is being called
    /// if it is.
    pub open spec fn rescaled(self, percent: u32, extent: LogicalSize) -> EmbedWindow {
        match adopted(percent) {
            Some(scale) if scale != self.scale_percent => EmbedWindow {
                core: WindowCore {
                    bounds: Bounds { size: extent, ..self.core.bounds },
                    force_frame: true,
                    callbacks: self.core.callbacks.with(Slot::Resize, None),
                    ..self.core
                },
                scale_percent: scale,
                ..self
            },
            _ => self,
        }
    }

    /// What a scale that is reported leaves to do.
    pub open spec fn scale_effects(self, percent: u32, extent: LogicalSize) -> Option<
        ResizeEffects,
    > {
        match adopted(percent) {
            Some(scale) if scale != self.scale_percent => Some(
                ResizeEffects {
                    reshare: None,
                    callback: self.core.callbacks.resize,
                    size: extent,
                    scale_percent: scale,
                },
            ),
            _ => None,
        }
    }

    /// Adopts a scale: `extent` is the logical size of the window's pixels at what
    /// [`adopt`] makes of it. The textures keep their pixels; every one of them is drawn
    /// anew. Zero, and the scale the window has, change nothing.
    pub fn set_scale(&mut self, percent: u32, extent: LogicalSize) -> (effects: Option<
        ResizeEffects,
    >)
        requires
            old(self).wf(),
        ensures
            final(self).wf(),
            effects == old(self).scale_effects(percent, extent),
            *final(self) == old(self).rescaled(percent, extent),
    {
        let scale: u32 = match adopt(percent) {
            Some(scale) => scale,
            None => return None,
        };
        if scale == self.scale_percent {
            return None;
        }
        self.scale_percent = scale;
        self.core.force_frame = true;
        self.core.bounds.size = extent;
        let callback: Option<Callback> = self.core.callbacks.take(Slot::Resize);
        Some(ResizeEffects { reshare: None, callback, size: extent, scale_percent: scale })
    }

    /// Marks the window active once, when one of the callbacks for it is registered.
    pub fn ensure_active(&mut self) -> (calls: Option<(Option<Callback>, Option<Callback>)>)
        requires
            old(self).wf(),
        ensures
            final(self).wf(),
            calls == old(self).core.activation(),
            *final(self) == if calls is Some {
                EmbedWindow { core: old(self).core.after_activation(), ..*old(self) }
            } else {
                *old(self)
            },
    {
        self.core.ensure_active()
    }

    /// Asks for a background. Frames stay opaque whatever is asked for.
    pub fn set_background_appearance(&mut self, background: WindowBackgroundAppearance)
        requires
            old(self).wf(),
        ensures
            *final(self) == *old(self),
    {
    }

    /// The background of the frames.
    pub fn background_appearance(&self) -> (background: WindowBackgroundAppearance)
        ensures
            background == WindowBackgroundAppearance::Opaque,
    {
        WindowBackgroundAppearance::Opaque
    }

    /// The window after a frame: textures take turns.
    pub open spec fn after_draw(self) -> EmbedWindow {
        EmbedWindow { next_buffer: (1 - self.next_buffer) as usize, ..self }
    }

    /// The texture that a frame is drawn into, if it is drawn.
    pub open spec fn drawn_texture(self, bound: bool) -> Option<usize> {
        if bound {
            Some(self.next_buffer)
        } else {
            None
        }
    }

    /// The texture of the next frame, given whether it could be bound. A texture that
    /// was bound is drawn into, and the next frame takes the other one.
    pub fn draw(&mut self, bound: bool) -> (index: Option<usize>)
        requires
            old(self).wf(),
        ensures
            final(self).wf(),
            index == old(self).drawn_texture(bound),
            *final(self) == if index is Some {
                old(self).after_draw()
            } else {
                *old(self)
            },
    {
        if !bound {
            return None;
        }
        let index: usize = self.next_buffer;
        self.next_buffer = 1 - index;
        Some(index)
    }

    /// What to tell the consumer of a frame.
    pub open spec fn finished(self, index: usize, fence_value: Option<u64>) -> Option<
        FinishedFrame,
    > {
        match fence_value {
            Some(fence_value) => Some(
                FinishedFrame { callback: self.on_frame, index, size: self.pixels, fence_value },
            ),
            None => None,
        }
    }

    /// What to tell the consumer of a frame that was drawn: nothing where its
    /// completion cannot be signalled, for the consumer would sample what is not
    /// there yet.
    pub fn finish_draw(&self, index: usize, fence_value: Option<u64>) -> (frame: Option<
        FinishedFrame,
    >)
        ensures
            frame == self.finished(index, fence_value),
    {
        match fence_value {
            Some(fence_value) => Some(
                FinishedFrame { callback: self.on_frame, index, size: self.pixels, fence_value },
            ),
            None => None,
        }
    }
}

/// Two frames in a row never land in one texture, and every other frame lands in the
/// same.
pub proof fn textures_alternate(window: EmbedWindow)
    requires
        window.wf(),
    ensures
        window.after_draw().wf(),
        window.after_draw().next_buffer != window.next_buffer,
        window.after_draw().after_draw() == window,
{
}

/// A new window is as large as it is made, with textures of that size, at the scale of one;
/// the first texture is first.
pub proof fn a_new_window_starts_with_the_first_texture(
    bounds: Bounds,
    width: u32,
    height: u32,
    has_consumer: bool,
)
    ensures
        ({
            let window = EmbedWindow::fresh(bounds, width, height, has_consumer);
            &&& window.core == WindowCore::fresh(bounds)
            &&& window.next_buffer == 0
            &&& window.pixels.width == width && window.pixels.height == height
            &&& window.shared == window.pixels
            &&& window.scale_percent == 100
            &&& window.has_consumer == has_consumer
            &&& window.reshare is None && window.on_frame is None
        }),
{
}

/// Textures are allocated exactly where the window has another logical size, as large as
/// the consumer's area but never empty. While they are, the window has both sizes and all
/// else as before.
pub proof fn textures_are_as_large_as_the_area(
    window: EmbedWindow,
    width: u32,
    height: u32,
    extent: LogicalSize,
)
    requires
        window.wf(),
    ensures
        window.allocation(width, height, extent) is None <==> window.core.bounds.size.same(extent),
        window.allocation(width, height, extent) matches Some(size) ==> {
            &&& size.width >= 1 && size.height >= 1
            &&& width >= 1 ==> size.width == width
            &&& height >= 1 ==> size.height == height
            &&& width == 0 ==> size.width == 1
            &&& height == 0 ==> size.height == 1
            &&& window.resizing(size, extent).wf()
            &&& window.resizing(size, extent).pixels == size
            &&& window.resizing(size, extent).core.bounds.size == extent
            &&& window.resizing(size, extent).core.bounds.x_bits == window.core.bounds.x_bits
            &&& window.resizing(size, extent).core.bounds.y_bits == window.core.bounds.y_bits
            &&& window.resizing(size, extent).core.callbacks == window.core.callbacks
            &&& window.resizing(size, extent).core.force_frame == window.core.force_frame
            &&& window.resizing(size, extent).shared == window.shared
            &&& window.resizing(size, extent).next_buffer == window.next_buffer
            &&& window.resizing(size, extent).scale_percent == window.scale_percent
        },
{
}

/// A consumer is told of textures that are shared with it, by their own handles and their
/// size, and of none that are not. The app is told the window's size in any case.
pub proof fn only_shared_textures_are_told_of(window: EmbedWindow, reallocation: Reallocation)
    ensures
        ({
            let effects = window.resize_effects(reallocation);
            &&& effects.reshare is Some <==> reallocation is Shared
            &&& effects.reshare matches Some(reshare) ==> {
                &&& reshare.callback == window.reshare
                &&& reshare.size == window.pixels
                &&& !window.has_consumer ==> reshare.first == 0 && reshare.second == 0
                &&& window.has_consumer ==> reallocation == (Reallocation::Shared {
                    first: reshare.first,
                    second: reshare.second,
                })
            }
            &&& effects.callback == window.core.callbacks.at(Slot::Resize)
            &&& effects.size == window.core.bounds.size
            &&& effects.scale_percent == window.scale_percent
        }),
{
}

/// Textures that are in use start over with the first and force a frame; where the old ones
/// stay, so does whose turn it is. Nothing else changes but the callback that is called.
pub proof fn new_textures_start_over(window: EmbedWindow, reallocation: Reallocation, slot: Slot)
    requires
        window.wf(),
    ensures
        ({
            let after = window.resized(reallocation);
            &&& after.wf()
            &&& reallocation is Shared || reallocation is NotShared ==> {
                &&& after.next_buffer == 0
                &&& after.shared == window.pixels
                &&& after.core.force_frame
            }
            &&& reallocation is NotAllocated || reallocation is NotRetargeted ==> {
                &&& after.next_buffer == window.next_buffer
                &&& after.shared == window.shared
                &&& after.core.force_frame == window.core.force_frame
            }
            &&& after.pixels == window.pixels
            &&& after.scale_percent == window.scale_percent
            &&& after.core.bounds == window.core.bounds
            &&& after.core.title == window.core.title
            &&& after.reshare == window.reshare && after.on_frame == window.on_frame
            &&& after.core.callbacks.at(slot) == if slot == Slot::Resize {
                None
            } else {
                window.core.callbacks.at(slot)
            }
        }),
{
}

/// A scale is told where it is another one that can be adopted, and only then. The window
/// has it afterwards, with the same pixels and textures, and a second report of it changes
/// nothing.
pub proof fn a_scale_keeps_the_textures(window: EmbedWindow, percent: u32, extent: LogicalSize)
    requires
        window.wf(),
    ensures
        ({
            let after = window.rescaled(percent, extent);
            &&& after.wf()
            &&& after.pixels == window.pixels
            &&& after.shared == window.shared
            &&& after.next_buffer == window.next_buffer
            &&& percent != 0 ==> adopted(percent) == Some(after.scale_percent)
            &&& percent == 0 ==> after == window
            &&& after.scale_percent == window.scale_percent ==> after == window
            &&& after.scale_percent != window.scale_percent ==> {
                &&& after.core.bounds.size == extent
                &&& after.core.force_frame
            }
            &&& after.rescaled(percent, extent) == after
            &&& window.scale_effects(percent, extent) is Some <==> after.scale_percent
                != window.scale_percent
            &&& window.scale_effects(percent, extent) matches Some(effects) ==> {
                &&& effects.scale_percent == after.scale_percent
                &&& effects.size == extent
                &&& effects.reshare is None
                &&& effects.callback == window.core.callbacks.at(Slot::Resize)
            }
        }),
{
}

/// A frame is drawn into the texture whose turn it is, if that could be bound. The consumer
/// is told of it exactly where its end is signalled, and then of that texture, the window's
/// pixels and the value that the fence will have. Nothing changes but whose turn it is.
pub proof fn a_frame_is_told_of_once_it_is_signalled(
    window: EmbedWindow,
    bound: bool,
    index: usize,
    fence_value: Option<u64>,
)
    requires
        window.wf(),
    ensures
        window.drawn_texture(bound) is Some <==> bound,
        window.drawn_texture(bound) matches Some(texture) ==> texture == window.next_buffer,
        window.finished(index, fence_value) is Some <==> fence_value is Some,
        window.finished(index, fence_value) matches Some(frame) ==> {
            &&& frame.index == index
            &&& frame.size == window.pixels
            &&& fence_value == Some(frame.fence_value)
            &&& frame.callback == window.on_frame
        },
        window.after_draw().next_buffer + window.next_buffer == 1,
        window.after_draw().core == window.core,
        window.after_draw().pixels == window.pixels,
        window.after_draw().shared == window.shared,
        window.after_draw().scale_percent == window.scale_percent,
{
}

} // verus!
