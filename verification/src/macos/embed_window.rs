//! The window that a macOS session renders into.

use vstd::prelude::*;

use crate::macos::iosurface::EmbedSurfaces;
use crate::pixels::{image_length, swap_red_and_blue, swapped};
use crate::scale::{adopt, adopted, INITIAL_SCALE, MAX_SCALE, MIN_SCALE};
use crate::window::{
    Bounds, Callback, LogicalSize, PixelSize, Slot, WindowBackgroundAppearance, WindowCore,
};

verus! {

/// Frames alternate between this many surfaces, so that none is rendered into the
/// one the consumer still samples.
pub const EMBED_BUFFER_COUNT: usize = 2;

/// Where finished frames land.
#[derive(Clone, Copy, Debug, PartialEq, Eq, Structural)]
pub enum EmbedTarget {
    /// One texture of the content's size, whose pixels are read back and copied over
    /// the socket.
    Readback,
    /// Surfaces of a fixed size that the consumer samples in place.
    Surfaces {
        /// The surface that the next frame renders into.
        next_buffer: usize,
        /// The size of every surface.
        max: PixelSize,
    },
}

/// The window of a session.
pub struct EmbedWindow {
    pub core: WindowCore,
    pub target: EmbedTarget,
    /// The size of a frame, which is what the consumer sends.
    pub pixels: PixelSize,
    /// The consumer's scale, in hundredths.
    pub scale_percent: u32,
    /// Whether the renderer clears to transparent black.
    pub transparent: bool,
    /// Called with a finished frame's pixels.
    pub on_frame: Option<Callback>,
    /// Called with a finished frame's surface.
    pub on_ready: Option<Callback>,
}

/// What a consumer needs in order to find the surfaces.
#[derive(Debug)]
pub struct ZeroCopyHandshake {
    pub service_name: String,
    pub buffer_count: u32,
    pub max_width: u32,
    pub max_height: u32,
}

/// What a new size or scale leaves to do, in this order.
#[derive(Clone, Copy, Debug, PartialEq, Eq, Structural)]
pub struct LayoutEffects {
    /// Allocate a texture of this many device pixels.
    pub target: Option<PixelSize>,
    /// Call this with the size and the scale, then put it back.
    pub callback: Option<Callback>,
    pub size: LogicalSize,
    pub scale_percent: u32,
}

/// How a frame is drawn.
#[derive(Clone, Copy, Debug, PartialEq, Eq, Structural)]
pub enum DrawPlan {
    /// Render into the texture and wait; then read `bytes` bytes back, turn them into
    /// RGBA and hand them to the callback.
    Readback { size: PixelSize, bytes: usize, callback: Option<Callback> },
    /// Render into a surface, and call the callback with it once the GPU is done.
    Surface { index: usize, size: PixelSize, callback: Option<Callback> },
}

/// The number from `low` to `high` that is nearest to `value`.
pub open spec fn clamped(value: u32, low: u32, high: u32) -> u32 {
    if value < low {
        low
    } else if value > high {
        high
    } else {
        value
    }
}

fn clamp(value: u32, low: u32, high: u32) -> (result: u32)
    ensures
        result == clamped(value, low, high),
{
    if value < low {
        low
    } else if value > high {
        high
    } else {
        value
    }
}

/// What a consumer is told of surfaces of a size.
pub open spec fn zero_copy_handshake(service_name: String, max: PixelSize) -> ZeroCopyHandshake {
    ZeroCopyHandshake {
        service_name,
        buffer_count: EMBED_BUFFER_COUNT as u32,
        max_width: max.width,
        max_height: max.height,
    }
}

impl EmbedWindow {
    /// The scale is one that can be adopted, no side of a frame is empty, and with
    /// surfaces the next one exists and a frame fits into it.
    pub open spec fn wf(self) -> bool {
        &&& MIN_SCALE <= self.scale_percent <= MAX_SCALE
        &&& self.pixels.width > 0 && self.pixels.height > 0
        &&& self.target matches EmbedTarget::Surfaces { next_buffer, max } ==> {
            &&& next_buffer < EMBED_BUFFER_COUNT
            &&& self.pixels.width <= max.width && self.pixels.height <= max.height
        }
    }

    /// The size of a frame for a display area of the consumer: at least one pixel,
    /// and no larger than the surfaces, if there are.
    pub open spec fn frame_size_spec(self, width: u32, height: u32) -> PixelSize {
        match self.target {
            EmbedTarget::Readback => PixelSize {
                width: if width < 1 {
                    1
                } else {
                    width
                },
                height: if height < 1 {
                    1
                } else {
                    height
                },
            },
            EmbedTarget::Surfaces { max, .. } => PixelSize {
                width: clamped(width, 1, max.width),
                height: clamped(height, 1, max.height),
            },
        }
    }

    /// The state of a new window.
    pub open spec fn fresh(bounds: Bounds, width: u32, height: u32) -> EmbedWindow {
        EmbedWindow {
            core: WindowCore::fresh(bounds),
            target: EmbedTarget::Readback,
            pixels: PixelSize { width, height },
            scale_percent: INITIAL_SCALE,
            transparent: false,
            on_frame: None,
            on_ready: None,
        }
    }

    /// A new window of so many device pixels.
    pub fn new(bounds: Bounds, width: u32, height: u32) -> (window: EmbedWindow)
        requires
            width > 0,
            height > 0,
        ensures
            window.wf(),
            window == EmbedWindow::fresh(bounds, width, height),
    {
        EmbedWindow {
            core: WindowCore::new(bounds),
            target: EmbedTarget::Readback,
            pixels: PixelSize { width, height },
            scale_percent: INITIAL_SCALE,
            transparent: false,
            on_frame: None,
            on_ready: None,
        }
    }

    /// The window on surfaces of a size, with this logical size if it has to be cut down.
    pub open spec fn on_surfaces(self, max: PixelSize, extent: LogicalSize) -> EmbedWindow {
        let fits = self.pixels.width <= max.width && self.pixels.height <= max.height;
        EmbedWindow {
            core: WindowCore {
                force_frame: true,
                bounds: if fits {
                    self.core.bounds
                } else {
                    Bounds { size: extent, ..self.core.bounds }
                },
                ..self.core
            },
            target: EmbedTarget::Surfaces { next_buffer: 0, max },
            pixels: PixelSize {
                width: clamped(self.pixels.width, 1, max.width),
                height: clamped(self.pixels.height, 1, max.height),
            },
            ..self
        }
    }

    /// Moves the window onto surfaces, if they could be served, and returns what the
    /// consumer needs to find them. A size past what they hold is cut down right
    /// away, so that the first frame fits; `extent` is the logical size of what is
    /// left at the window's scale. Without surfaces nothing changes.
    pub fn enable_zero_copy<E>(
        &mut self,
        service_name: Result<String, E>,
        surfaces: &EmbedSurfaces,
        extent: LogicalSize,
    ) -> (handshake: Result<ZeroCopyHandshake, E>)
        requires
            old(self).wf(),
            surfaces.wf(),
        ensures
            final(self).wf(),
            match service_name {
                Err(error) => {
                    &&& handshake == Err::<ZeroCopyHandshake, E>(error)
                    &&& *final(self) == *old(self)
                },
                Ok(name) => {
                    &&& handshake == Ok::<ZeroCopyHandshake, E>(
                        zero_copy_handshake(name, surfaces.size),
                    )
                    &&& *final(self) == old(self).on_surfaces(surfaces.size, extent)
                },
            },
    {
        let service_name: String = match service_name {
            Ok(name) => name,
            Err(error) => return Err(error),
        };
        let max: PixelSize = surfaces.size;
        self.target = EmbedTarget::Surfaces { next_buffer: 0, max };
        self.core.force_frame = true;
        let pixels = PixelSize {
            width: clamp(self.pixels.width, 1, max.width),
            height: clamp(self.pixels.height, 1, max.height),
        };
        if pixels != self.pixels {
            self.pixels = pixels;
            self.core.bounds.size = extent;
        }
        Ok(
            ZeroCopyHandshake {
                service_name,
                buffer_count: EMBED_BUFFER_COUNT as u32,
                max_width: max.width,
                max_height: max.height,
            },
        )
    }

    /// The size of a frame for a display area of the consumer.
    pub fn frame_size(&self, width: u32, height: u32) -> (size: PixelSize)
        requires
            self.wf(),
        ensures
            size == self.frame_size_spec(width, height),
    {
        match self.target {
            EmbedTarget::Readback => PixelSize {
                width: if width < 1 {
                    1
                } else {
                    width
                },
                height: if height < 1 {
                    1
                } else {
                    height
                },
            },
            EmbedTarget::Surfaces { max, .. } => PixelSize {
                width: clamp(width, 1, max.width),
                height: clamp(height, 1, max.height),
            },
        }
    }

    /// The window with another logical size, while its resize callback is being
    /// called.
    pub open spec fn laid_out(self, size: LogicalSize) -> EmbedWindow {
        EmbedWindow {
            core: WindowCore {
                bounds: Bounds { size, ..self.core.bounds },
                force_frame: true,
                callbacks: self.core.callbacks.with(Slot::Resize, None),
                ..self.core
            },
            ..self
        }
    }

    /// The window for a display area of the consumer, while its resize callback is being
    /// called.
    pub open spec fn resized(self, width: u32, height: u32, extent: LogicalSize) -> EmbedWindow {
        EmbedWindow { pixels: self.frame_size_spec(width, height), ..self.laid_out(extent) }
    }

    /// What a display area of the consumer leaves to do.
    pub open spec fn resize_effects(self, width: u32, height: u32, extent: LogicalSize) -> Option<
        LayoutEffects,
    > {
        if self.core.bounds.size.same(extent) {
            None
        } else {
            Some(
                LayoutEffects {
                    target: if self.target == EmbedTarget::Readback {
                        Some(self.frame_size_spec(width, height))
                    } else {
                        None
                    },
                    callback: self.core.callbacks.resize,
                    size: extent,
                    scale_percent: self.scale_percent,
                },
            )
        }
    }

    /// Matches the consumer's display area: `extent` is the logical size, at the
    /// window's scale, of [`EmbedWindow::frame_size`]. Where that is the size already
    /// nothing happens. A texture that is read back is allocated anew; surfaces stay,
    /// and only the part of them that is used changes.
    pub fn resize_embed(&mut self, width: u32, height: u32, extent: LogicalSize) -> (effects: Option<
        LayoutEffects,
    >)
        requires
            old(self).wf(),
        ensures
            final(self).wf(),
            effects == old(self).resize_effects(width, height, extent),
            *final(self) == if effects is Some {
                old(self).resized(width, height, extent)
            } else {
                *old(self)
            },
    {
        let size = self.frame_size(width, height);
        if self.core.bounds.size.equals(extent) {
            return None;
        }
        self.core.bounds.size = extent;
        self.pixels = size;
        self.core.force_frame = true;
        let target: Option<PixelSize> = match self.target {
            EmbedTarget::Readback => Some(size),
            EmbedTarget::Surfaces { .. } => None,
        };
        let callback: Option<Callback> = self.core.callbacks.take(Slot::Resize);
        Some(
            LayoutEffects {
                target,
                callback,
                size: extent,
                scale_percent: self.scale_percent,
            },
        )
    }

    /// The window at a scale that is reported, while its resize callback is being called
    /// if it is.
    pub open spec fn rescaled(self, percent: u32, extent: LogicalSize) -> EmbedWindow {
        match adopted(percent) {
            Some(scale) if scale != self.scale_percent => EmbedWindow {
                scale_percent: scale,
                ..self.laid_out(extent)
            },
            _ => self,
        }
    }

    /// What a scale that is reported leaves to do.
    pub open spec fn scale_effects(self, percent: u32, extent: LogicalSize) -> Option<
        LayoutEffects,
    > {
        match adopted(percent) {
            Some(scale) if scale != self.scale_percent => Some(
                LayoutEffects {
                    target: None,
                    callback: self.core.callbacks.resize,
                    size: extent,
                    scale_percent: scale,
                },
            ),
            _ => None,
        }
    }

    /// Adopts a scale: `extent` is the logical size of the window's pixels at what
    /// [`adopt`] makes of it. The target keeps its pixels; every one of them is drawn
    /// anew. Zero, and the scale the window has, change nothing.
    pub fn set_scale(&mut self, percent: u32, extent: LogicalSize) -> (effects: Option<
        LayoutEffects,
    >)
        requires
            old(self).wf(),
        ensures
            final(self).wf(),
            effects == old(self).scale_effects(percent, extent),
            *final(self) == old(self).rescaled(percent, extent),
    {
        let scale: u32 = match adopt(percent) {
            Some(scale) => scale,
            None => return None,
        };
        if scale == self.scale_percent {
            return None;
        }
        self.scale_percent = scale;
        self.core.force_frame = true;
        self.core.bounds.size = extent;
        let callback: Option<Callback> = self.core.callbacks.take(Slot::Resize);
        Some(LayoutEffects { target: None, callback, size: extent, scale_percent: scale })
    }

    /// Marks the window active once, when one of the callbacks for it is registered.
    pub fn ensure_active(&mut self) -> (calls: Option<(Option<Callback>, Option<Callback>)>)
        requires
            old(self).wf(),
        ensures
            final(self).wf(),
            calls == old(self).core.activation(),
            *final(self) == if calls is Some {
                EmbedWindow { core: old(self).core.after_activation(), ..*old(self) }
            } else {
                *old(self)
            },
    {
        self.core.ensure_active()
    }

    /// The window with a background.
    pub open spec fn with_background(self, background: WindowBackgroundAppearance) -> EmbedWindow {
        if self.core.background == background {
            self
        } else {
            EmbedWindow {
                core: self.core.with_background(background),
                transparent: background != WindowBackgroundAppearance::Opaque,
                ..self
            }
        }
    }

    /// Sets the background. Anything but an opaque one has the renderer clear to
    /// transparent black: there is nothing to blur with.
    pub fn set_background_appearance(&mut self, background: WindowBackgroundAppearance)
        requires
            old(self).wf(),
        ensures
            final(self).wf(),
            *final(self) == old(self).with_background(background),
    {
        if self.core.set_background_appearance(background) {
            self.transparent = background != WindowBackgroundAppearance::Opaque;
        }
    }

    /// The window after a frame: surfaces take turns.
    pub open spec fn after_draw(self) -> EmbedWindow {
        match self.target {
            EmbedTarget::Readback => self,
            EmbedTarget::Surfaces { next_buffer, max } => EmbedWindow {
                target: EmbedTarget::Surfaces {
                    next_buffer: ((next_buffer + 1) % EMBED_BUFFER_COUNT as int) as usize,
                    max,
                },
                ..self
            },
        }
    }

    /// How the next frame is drawn.
    pub open spec fn plan(self) -> DrawPlan {
        match self.target {
            EmbedTarget::Readback => DrawPlan::Readback {
                size: self.pixels,
                bytes: image_length(self.pixels.width, self.pixels.height) as usize,
                callback: self.on_frame,
            },
            EmbedTarget::Surfaces { next_buffer, .. } => DrawPlan::Surface {
                index: next_buffer,
                size: self.pixels,
                callback: self.on_ready,
            },
        }
    }

    /// How the next frame is drawn.
    pub fn draw(&mut self) -> (plan: DrawPlan)
        requires
            old(self).wf(),
            old(self).target is Readback ==> image_length(
                old(self).pixels.width,
                old(self).pixels.height,
            ) <= usize::MAX,
        ensures
            final(self).wf(),
            plan == old(self).plan(),
            *final(self) == old(self).after_draw(),
    {
        match self.target {
            EmbedTarget::Readback => {
                let width: usize = self.pixels.width as usize;
                let height: usize = self.pixels.height as usize;
                assert(width * 4 <= width * 4 * height) by (nonlinear_arith)
                    requires
                        height >= 1,
                        width >= 0,
                ;
                DrawPlan::Readback {
                    size: self.pixels,
                    bytes: width * 4 * height,
                    callback: self.on_frame,
                }
            },
            EmbedTarget::Surfaces { next_buffer, max } => {
                self.target = EmbedTarget::Surfaces {
                    next_buffer: (next_buffer + 1) % EMBED_BUFFER_COUNT,
                    max,
                };
                DrawPlan::Surface {
                    index: next_buffer,
                    size: self.pixels,
                    callback: self.on_ready,
                }
            },
        }
    }
}

/// A frame's pixels for the consumer.
#[derive(Debug)]
pub struct CopiedFrame {
    /// Call this with the bytes and the size.
    pub callback: Callback,
    /// RGBA pixels, row by row from the top, without padding.
    pub bytes: Vec<u8>,
    pub size: PixelSize,
}

/// Whom a frame goes to, its bytes and its size, if it goes to anyone.
pub open spec fn copied(plan: DrawPlan, rendered: Option<Seq<u8>>) -> Option<
    (Callback, Seq<u8>, PixelSize),
> {
    match (plan, rendered) {
        (DrawPlan::Readback { size, callback: Some(callback), .. }, Some(pixels)) => Some(
            (callback, swapped(pixels), size),
        ),
        _ => None,
    }
}

/// What is left to do once a frame was rendered as planned, and its pixels, which are
/// BGRA, were read back as `rendered`; `None` says that rendering failed. Nobody is told
/// of a frame that failed, nor here of one in a surface, of which the GPU's completion
/// tells.
pub fn finish_draw(plan: DrawPlan, rendered: Option<Vec<u8>>) -> (frame: Option<CopiedFrame>)
    ensures
        match (
            copied(
                plan,
                match rendered {
                    Some(pixels) => Some(pixels@),
                    None => None,
                },
            ),
            frame,
        ) {
            (Some((callback, bytes, size)), Some(frame)) => {
                &&& frame.callback == callback
                &&& frame.bytes@ == bytes
                &&& frame.size == size
            },
            (None, None) => true,
            _ => false,
        },
{
    match (plan, rendered) {
        (DrawPlan::Readback { size, callback: Some(callback), .. }, Some(pixels)) => {
            let mut bytes: Vec<u8> = pixels;
            swap_red_and_blue(&mut bytes);
            Some(CopiedFrame { callback, bytes, size })
        },
        _ => None,
    }
}

/// Two frames in a row never land in one surface, and every other frame lands in the
/// same.
pub proof fn surfaces_alternate(window: EmbedWindow)
    requires
        window.wf(),
        window.target is Surfaces,
    ensures
        window.after_draw().target is Surfaces,
        window.after_draw().target->next_buffer != window.target->next_buffer,
        window.after_draw().after_draw() == window,
{
}

/// Whatever the consumer asks for, a frame keeps within the surfaces: the size of
/// a frame is one that the window's invariant allows.
pub proof fn frames_fit_the_surfaces(window: EmbedWindow, width: u32, height: u32)
    requires
        window.wf(),
    ensures
        (EmbedWindow { pixels: window.frame_size_spec(width, height), ..window }).wf(),
{
}

/// A number within limits stays; another becomes the limit that it is past, and no number
/// within them is nearer.
pub proof fn clamping_takes_the_nearest(value: u32, low: u32, high: u32, other: u32)
    requires
        low <= other <= high,
    ensures
        low <= clamped(value, low, high) <= high,
        low <= value <= high ==> clamped(value, low, high) == value,
        value <= clamped(value, low, high) ==> clamped(value, low, high) <= other || value >= other,
        value >= clamped(value, low, high) ==> clamped(value, low, high) >= other || value <= other,
{
}

/// A frame is as large as the consumer's area: never empty, never past the surfaces, and
/// else exactly what was asked for. Each side is cut on its own.
pub proof fn a_frame_fills_the_area(window: EmbedWindow, width: u32, height: u32)
    requires
        window.wf(),
    ensures
        ({
            let size = window.frame_size_spec(width, height);
            &&& size.width >= 1 && size.height >= 1
            &&& width >= 1 ==> size.width <= width
            &&& height >= 1 ==> size.height <= height
            &&& window.target is Readback && width >= 1 ==> size.width == width
            &&& window.target is Readback && height >= 1 ==> size.height == height
            &&& width == 0 ==> size.width == 1
            &&& height == 0 ==> size.height == 1
            &&& window.target matches EmbedTarget::Surfaces { max, .. } ==> {
                &&& size.width <= max.width && size.height <= max.height
                &&& 1 <= width <= max.width ==> size.width == width
                &&& 1 <= height <= max.height ==> size.height == height
                &&& width > max.width ==> size.width == max.width
                &&& height > max.height ==> size.height == max.height
            }
        }),
{
}

/// A new layout gives the window its logical size, forces a frame, and takes the callback
/// for sizes; its pixels, its scale, its title and its other callbacks stay.
pub proof fn a_layout_changes_nothing_else(window: EmbedWindow, size: LogicalSize, slot: Slot)
    ensures
        window.laid_out(size).core.bounds.size == size,
        window.laid_out(size).core.bounds.x_bits == window.core.bounds.x_bits,
        window.laid_out(size).core.bounds.y_bits == window.core.bounds.y_bits,
        window.laid_out(size).core.force_frame,
        window.laid_out(size).core.title == window.core.title,
        window.laid_out(size).core.close == window.core.close,
        window.laid_out(size).core.activated == window.core.activated,
        window.laid_out(size).core.callbacks.at(slot) == if slot == Slot::Resize {
            None
        } else {
            window.core.callbacks.at(slot)
        },
        window.laid_out(size).pixels == window.pixels,
        window.laid_out(size).scale_percent == window.scale_percent,
        window.laid_out(size).target == window.target,
        window.laid_out(size).on_frame == window.on_frame,
        window.laid_out(size).on_ready == window.on_ready,
        window.laid_out(size).transparent == window.transparent,
{
}

/// A frame that is drawn changes nothing but whose turn it is, and of surfaces there are
/// two.
pub proof fn drawing_only_takes_turns(window: EmbedWindow)
    requires
        window.wf(),
    ensures
        window.after_draw().wf(),
        window.after_draw().core == window.core,
        window.after_draw().pixels == window.pixels,
        window.after_draw().scale_percent == window.scale_percent,
        window.target is Readback ==> window.after_draw() == window,
        window.target matches EmbedTarget::Surfaces { next_buffer, max } ==> {
            &&& window.after_draw().target matches EmbedTarget::Surfaces {
                next_buffer: next,
                max: same,
            }
            &&& next + next_buffer == 1
            &&& same == max
        },
{
}

/// A new window is as large as it is made, at the scale of one, opaque, and copies its
/// frames until it is moved onto surfaces.
pub proof fn a_new_window_copies_its_frames(bounds: Bounds, width: u32, height: u32)
    ensures
        ({
            let window = EmbedWindow::fresh(bounds, width, height);
            &&& window.core == WindowCore::fresh(bounds)
            &&& window.target is Readback
            &&& window.pixels.width == width && window.pixels.height == height
            &&& window.scale_percent == 100
            &&& !window.transparent
            &&& window.on_frame is None && window.on_ready is None
        }),
{
}

/// A window on surfaces is cut down exactly where it is larger than they are, each side on
/// its own; a window that fits keeps its sizes. The first surface is first, the next frame
/// is forced, and the consumer is told of two surfaces and of how large they are.
pub proof fn a_window_fits_its_surfaces(
    window: EmbedWindow,
    max: PixelSize,
    extent: LogicalSize,
    service_name: String,
)
    requires
        window.wf(),
        max.width > 0,
        max.height > 0,
    ensures
        ({
            let moved = window.on_surfaces(max, extent);
            let told = zero_copy_handshake(service_name, max);
            &&& moved.wf()
            &&& moved.target matches EmbedTarget::Surfaces { next_buffer, max: size }
            &&& next_buffer == 0 && size == max
            &&& moved.pixels.width <= window.pixels.width && moved.pixels.height
                <= window.pixels.height
            &&& moved.pixels.width < window.pixels.width ==> moved.pixels.width == max.width
            &&& moved.pixels.height < window.pixels.height ==> moved.pixels.height == max.height
            &&& moved.core.bounds.size == if moved.pixels == window.pixels {
                window.core.bounds.size
            } else {
                extent
            }
            &&& moved.core.force_frame
            &&& moved.core.callbacks == window.core.callbacks
            &&& moved.scale_percent == window.scale_percent
            &&& moved.transparent == window.transparent
            &&& told.service_name == service_name
            &&& told.buffer_count == 2
            &&& told.max_width == max.width && told.max_height == max.height
        }),
{
}

/// A new size is told by the callback for sizes, at the window's scale. Only a texture that
/// is read back is allocated anew, and it has the size of a frame.
pub proof fn a_resize_keeps_the_scale(
    window: EmbedWindow,
    width: u32,
    height: u32,
    extent: LogicalSize,
)
    requires
        window.wf(),
    ensures
        window.resize_effects(width, height, extent) is None <==> window.core.bounds.size.same(
            extent,
        ),
        window.resize_effects(width, height, extent) matches Some(effects) ==> {
            &&& effects.target is Some <==> window.target is Readback
            &&& effects.target matches Some(target) ==> target == window.resized(
                width,
                height,
                extent,
            ).pixels
            &&& effects.callback == window.core.callbacks.at(Slot::Resize)
            &&& effects.size == extent
            &&& effects.scale_percent == window.scale_percent
        },
        window.resized(width, height, extent).wf(),
        window.resized(width, height, extent).scale_percent == window.scale_percent,
        window.resized(width, height, extent).core == window.laid_out(extent).core,
        window.resized(width, height, extent).target == window.target,
        window.resized(width, height, extent).pixels == window.frame_size_spec(width, height),
{
}

/// A scale is told where it is another one that can be adopted, and only then. The window
/// has it afterwards, with the same pixels, and a second report of it changes nothing.
pub proof fn a_scale_keeps_the_pixels(window: EmbedWindow, percent: u32, extent: LogicalSize)
    requires
        window.wf(),
    ensures
        ({
            let after = window.rescaled(percent, extent);
            &&& after.wf()
            &&& after.pixels == window.pixels
            &&& after.target == window.target
            &&& percent != 0 ==> adopted(percent) == Some(after.scale_percent)
            &&& percent == 0 ==> after == window
            &&& after.scale_percent == window.scale_percent ==> after == window
            &&& after.scale_percent != window.scale_percent ==> {
                &&& after.core.bounds.size == extent
                &&& after.core.force_frame
            }
            &&& after.rescaled(percent, extent) == after
            &&& window.scale_effects(percent, extent) is Some <==> after.scale_percent
                != window.scale_percent
            &&& window.scale_effects(percent, extent) matches Some(effects) ==> {
                &&& effects.scale_percent == after.scale_percent
                &&& effects.size == extent
                &&& effects.target is None
                &&& effects.callback == window.core.callbacks.at(Slot::Resize)
            }
        }),
{
}

/// A background that is set last is the one that counts, and a window that was given
/// another one is transparent exactly where that is not opaque.
pub proof fn a_background_that_changes_decides(
    window: EmbedWindow,
    background: WindowBackgroundAppearance,
)
    ensures
        window.with_background(background).core.background == background,
        window.core.background != background ==> {
            &&& window.with_background(background).transparent <==> !(background is Opaque)
            &&& window.with_background(background).core.force_frame
        },
        window.core.background == background ==> window.with_background(background) == window,
        window.with_background(background).pixels == window.pixels,
        window.with_background(background).target == window.target,
        window.with_background(background).core.callbacks == window.core.callbacks,
{
}

/// A frame has the size of the window's. One that is read back takes four bytes for every
/// pixel and goes to the callback for copies; one in a surface lands in the surface whose
/// turn it is, and goes to the callback for surfaces.
pub proof fn a_frame_goes_where_the_window_is(window: EmbedWindow)
    requires
        window.wf(),
        window.pixels.width * window.pixels.height * 4 <= usize::MAX,
    ensures
        window.target is Readback ==> (window.plan() matches DrawPlan::Readback {
            size,
            bytes,
            callback,
        } && size == window.pixels && bytes == window.pixels.width * window.pixels.height * 4
            && callback == window.on_frame),
        window.target matches EmbedTarget::Surfaces { next_buffer, .. } ==> (
        window.plan() matches DrawPlan::Surface { index, size, callback } && index == next_buffer
            && size == window.pixels && callback == window.on_ready),
{
    let width = window.pixels.width as int;
    let height = window.pixels.height as int;
    assert(width * 4 * height == width * height * 4) by (nonlinear_arith);
}

/// A copied frame reaches its callback exactly where there is one and rendering succeeded,
/// pixel by pixel with red and blue in each other's place.
pub proof fn a_copy_turns_every_pixel(plan: DrawPlan, pixels: Seq<u8>, pixel: int)
    requires
        0 <= pixel,
        pixel * 4 + 3 < pixels.len(),
    ensures
        copied(plan, None) is None,
        copied(plan, Some(pixels)) is Some <==> (plan matches DrawPlan::Readback { callback, .. }
            && callback is Some),
        copied(plan, Some(pixels)) matches Some((callback, bytes, size)) ==> {
            &&& plan matches DrawPlan::Readback { size: planned, callback: asked, .. }
            &&& size == planned
            &&& asked == Some(callback)
            &&& bytes.len() == pixels.len()
            &&& bytes[pixel * 4] == pixels[pixel * 4 + 2]
            &&& bytes[pixel * 4 + 1] == pixels[pixel * 4 + 1]
            &&& bytes[pixel * 4 + 2] == pixels[pixel * 4]
            &&& bytes[pixel * 4 + 3] == pixels[pixel * 4 + 3]
        },
{
}

} // verus!
