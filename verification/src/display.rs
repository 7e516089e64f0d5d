//! Display management and the flush protocol.
//!
//! A display pairs a resolution with registered draw buffers and a flush
//! callback. Rendering hands the callback one dirty rectangle and its pixel
//! bytes at a time; the callback owns the transfer and must acknowledge it
//! exactly once by calling [`Display::flush_ready`], at which point the
//! renderer may start the next flush. The two-state protocol (idle,
//! flushing) is enforced here by contract, so a missing or doubled
//! acknowledgement is ruled out at verification time.

use vstd::prelude::*;
use crate::LvglError;

verus! {

/// A dirty rectangle in display coordinates, both corners inclusive.
#[derive(Debug, Clone, Copy, PartialEq, Eq, Structural)]
pub struct Area {
    pub x1: i32,
    pub y1: i32,
    pub x2: i32,
    pub y2: i32,
}

impl Area {
    /// The size in bytes of the rectangle's pixel payload: tightly packed
    /// RGB565, two bytes per pixel, row-major.
    pub fn pixel_bytes(&self) -> (r: usize)
        requires
            self.x1 <= self.x2,
            self.y1 <= self.y2,
            (self.x2 - self.x1 + 1) * (self.y2 - self.y1 + 1) * 2 <= usize::MAX,
        ensures
            r == (self.x2 - self.x1 + 1) * (self.y2 - self.y1 + 1) * 2,
    {
        let w: u64 = (self.x2 as i64 - self.x1 as i64 + 1) as u64;
        let h: u64 = (self.y2 as i64 - self.y1 as i64 + 1) as u64;
        (w * h * 2) as usize
    }
}

/// The corners of an area as a tuple, in the callback argument order.
pub fn area_to_coords(area: &Area) -> (r: (i32, i32, i32, i32))
    ensures
        r == (area.x1, area.y1, area.x2, area.y2),
{
    (area.x1, area.y1, area.x2, area.y2)
}

/// How the renderer uses the registered buffers.
#[derive(Debug, Clone, Copy, PartialEq, Eq, Structural)]
pub enum RenderMode {
    /// Only changed areas are rendered.
    Partial,
    /// The entire screen is rendered each frame.
    Full,
    /// The draw buffer is the frame buffer.
    Direct,
}

/// Rotation applied between rendering and the panel.
#[derive(Debug, Clone, Copy, PartialEq, Eq, Structural)]
pub enum DisplayRotation {
    Rotate0,
    Rotate90,
    Rotate180,
    Rotate270,
}

/// Whether a rotation swaps the two resolutions.
pub open spec fn spec_rotation_swaps(r: DisplayRotation) -> bool {
    r == DisplayRotation::Rotate90 || r == DisplayRotation::Rotate270
}

/// The abstract state of a display.
pub ghost struct DisplayView {
    /// Horizontal resolution as created.
    pub width: u32,
    /// Vertical resolution as created.
    pub height: u32,
    pub rotation: DisplayRotation,
    /// Size in bytes of the registered draw buffer, zero before any
    /// registration.
    pub buffer_bytes: usize,
    /// Whether a second buffer was registered for double-buffering.
    pub double_buffered: bool,
    pub render_mode: Option<RenderMode>,
    /// Whether a flush callback has been registered.
    pub flush_cb_set: bool,
    /// Whether a flush is in flight, waiting for its acknowledgement.
    pub flushing: bool,
    /// The rectangle of the flush in flight.
    pub pending_area: Option<Area>,
    /// How many flushes have been acknowledged so far.
    pub flushes_done: nat,
}

/// A display: a resolution, registered buffers, and the flush protocol
/// state.
pub struct Display {
    width: u32,
    height: u32,
    rotation: DisplayRotation,
    buffer_bytes: usize,
    double_buffered: bool,
    render_mode: Option<RenderMode>,
    flush_cb_set: bool,
    flushing: bool,
    pending_area: Option<Area>,
    flushes_done: Ghost<nat>,
}

impl View for Display {
    type V = DisplayView;

    closed spec fn view(&self) -> DisplayView {
        DisplayView {
            width: self.width,
            height: self.height,
            rotation: self.rotation,
            buffer_bytes: self.buffer_bytes,
            double_buffered: self.double_buffered,
            render_mode: self.render_mode,
            flush_cb_set: self.flush_cb_set,
            flushing: self.flushing,
            pending_area: self.pending_area,
            flushes_done: self.flushes_done@,
        }
    }
}

/// Whether a resolution can back a display: neither side may be zero, and
/// both must fit the renderer's signed coordinates.
pub open spec fn spec_valid_resolution(width: u32, height: u32) -> bool {
    width >= 1 && height >= 1 && width <= i32::MAX && height <= i32::MAX
}

/// One flush handed to the callback: the display leaves the idle state and
/// records the dirty rectangle; nothing is acknowledged yet.
pub open spec fn spec_flush_begins(pre: DisplayView, post: DisplayView, area: Area) -> bool {
    &&& pre.flush_cb_set
    &&& !pre.flushing
    &&& post == (DisplayView { flushing: true, pending_area: Some(area), ..pre })
}

/// One acknowledgement: the in-flight flush completes, the display returns
/// to idle, and the acknowledgement count rises by one.
pub open spec fn spec_flush_acked(pre: DisplayView, post: DisplayView) -> bool {
    &&& pre.flushing
    &&& post == (DisplayView {
        flushing: false,
        pending_area: None,
        flushes_done: pre.flushes_done + 1,
        ..pre
    })
}

impl Display {
    /// Create a display with the given resolution. A zero or oversized
    /// resolution is reported as a display error, never accepted.
    pub fn create(width: u32, height: u32) -> (r: Result<Display, LvglError>)
        ensures
            spec_valid_resolution(width, height) <==> r is Ok,
            !spec_valid_resolution(width, height) ==> r == Result::<Display, LvglError>::Err(
                LvglError::DisplayError,
            ),
            r matches Ok(d) ==> d@ == (DisplayView {
                width,
                height,
                rotation: DisplayRotation::Rotate0,
                buffer_bytes: 0,
                double_buffered: false,
                render_mode: None,
                flush_cb_set: false,
                flushing: false,
                pending_area: None,
                flushes_done: 0,
            }),
    {
        if width == 0 || height == 0 || width > i32::MAX as u32 || height > i32::MAX as u32 {
            Err(LvglError::DisplayError)
        } else {
            Ok(
                Display {
                    width,
                    height,
                    rotation: DisplayRotation::Rotate0,
                    buffer_bytes: 0,
                    double_buffered: false,
                    render_mode: None,
                    flush_cb_set: false,
                    flushing: false,
                    pending_area: None,
                    flushes_done: Ghost(0),
                },
            )
        }
    }

    /// Register the draw buffer size, whether a second buffer exists, and
    /// the render mode. The caller keeps ownership of the buffers and must
    /// keep them alive as long as the display.
    pub fn set_buffers(&mut self, buffer_bytes: usize, double_buffered: bool, mode: RenderMode)
        ensures
            final(self)@ == (DisplayView {
                buffer_bytes,
                double_buffered,
                render_mode: Some(mode),
                ..old(self)@
            }),
    {
        self.buffer_bytes = buffer_bytes;
        self.double_buffered = double_buffered;
        self.render_mode = Some(mode);
    }

    /// Record that a flush callback has been registered.
    pub fn set_flush_cb(&mut self)
        ensures
            final(self)@ == (DisplayView { flush_cb_set: true, ..old(self)@ }),
    {
        self.flush_cb_set = true;
    }

    /// Hand a dirty rectangle to the flush callback. Only an idle display
    /// with a registered callback can start a flush.
    pub fn begin_flush(&mut self, area: Area)
        requires
            old(self)@.flush_cb_set,
            !old(self)@.flushing,
        ensures
            spec_flush_begins(old(self)@, final(self)@, area),
    {
        self.flushing = true;
        self.pending_area = Some(area);
    }

    /// Acknowledge the flush in flight: the transfer is complete and the
    /// renderer may continue. Exactly one acknowledgement per flush is
    /// possible: without a flush in flight the call is not allowed.
    pub fn flush_ready(&mut self)
        requires
            old(self)@.flushing,
        ensures
            spec_flush_acked(old(self)@, final(self)@),
    {
        self.flushing = false;
        self.pending_area = None;
        proof {
            self.flushes_done@ = self.flushes_done@ + 1;
        }
    }

    /// Whether a flush is waiting for its acknowledgement.
    pub fn is_flushing(&self) -> (r: bool)
        ensures
            r == self@.flushing,
    {
        self.flushing
    }

    /// Horizontal resolution as the renderer sees it, after rotation.
    pub fn get_hor_res(&self) -> (r: i32)
        requires
            self@.width <= i32::MAX,
            self@.height <= i32::MAX,
        ensures
            r == if spec_rotation_swaps(self@.rotation) {
                self@.height as int
            } else {
                self@.width as int
            },
    {
        match self.rotation {
            DisplayRotation::Rotate90 | DisplayRotation::Rotate270 => self.height as i32,
            _ => self.width as i32,
        }
    }

    /// Vertical resolution as the renderer sees it, after rotation.
    pub fn get_ver_res(&self) -> (r: i32)
        requires
            self@.width <= i32::MAX,
            self@.height <= i32::MAX,
        ensures
            r == if spec_rotation_swaps(self@.rotation) {
                self@.width as int
            } else {
                self@.height as int
            },
    {
        match self.rotation {
            DisplayRotation::Rotate90 | DisplayRotation::Rotate270 => self.width as i32,
            _ => self.height as i32,
        }
    }

    /// Set the rotation applied between rendering and the panel.
    pub fn set_rotation(&mut self, rotation: DisplayRotation)
        ensures
            final(self)@ == (DisplayView { rotation, ..old(self)@ }),
    {
        self.rotation = rotation;
    }
}

/// A full flush cycle acknowledges exactly once: after one flush and its
/// acknowledgement the count has risen by one, the display is idle again,
/// and a second acknowledgement is impossible until another flush begins.
pub proof fn lemma_flush_acked_once(pre: DisplayView, mid: DisplayView, post: DisplayView, area: Area)
    requires
        spec_flush_begins(pre, mid, area),
        spec_flush_acked(mid, post),
    ensures
        post.flushes_done == pre.flushes_done + 1,
        !post.flushing,
        forall|later: DisplayView| !spec_flush_acked(post, later),
{
}

/// Calculate the buffer size in bytes for a partial-render buffer that
/// covers `lines` rows of a `width`-pixel display: two bytes per RGB565
/// pixel. The `height` parameter is the full display height and does not
/// enter the size.
pub fn calc_buf_size(width: u32, height: u32, lines: u32) -> (r: usize)
    requires
        width * lines * 2 <= u32::MAX,
    ensures
        r == width * lines * 2,
{
    (width * lines * 2) as usize
}

} // verus!
