//! Safe, verified model of a small embedded GUI stack.
//!
//! The crate models the state that a thin GUI binding layer manages on behalf
//! of its caller: the once-only runtime initialisation, displays with their
//! flush protocol, input devices and touch samples, styles, a widget set, and
//! the pure command/decode logic of the panel and touch-controller drivers
//! used by the example applications. Everything that computes or decides
//! lives here with a contract; the bus and window-system I/O that carries the
//! results lives outside the library.

use vstd::prelude::*;

pub mod cst816;
pub mod display;
pub mod framebuf;
pub mod ili9341;
pub mod input;
pub mod obj;
pub mod panel;
pub mod st7789;
pub mod style;
pub mod textfmt;
pub mod widgets;

verus! {

/// Errors reported by the library.
#[derive(Debug, Clone, Copy, PartialEq, Eq, Structural)]
pub enum LvglError {
    NotInitialized,
    AlreadyInitialized,
    NullPointer,
    InvalidParameter,
    OutOfMemory,
    DisplayError,
}

/// Process-wide runtime state.
///
/// The runtime is initialised exactly once; a second attempt fails and leaves
/// the state unchanged. The internal clock advances monotonically by the
/// elapsed milliseconds the caller reports.
pub struct Runtime {
    initialized: bool,
    tick_ms: u64,
}

impl Runtime {
    pub closed spec fn spec_initialized(&self) -> bool {
        self.initialized
    }

    pub closed spec fn spec_tick_ms(&self) -> u64 {
        self.tick_ms
    }

    /// A fresh runtime: not yet initialised, clock at zero.
    pub fn new() -> (r: Runtime)
        ensures
            !r.spec_initialized(),
            r.spec_tick_ms() == 0,
    {
        Runtime { initialized: false, tick_ms: 0 }
    }

    /// Initialise the runtime. Fails if it is already initialised, in which
    /// case nothing changes.
    pub fn init(&mut self) -> (r: Result<(), LvglError>)
        ensures
            old(self).spec_initialized() ==> r == Result::<(), LvglError>::Err(
                LvglError::AlreadyInitialized,
            ),
            !old(self).spec_initialized() ==> r == Result::<(), LvglError>::Ok(()),
            final(self).spec_initialized(),
            final(self).spec_tick_ms() == old(self).spec_tick_ms(),
    {
        if self.initialized {
            Err(LvglError::AlreadyInitialized)
        } else {
            self.initialized = true;
            Ok(())
        }
    }

    /// Whether the runtime has been initialised.
    pub fn is_initialized(&self) -> (r: bool)
        ensures
            r == self.spec_initialized(),
    {
        self.initialized
    }

    /// Advance the internal clock by the elapsed milliseconds, saturating at
    /// the clock's maximum.
    pub fn tick_inc(&mut self, period_ms: u32)
        ensures
            final(self).spec_tick_ms() == if old(self).spec_tick_ms() + period_ms <= u64::MAX {
                old(self).spec_tick_ms() + period_ms
            } else {
                u64::MAX as int
            },
            final(self).spec_initialized() == old(self).spec_initialized(),
    {
        self.tick_ms = self.tick_ms.saturating_add(period_ms as u64);
    }
}

/// Create a screen: a root object that widgets are created on.
pub fn screen_create() -> (r: Result<obj::Obj, LvglError>)
    ensures
        r matches Ok(o) && o@ == obj::spec_fresh_obj(),
{
    Ok(obj::Obj::fresh())
}

/// An RGB888 colour, packed as `0xRRGGBB`.
#[derive(Debug, Clone, Copy, PartialEq, Eq, Structural)]
pub struct Color {
    value: u32,
}

impl Color {
    /// The packed `0xRRGGBB` value.
    pub closed spec fn spec_value(&self) -> u32 {
        self.value
    }

    /// Colour from the three channels.
    pub fn rgb(r: u8, g: u8, b: u8) -> (c: Color)
        ensures
            c.spec_value() == r * 0x10000 + g * 0x100 + b,
    {
        Color { value: (r as u32) * 0x10000 + (g as u32) * 0x100 + (b as u32) }
    }

    /// Colour from a packed `0xRRGGBB` value; bits above the low 24 are
    /// ignored.
    pub fn hex(hex: u32) -> (c: Color)
        ensures
            c.spec_value() == hex % 0x1000000,
    {
        Color { value: hex % 0x1000000 }
    }

    /// Colour from a packed `0xRGB` value, each nibble doubled into a full
    /// channel (`0xF00` becomes `0xFF0000`).
    pub fn hex3(hex: u16) -> (c: Color)
        ensures
            c.spec_value() == (hex as int / 0x100 % 0x10) * 0x110000 + (hex as int / 0x10 % 0x10)
                * 0x1100 + (hex as int % 0x10) * 0x11,
    {
        let r: u32 = (hex as u32) / 0x100 % 0x10;
        let g: u32 = (hex as u32) / 0x10 % 0x10;
        let b: u32 = (hex as u32) % 0x10;
        Color { value: r * 0x110000 + g * 0x1100 + b * 0x11 }
    }

    /// White.
    pub fn white() -> (c: Color)
        ensures
            c.spec_value() == 0xFFFFFF,
    {
        Color::hex(0xFFFFFF)
    }

    /// Black.
    pub fn black() -> (c: Color)
        ensures
            c.spec_value() == 0x000000,
    {
        Color::hex(0x000000)
    }

    /// The packed `0xRRGGBB` value.
    pub fn raw(&self) -> (r: u32)
        ensures
            r == self.spec_value(),
    {
        self.value
    }
}

/// Alignment of an object relative to its parent.
#[derive(Debug, Clone, Copy, PartialEq, Eq, Structural)]
pub enum Align {
    Default,
    TopLeft,
    TopMid,
    TopRight,
    BottomLeft,
    BottomMid,
    BottomRight,
    LeftMid,
    RightMid,
    Center,
}

/// Object state flags, combinable by bitwise or.
#[derive(Debug, Clone, Copy, PartialEq, Eq, Structural)]
pub struct State(pub u16);

pub const STATE_DEFAULT: u16 = 0x0000;

pub const STATE_CHECKED: u16 = 0x0001;

pub const STATE_FOCUSED: u16 = 0x0002;

pub const STATE_PRESSED: u16 = 0x0020;

pub const STATE_DISABLED: u16 = 0x0080;

/// Object part selector for styling.
#[derive(Debug, Clone, Copy, PartialEq, Eq, Structural)]
pub struct Part(pub u32);

pub const PART_MAIN: u32 = 0x000000;

pub const PART_SCROLLBAR: u32 = 0x010000;

pub const PART_INDICATOR: u32 = 0x020000;

pub const PART_KNOB: u32 = 0x030000;

pub const PART_SELECTED: u32 = 0x040000;

pub const PART_ITEMS: u32 = 0x050000;

pub const PART_CURSOR: u32 = 0x060000;

/// Event codes a callback can be registered for.
#[derive(Debug, Clone, Copy, PartialEq, Eq, Structural)]
pub enum Event {
    Pressed,
    Pressing,
    Released,
    Clicked,
    LongPressed,
    ValueChanged,
    Focused,
    Defocused,
}

} // verus!
