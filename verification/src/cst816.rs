//! CST816 capacitive touch controller model.
//!
//! The controller is read over I2C as one six-byte transaction starting at
//! the gesture register. Everything after the bus read is pure and verified
//! here: decoding the gesture code, finger count and the two 12-bit
//! coordinates, and the configured coordinate-transform pipeline
//! (axis swap, per-axis inversion against the panel dimensions, clamp to the
//! visible area). The I2C transaction itself lives outside the library and
//! hands the raw frame in.

use vstd::prelude::*;

verus! {

/// First register of the six-byte touch frame.
pub const REG_GESTURE_ID: u8 = 0x01;

pub const REG_CHIP_ID: u8 = 0xA7;

pub const REG_IRQ_CTL: u8 = 0xFA;

pub const REG_DIS_AUTO_SLEEP: u8 = 0xFE;

/// Touch gestures the controller classifies.
#[derive(Debug, Clone, Copy, PartialEq, Eq, Structural)]
pub enum Gesture {
    NoGesture,
    SwipeUp,
    SwipeDown,
    SwipeLeft,
    SwipeRight,
    SingleClick,
    DoubleClick,
    LongPress,
}

/// The gesture a controller byte stands for; every unassigned code reads as
/// no gesture.
pub open spec fn spec_gesture(value: u8) -> Gesture {
    match value {
        0x01 => Gesture::SwipeUp,
        0x02 => Gesture::SwipeDown,
        0x03 => Gesture::SwipeLeft,
        0x04 => Gesture::SwipeRight,
        0x05 => Gesture::SingleClick,
        0x0B => Gesture::DoubleClick,
        0x0C => Gesture::LongPress,
        _ => Gesture::NoGesture,
    }
}

impl Gesture {
    /// Map a controller gesture byte to its gesture. Unrecognised bytes,
    /// including zero, map to `Gesture::NoGesture`.
    pub fn from_byte(value: u8) -> (r: Gesture)
        ensures
            r == spec_gesture(value),
    {
        match value {
            0x01 => Gesture::SwipeUp,
            0x02 => Gesture::SwipeDown,
            0x03 => Gesture::SwipeLeft,
            0x04 => Gesture::SwipeRight,
            0x05 => Gesture::SingleClick,
            0x0B => Gesture::DoubleClick,
            0x0C => Gesture::LongPress,
            _ => Gesture::NoGesture,
        }
    }
}

/// One decoded touch sample.
#[derive(Debug, Clone, Copy, PartialEq, Eq, Structural)]
pub struct TouchData {
    /// X coordinate after the transform pipeline (0 = left).
    pub x: u16,
    /// Y coordinate after the transform pipeline (0 = top).
    pub y: u16,
    /// True while a finger is down.
    pub pressed: bool,
    /// Gesture reported alongside the sample, if the gesture byte was
    /// non-zero.
    pub gesture: Option<Gesture>,
}

/// Touch-controller state: the panel dimensions the coordinates are mapped
/// against and the configured transform.
#[derive(Debug, Clone, Copy, PartialEq, Eq, Structural)]
pub struct Cst816 {
    /// Panel width used for X inversion and clamping.
    pub width: u16,
    /// Panel height used for Y inversion and clamping.
    pub height: u16,
    /// Swap the X and Y axes before inversion.
    pub swap_xy: bool,
    /// Invert X against the panel width.
    pub invert_x: bool,
    /// Invert Y against the panel height.
    pub invert_y: bool,
}

/// `a - b`, saturating at zero.
pub open spec fn spec_sat_sub(a: u16, b: u16) -> u16 {
    if a >= b {
        (a - b) as u16
    } else {
        0
    }
}

/// The smaller of two coordinates.
pub open spec fn spec_min16(a: u16, b: u16) -> u16 {
    if a <= b {
        a
    } else {
        b
    }
}

/// The transform pipeline: axis swap, then per-axis inversion against the
/// panel dimension, then clamp to `[0, dimension - 1]`.
pub open spec fn spec_transform(cfg: Cst816, x_raw: u16, y_raw: u16) -> (u16, u16) {
    let x0 = if cfg.swap_xy {
        y_raw
    } else {
        x_raw
    };
    let y0 = if cfg.swap_xy {
        x_raw
    } else {
        y_raw
    };
    let x1 = if cfg.invert_x {
        spec_sat_sub(cfg.width, x0)
    } else {
        x0
    };
    let y1 = if cfg.invert_y {
        spec_sat_sub(cfg.height, y0)
    } else {
        y0
    };
    (spec_min16(x1, spec_sat_sub(cfg.width, 1)), spec_min16(y1, spec_sat_sub(cfg.height, 1)))
}

/// The raw 12-bit X coordinate packed into a six-byte frame: four status
/// bits and eight data bits.
pub open spec fn spec_raw_x(frame: Seq<u8>) -> u16
    recommends
        frame.len() == 6,
{
    (((frame[2] & 0x0F) as u16) * 256 + frame[3] as u16) as u16
}

/// The raw 12-bit Y coordinate packed into a six-byte frame.
pub open spec fn spec_raw_y(frame: Seq<u8>) -> u16
    recommends
        frame.len() == 6,
{
    (((frame[4] & 0x0F) as u16) * 256 + frame[5] as u16) as u16
}

/// The sample a six-byte frame decodes to under a configuration.
pub open spec fn spec_decode(cfg: Cst816, frame: Seq<u8>) -> TouchData
    recommends
        frame.len() == 6,
{
    let xy = spec_transform(cfg, spec_raw_x(frame), spec_raw_y(frame));
    TouchData {
        x: xy.0,
        y: xy.1,
        pressed: frame[1] > 0,
        gesture: if frame[0] != 0 {
            Some(spec_gesture(frame[0]))
        } else {
            None
        },
    }
}

impl Cst816 {
    /// A controller mapped to the given panel dimensions, with no axis swap
    /// and no inversion.
    pub fn new(width: u16, height: u16) -> (r: Cst816)
        ensures
            r == (Cst816 { width, height, swap_xy: false, invert_x: false, invert_y: false }),
    {
        Cst816 { width, height, swap_xy: false, invert_x: false, invert_y: false }
    }

    /// Configure the coordinate transformation.
    pub fn set_transform(&mut self, swap_xy: bool, invert_x: bool, invert_y: bool)
        ensures
            *final(self) == (Cst816 { swap_xy, invert_x, invert_y, ..*old(self) }),
    {
        self.swap_xy = swap_xy;
        self.invert_x = invert_x;
        self.invert_y = invert_y;
    }

    /// Apply the configured transform pipeline to a raw coordinate pair.
    pub fn transform(&self, x_raw: u16, y_raw: u16) -> (r: (u16, u16))
        ensures
            r == spec_transform(*self, x_raw, y_raw),
    {
        let (mut x, mut y) = if self.swap_xy {
            (y_raw, x_raw)
        } else {
            (x_raw, y_raw)
        };
        if self.invert_x {
            x = sat_sub(self.width, x);
        }
        if self.invert_y {
            y = sat_sub(self.height, y);
        }
        x = min16(x, sat_sub(self.width, 1));
        y = min16(y, sat_sub(self.height, 1));
        (x, y)
    }

    /// Decode one six-byte frame read from the gesture register: gesture
    /// code, finger count, and the two packed 12-bit coordinates, which then
    /// run through the transform pipeline.
    pub fn decode(&self, frame: &[u8; 6]) -> (r: TouchData)
        ensures
            r == spec_decode(*self, frame@),
    {
        let gesture_id = frame[0];
        let finger_num = frame[1];
        let x_raw: u16 = ((frame[2] & 0x0F) as u16) * 256 + frame[3] as u16;
        let y_raw: u16 = ((frame[4] & 0x0F) as u16) * 256 + frame[5] as u16;
        let (x, y) = self.transform(x_raw, y_raw);
        TouchData {
            x,
            y,
            pressed: finger_num > 0,
            gesture: if gesture_id != 0 {
                Some(Gesture::from_byte(gesture_id))
            } else {
                None
            },
        }
    }
}

/// Subtract, saturating at zero.
fn sat_sub(a: u16, b: u16) -> (r: u16)
    ensures
        r == spec_sat_sub(a, b),
{
    if a >= b {
        a - b
    } else {
        0
    }
}

/// The smaller of two coordinates.
fn min16(a: u16, b: u16) -> (r: u16)
    ensures
        r == spec_min16(a, b),
{
    if a <= b {
        a
    } else {
        b
    }
}

/// With no axis swap and no inversion the pipeline is the identity up to
/// clamping: the output is the raw input clamped to the visible area, and
/// running the pipeline again on its own output changes nothing.
pub proof fn lemma_transform_identity(cfg: Cst816, x_raw: u16, y_raw: u16)
    requires
        !cfg.swap_xy,
        !cfg.invert_x,
        !cfg.invert_y,
    ensures
        spec_transform(cfg, x_raw, y_raw) == (
            spec_min16(x_raw, spec_sat_sub(cfg.width, 1)),
            spec_min16(y_raw, spec_sat_sub(cfg.height, 1)),
        ),
        spec_transform(
            cfg,
            spec_transform(cfg, x_raw, y_raw).0,
            spec_transform(cfg, x_raw, y_raw).1,
        ) == spec_transform(cfg, x_raw, y_raw),
{
}

/// X inversion maps the boundaries with saturating-subtraction semantics:
/// a raw X of zero lands on the last column, and a raw X equal to the panel
/// width lands on column zero rather than underflowing.
pub proof fn lemma_invert_x_boundaries(cfg: Cst816, y_raw: u16)
    requires
        !cfg.swap_xy,
        cfg.invert_x,
        cfg.width >= 1,
    ensures
        spec_transform(cfg, 0, y_raw).0 == cfg.width - 1,
        spec_transform(cfg, cfg.width, y_raw).0 == 0,
{
}

/// One step of the controller's bring-up or power sequences: a reset-line
/// change, a pause, or a register transaction over I2C.
#[derive(Debug, Clone, Copy, PartialEq, Eq, Structural)]
pub enum TouchOp {
    SetReset(bool),
    DelayMs(u32),
    /// Read one register; the bring-up reads the chip identifier to probe
    /// the bus.
    ReadReg(u8),
    WriteReg(u8, u8),
}

/// The bring-up sequence: an optional reset pulse, the chip-identifier
/// probe, auto-sleep disabled, interrupt on touch.
pub open spec fn spec_init_ops(has_reset_pin: bool) -> Seq<TouchOp> {
    (if has_reset_pin {
        seq![
            TouchOp::SetReset(false),
            TouchOp::DelayMs(10),
            TouchOp::SetReset(true),
            TouchOp::DelayMs(50),
        ]
    } else {
        Seq::<TouchOp>::empty()
    }) + seq![
        TouchOp::ReadReg(REG_CHIP_ID),
        TouchOp::WriteReg(REG_DIS_AUTO_SLEEP, 0x01),
        TouchOp::WriteReg(REG_IRQ_CTL, 0x41),
    ]
}

/// The bring-up sequence.
pub fn init_ops(has_reset_pin: bool) -> (r: Vec<TouchOp>)
    ensures
        r@ == spec_init_ops(has_reset_pin),
{
    let mut r: Vec<TouchOp> = Vec::new();
    if has_reset_pin {
        r.push(TouchOp::SetReset(false));
        r.push(TouchOp::DelayMs(10));
        r.push(TouchOp::SetReset(true));
        r.push(TouchOp::DelayMs(50));
    }
    r.push(TouchOp::ReadReg(REG_CHIP_ID));
    r.push(TouchOp::WriteReg(REG_DIS_AUTO_SLEEP, 0x01));
    r.push(TouchOp::WriteReg(REG_IRQ_CTL, 0x41));
    proof {
        assert(r@ =~= spec_init_ops(has_reset_pin));
    }
    r
}

/// The sequence that puts the controller to sleep.
pub fn sleep_ops() -> (r: Vec<TouchOp>)
    ensures
        r@ == seq![TouchOp::WriteReg(REG_DIS_AUTO_SLEEP, 0x00)],
{
    let mut r: Vec<TouchOp> = Vec::new();
    r.push(TouchOp::WriteReg(REG_DIS_AUTO_SLEEP, 0x00));
    proof {
        assert(r@ =~= seq![TouchOp::WriteReg(REG_DIS_AUTO_SLEEP, 0x00)]);
    }
    r
}

/// The wake sequence: an optional reset pulse, then auto-sleep disabled
/// again.
pub open spec fn spec_wake_ops(has_reset_pin: bool) -> Seq<TouchOp> {
    (if has_reset_pin {
        seq![
            TouchOp::SetReset(false),
            TouchOp::DelayMs(10),
            TouchOp::SetReset(true),
            TouchOp::DelayMs(50),
        ]
    } else {
        Seq::<TouchOp>::empty()
    }) + seq![TouchOp::WriteReg(REG_DIS_AUTO_SLEEP, 0x01)]
}

/// The wake sequence.
pub fn wake_ops(has_reset_pin: bool) -> (r: Vec<TouchOp>)
    ensures
        r@ == spec_wake_ops(has_reset_pin),
{
    let mut r: Vec<TouchOp> = Vec::new();
    if has_reset_pin {
        r.push(TouchOp::SetReset(false));
        r.push(TouchOp::DelayMs(10));
        r.push(TouchOp::SetReset(true));
        r.push(TouchOp::DelayMs(50));
    }
    r.push(TouchOp::WriteReg(REG_DIS_AUTO_SLEEP, 0x01));
    proof {
        assert(r@ =~= spec_wake_ops(has_reset_pin));
    }
    r
}

} // verus!
