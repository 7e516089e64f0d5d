//! ILI9341 panel driver model.
//!
//! A simpler sibling of the ST7789 driver: fixed landscape-leaning
//! memory-access-control byte, no RAM offsets, and an unchunked pixel
//! stream. The functions produce the documented command sequences; an
//! unverified transport plays them back over SPI.

use vstd::prelude::*;
use crate::panel::{PanelOp, be_hi, be_lo, spec_be_hi, spec_be_lo};

verus! {

pub const CMD_SWRESET: u8 = 0x01;

pub const CMD_SLPOUT: u8 = 0x11;

pub const CMD_DISPON: u8 = 0x29;

pub const CMD_CASET: u8 = 0x2A;

pub const CMD_PASET: u8 = 0x2B;

pub const CMD_RAMWR: u8 = 0x2C;

pub const CMD_MADCTL: u8 = 0x36;

pub const CMD_COLMOD: u8 = 0x3A;

/// COLMOD argument selecting 16-bit RGB565 pixels.
pub const COLMOD_RGB565: u8 = 0x55;

/// The fixed memory-access-control byte: column address order with the BGR
/// bit.
pub const MADCTL_VALUE: u8 = 0x48;

/// The bring-up sequence: hardware reset pulse, software reset, sleep out,
/// RGB565 pixel format, memory-access control, display on, backlight on.
pub open spec fn spec_init_ops() -> Seq<PanelOp> {
    seq![
        PanelOp::SetReset(false),
        PanelOp::DelayMs(10),
        PanelOp::SetReset(true),
        PanelOp::DelayMs(120),
        PanelOp::Cmd(CMD_SWRESET),
        PanelOp::DelayMs(120),
        PanelOp::Cmd(CMD_SLPOUT),
        PanelOp::DelayMs(120),
        PanelOp::Cmd(CMD_COLMOD),
        PanelOp::Data(COLMOD_RGB565),
        PanelOp::Cmd(CMD_MADCTL),
        PanelOp::Data(MADCTL_VALUE),
        PanelOp::Cmd(CMD_DISPON),
        PanelOp::DelayMs(50),
        PanelOp::SetBacklight(true),
    ]
}

/// The window-addressing sequence: column address set, page address set
/// (both big-endian 16-bit), then the memory-write command.
pub open spec fn spec_window_ops(x0: u16, y0: u16, x1: u16, y1: u16) -> Seq<PanelOp> {
    seq![
        PanelOp::Cmd(CMD_CASET),
        PanelOp::Data(spec_be_hi(x0)),
        PanelOp::Data(spec_be_lo(x0)),
        PanelOp::Data(spec_be_hi(x1)),
        PanelOp::Data(spec_be_lo(x1)),
        PanelOp::Cmd(CMD_PASET),
        PanelOp::Data(spec_be_hi(y0)),
        PanelOp::Data(spec_be_lo(y0)),
        PanelOp::Data(spec_be_hi(y1)),
        PanelOp::Data(spec_be_lo(y1)),
        PanelOp::Cmd(CMD_RAMWR),
    ]
}

/// The bring-up sequence.
pub fn init_ops() -> (r: Vec<PanelOp>)
    ensures
        r@ == spec_init_ops(),
{
    let mut r: Vec<PanelOp> = Vec::new();
    r.push(PanelOp::SetReset(false));
    r.push(PanelOp::DelayMs(10));
    r.push(PanelOp::SetReset(true));
    r.push(PanelOp::DelayMs(120));
    r.push(PanelOp::Cmd(CMD_SWRESET));
    r.push(PanelOp::DelayMs(120));
    r.push(PanelOp::Cmd(CMD_SLPOUT));
    r.push(PanelOp::DelayMs(120));
    r.push(PanelOp::Cmd(CMD_COLMOD));
    r.push(PanelOp::Data(COLMOD_RGB565));
    r.push(PanelOp::Cmd(CMD_MADCTL));
    r.push(PanelOp::Data(MADCTL_VALUE));
    r.push(PanelOp::Cmd(CMD_DISPON));
    r.push(PanelOp::DelayMs(50));
    r.push(PanelOp::SetBacklight(true));
    proof {
        assert(r@ =~= spec_init_ops());
    }
    r
}

/// The window-addressing sequence for a rectangle.
pub fn window_ops(x0: u16, y0: u16, x1: u16, y1: u16) -> (r: Vec<PanelOp>)
    ensures
        r@ == spec_window_ops(x0, y0, x1, y1),
{
    let mut r: Vec<PanelOp> = Vec::new();
    r.push(PanelOp::Cmd(CMD_CASET));
    r.push(PanelOp::Data(be_hi(x0)));
    r.push(PanelOp::Data(be_lo(x0)));
    r.push(PanelOp::Data(be_hi(x1)));
    r.push(PanelOp::Data(be_lo(x1)));
    r.push(PanelOp::Cmd(CMD_PASET));
    r.push(PanelOp::Data(be_hi(y0)));
    r.push(PanelOp::Data(be_lo(y0)));
    r.push(PanelOp::Data(be_hi(y1)));
    r.push(PanelOp::Data(be_lo(y1)));
    r.push(PanelOp::Cmd(CMD_RAMWR));
    proof {
        assert(r@ =~= spec_window_ops(x0, y0, x1, y1));
    }
    r
}

} // verus!
