//! ST7789 panel driver model.
//!
//! The driver is modelled as pure functions from a panel configuration to the
//! command/data sequences the controller documents: bring-up, memory-access
//! control (orientation), window addressing and pixel streaming. An
//! unverified transport plays the resulting [`PanelOp`] lists back over SPI.

use vstd::prelude::*;
use crate::panel::{
    PanelOp,
    be_hi,
    be_lo,
    chunk_pixels,
    chunk_views,
    fill_pixel_bytes,
    spec_be_hi,
    spec_be_lo,
};

verus! {

pub const CMD_SWRESET: u8 = 0x01;

pub const CMD_SLPIN: u8 = 0x10;

pub const CMD_SLPOUT: u8 = 0x11;

pub const CMD_NORON: u8 = 0x13;

pub const CMD_INVOFF: u8 = 0x20;

pub const CMD_INVON: u8 = 0x21;

pub const CMD_DISPOFF: u8 = 0x28;

pub const CMD_DISPON: u8 = 0x29;

pub const CMD_CASET: u8 = 0x2A;

pub const CMD_RASET: u8 = 0x2B;

pub const CMD_RAMWR: u8 = 0x2C;

pub const CMD_COLMOD: u8 = 0x3A;

pub const CMD_MADCTL: u8 = 0x36;

/// COLMOD argument selecting 16-bit RGB565 pixels.
pub const COLMOD_RGB565: u8 = 0x55;

/// Memory-access control: row address order.
pub const MADCTL_MY: u8 = 0x80;

/// Memory-access control: column address order.
pub const MADCTL_MX: u8 = 0x40;

/// Memory-access control: row/column exchange.
pub const MADCTL_MV: u8 = 0x20;

/// Memory-access control: BGR colour-channel order.
pub const MADCTL_BGR: u8 = 0x08;

/// Largest pixel-byte chunk handed to the transport in one write.
pub const CHUNK_SIZE: usize = 4096;

/// Pixels per buffer used when streaming a solid fill.
pub const FILL_CHUNK_PIXELS: usize = 1024;

/// Logical orientation of the panel.
#[derive(Debug, Clone, Copy, PartialEq, Eq, Structural)]
pub enum Orientation {
    /// Portrait (connector at bottom).
    Portrait,
    /// Landscape (connector at right).
    Landscape,
    /// Portrait inverted (connector at top).
    PortraitInverted,
    /// Landscape inverted (connector at left).
    LandscapeInverted,
}

/// The documented memory-access-control byte for an orientation.
pub open spec fn spec_madctl(o: Orientation) -> u8 {
    match o {
        Orientation::Portrait => MADCTL_MX | MADCTL_BGR,
        Orientation::Landscape => MADCTL_MV | MADCTL_BGR,
        Orientation::PortraitInverted => MADCTL_MY | MADCTL_BGR,
        Orientation::LandscapeInverted => MADCTL_MX | MADCTL_MY | MADCTL_MV | MADCTL_BGR,
    }
}

impl Orientation {
    /// Memory-access-control byte: column order for portrait, row/column
    /// exchange for landscape, row order for inverted portrait, and all
    /// three together for inverted landscape, always with the BGR bit.
    pub fn madctl_value(&self) -> (r: u8)
        ensures
            r == spec_madctl(*self),
    {
        match self {
            Orientation::Portrait => MADCTL_MX | MADCTL_BGR,
            Orientation::Landscape => MADCTL_MV | MADCTL_BGR,
            Orientation::PortraitInverted => MADCTL_MY | MADCTL_BGR,
            Orientation::LandscapeInverted => MADCTL_MX | MADCTL_MY | MADCTL_MV | MADCTL_BGR,
        }
    }
}

/// Panel geometry and behaviour switches.
#[derive(Debug, Clone, Copy, PartialEq, Eq, Structural)]
pub struct St7789Config {
    /// Panel width in pixels, in portrait terms.
    pub width: u16,
    /// Panel height in pixels, in portrait terms.
    pub height: u16,
    /// Column offset for panels narrower than the controller RAM.
    pub col_offset: u16,
    /// Row offset for panels shorter than the controller RAM.
    pub row_offset: u16,
    /// Logical orientation.
    pub orientation: Orientation,
    /// Whether the panel wants inverted colours.
    pub invert_colors: bool,
}

/// Whether the orientation swaps the panel's two axes.
pub open spec fn spec_landscape(o: Orientation) -> bool {
    o == Orientation::Landscape || o == Orientation::LandscapeInverted
}

/// Offset added to column addresses: the column offset in portrait, the row
/// offset once the axes are exchanged.
pub open spec fn spec_col_base(cfg: St7789Config) -> u16 {
    if spec_landscape(cfg.orientation) {
        cfg.row_offset
    } else {
        cfg.col_offset
    }
}

/// Offset added to row addresses.
pub open spec fn spec_row_base(cfg: St7789Config) -> u16 {
    if spec_landscape(cfg.orientation) {
        cfg.col_offset
    } else {
        cfg.row_offset
    }
}

/// Width of the visible area after the orientation is applied.
pub open spec fn spec_effective_width(cfg: St7789Config) -> u16 {
    if spec_landscape(cfg.orientation) {
        cfg.height
    } else {
        cfg.width
    }
}

/// Height of the visible area after the orientation is applied.
pub open spec fn spec_effective_height(cfg: St7789Config) -> u16 {
    if spec_landscape(cfg.orientation) {
        cfg.width
    } else {
        cfg.height
    }
}

/// The bring-up sequence for a configuration: optional hardware reset pulse,
/// software reset, sleep out, RGB565 pixel format, orientation, colour
/// inversion on or off, normal mode, display on.
pub open spec fn spec_init_ops(cfg: St7789Config, has_reset_pin: bool) -> Seq<PanelOp> {
    (if has_reset_pin {
        seq![
            PanelOp::SetReset(true),
            PanelOp::DelayMs(10),
            PanelOp::SetReset(false),
            PanelOp::DelayMs(10),
            PanelOp::SetReset(true),
            PanelOp::DelayMs(120),
        ]
    } else {
        Seq::<PanelOp>::empty()
    }) + seq![
        PanelOp::Cmd(CMD_SWRESET),
        PanelOp::DelayMs(150),
        PanelOp::Cmd(CMD_SLPOUT),
        PanelOp::DelayMs(50),
        PanelOp::Cmd(CMD_COLMOD),
        PanelOp::Data(COLMOD_RGB565),
        PanelOp::DelayMs(10),
        PanelOp::Cmd(CMD_MADCTL),
        PanelOp::Data(spec_madctl(cfg.orientation)),
        if cfg.invert_colors {
            PanelOp::Cmd(CMD_INVON)
        } else {
            PanelOp::Cmd(CMD_INVOFF)
        },
        PanelOp::DelayMs(10),
        PanelOp::Cmd(CMD_NORON),
        PanelOp::DelayMs(10),
        PanelOp::Cmd(CMD_DISPON),
        PanelOp::DelayMs(50),
    ]
}

/// The window-addressing sequence: column address set with the offset
/// big-endian start and end columns, row address set likewise, then the
/// memory-write command that opens the pixel stream.
pub open spec fn spec_window_ops(cfg: St7789Config, x0: u16, y0: u16, x1: u16, y1: u16) -> Seq<
    PanelOp,
> {
    let cs = (x0 + spec_col_base(cfg)) as u16;
    let ce = (x1 + spec_col_base(cfg)) as u16;
    let rs = (y0 + spec_row_base(cfg)) as u16;
    let re = (y1 + spec_row_base(cfg)) as u16;
    seq![
        PanelOp::Cmd(CMD_CASET),
        PanelOp::Data(spec_be_hi(cs)),
        PanelOp::Data(spec_be_lo(cs)),
        PanelOp::Data(spec_be_hi(ce)),
        PanelOp::Data(spec_be_lo(ce)),
        PanelOp::Cmd(CMD_RASET),
        PanelOp::Data(spec_be_hi(rs)),
        PanelOp::Data(spec_be_lo(rs)),
        PanelOp::Data(spec_be_hi(re)),
        PanelOp::Data(spec_be_lo(re)),
        PanelOp::Cmd(CMD_RAMWR),
    ]
}

impl St7789Config {
    /// Common configuration for a 240x240 square panel.
    pub fn square_240() -> (r: St7789Config)
        ensures
            r == (St7789Config {
                width: 240,
                height: 240,
                col_offset: 0,
                row_offset: 0,
                orientation: Orientation::Portrait,
                invert_colors: true,
            }),
    {
        St7789Config {
            width: 240,
            height: 240,
            col_offset: 0,
            row_offset: 0,
            orientation: Orientation::Portrait,
            invert_colors: true,
        }
    }

    /// Common configuration for a 240x320 panel.
    pub fn rect_240x320() -> (r: St7789Config)
        ensures
            r == (St7789Config {
                width: 240,
                height: 320,
                col_offset: 0,
                row_offset: 0,
                orientation: Orientation::Portrait,
                invert_colors: true,
            }),
    {
        St7789Config {
            width: 240,
            height: 320,
            col_offset: 0,
            row_offset: 0,
            orientation: Orientation::Portrait,
            invert_colors: true,
        }
    }

    /// Configuration for a 135x240 panel offset inside the controller RAM.
    pub fn t_display() -> (r: St7789Config)
        ensures
            r == (St7789Config {
                width: 135,
                height: 240,
                col_offset: 52,
                row_offset: 40,
                orientation: Orientation::Portrait,
                invert_colors: true,
            }),
    {
        St7789Config {
            width: 135,
            height: 240,
            col_offset: 52,
            row_offset: 40,
            orientation: Orientation::Portrait,
            invert_colors: true,
        }
    }

    /// Configuration for a 170x320 panel offset inside the controller RAM.
    pub fn t_display_s3() -> (r: St7789Config)
        ensures
            r == (St7789Config {
                width: 170,
                height: 320,
                col_offset: 35,
                row_offset: 0,
                orientation: Orientation::Portrait,
                invert_colors: true,
            }),
    {
        St7789Config {
            width: 170,
            height: 320,
            col_offset: 35,
            row_offset: 0,
            orientation: Orientation::Portrait,
            invert_colors: true,
        }
    }

    /// Configuration for a 320x240 landscape panel.
    pub fn esp32_s3_box() -> (r: St7789Config)
        ensures
            r == (St7789Config {
                width: 320,
                height: 240,
                col_offset: 0,
                row_offset: 0,
                orientation: Orientation::Landscape,
                invert_colors: true,
            }),
    {
        St7789Config {
            width: 320,
            height: 240,
            col_offset: 0,
            row_offset: 0,
            orientation: Orientation::Landscape,
            invert_colors: true,
        }
    }

    /// Width of the visible area after rotation.
    pub fn effective_width(&self) -> (r: u16)
        ensures
            r == spec_effective_width(*self),
    {
        match self.orientation {
            Orientation::Portrait | Orientation::PortraitInverted => self.width,
            Orientation::Landscape | Orientation::LandscapeInverted => self.height,
        }
    }

    /// Height of the visible area after rotation.
    pub fn effective_height(&self) -> (r: u16)
        ensures
            r == spec_effective_height(*self),
    {
        match self.orientation {
            Orientation::Portrait | Orientation::PortraitInverted => self.height,
            Orientation::Landscape | Orientation::LandscapeInverted => self.width,
        }
    }

    /// The bring-up sequence for this configuration.
    pub fn init_ops(&self, has_reset_pin: bool) -> (r: Vec<PanelOp>)
        ensures
            r@ == spec_init_ops(*self, has_reset_pin),
    {
        let mut r: Vec<PanelOp> = Vec::new();
        if has_reset_pin {
            r.push(PanelOp::SetReset(true));
            r.push(PanelOp::DelayMs(10));
            r.push(PanelOp::SetReset(false));
            r.push(PanelOp::DelayMs(10));
            r.push(PanelOp::SetReset(true));
            r.push(PanelOp::DelayMs(120));
        }
        r.push(PanelOp::Cmd(CMD_SWRESET));
        r.push(PanelOp::DelayMs(150));
        r.push(PanelOp::Cmd(CMD_SLPOUT));
        r.push(PanelOp::DelayMs(50));
        r.push(PanelOp::Cmd(CMD_COLMOD));
        r.push(PanelOp::Data(COLMOD_RGB565));
        r.push(PanelOp::DelayMs(10));
        r.push(PanelOp::Cmd(CMD_MADCTL));
        r.push(PanelOp::Data(self.orientation.madctl_value()));
        if self.invert_colors {
            r.push(PanelOp::Cmd(CMD_INVON));
        } else {
            r.push(PanelOp::Cmd(CMD_INVOFF));
        }
        r.push(PanelOp::DelayMs(10));
        r.push(PanelOp::Cmd(CMD_NORON));
        r.push(PanelOp::DelayMs(10));
        r.push(PanelOp::Cmd(CMD_DISPON));
        r.push(PanelOp::DelayMs(50));
        proof {
            assert(r@ =~= spec_init_ops(*self, has_reset_pin));
        }
        r
    }

    /// The window-addressing sequence for a rectangle given in visible-area
    /// coordinates.
    pub fn window_ops(&self, x0: u16, y0: u16, x1: u16, y1: u16) -> (r: Vec<PanelOp>)
        requires
            x0 + spec_col_base(*self) <= u16::MAX,
            x1 + spec_col_base(*self) <= u16::MAX,
            y0 + spec_row_base(*self) <= u16::MAX,
            y1 + spec_row_base(*self) <= u16::MAX,
        ensures
            r@ == spec_window_ops(*self, x0, y0, x1, y1),
    {
        let (col_base, row_base) = match self.orientation {
            Orientation::Portrait | Orientation::PortraitInverted => (
                self.col_offset,
                self.row_offset,
            ),
            Orientation::Landscape | Orientation::LandscapeInverted => (
                self.row_offset,
                self.col_offset,
            ),
        };
        let cs = x0 + col_base;
        let ce = x1 + col_base;
        let rs = y0 + row_base;
        let re = y1 + row_base;
        let mut r: Vec<PanelOp> = Vec::new();
        r.push(PanelOp::Cmd(CMD_CASET));
        r.push(PanelOp::Data(be_hi(cs)));
        r.push(PanelOp::Data(be_lo(cs)));
        r.push(PanelOp::Data(be_hi(ce)));
        r.push(PanelOp::Data(be_lo(ce)));
        r.push(PanelOp::Cmd(CMD_RASET));
        r.push(PanelOp::Data(be_hi(rs)));
        r.push(PanelOp::Data(be_lo(rs)));
        r.push(PanelOp::Data(be_hi(re)));
        r.push(PanelOp::Data(be_lo(re)));
        r.push(PanelOp::Cmd(CMD_RAMWR));
        proof {
            assert(r@ =~= spec_window_ops(*self, x0, y0, x1, y1));
        }
        r
    }

    /// Everything needed to flush a rectangle of rendered pixels: the window
    /// sequence, then the pixel payload in transport-sized chunks.
    pub fn flush_ops(&self, x0: u16, y0: u16, x1: u16, y1: u16, data: &[u8]) -> (r: (
        Vec<PanelOp>,
        Vec<Vec<u8>>,
    ))
        requires
            x0 + spec_col_base(*self) <= u16::MAX,
            x1 + spec_col_base(*self) <= u16::MAX,
            y0 + spec_row_base(*self) <= u16::MAX,
            y1 + spec_row_base(*self) <= u16::MAX,
        ensures
            r.0@ == spec_window_ops(*self, x0, y0, x1, y1),
            forall|i: int| 0 <= i < r.1@.len() ==> #[trigger] r.1@[i]@.len() <= CHUNK_SIZE,
            forall|i: int| 0 <= i < r.1@.len() ==> #[trigger] r.1@[i]@.len() > 0,
            forall|i: int| 0 <= i < r.1@.len() - 1 ==> #[trigger] r.1@[i]@.len() == CHUNK_SIZE,
            chunk_views(r.1@).flatten() == data@,
    {
        let window = self.window_ops(x0, y0, x1, y1);
        let chunks = chunk_pixels(data, CHUNK_SIZE);
        (window, chunks)
    }

    /// Everything needed to paint the whole visible area one colour: the
    /// full-screen window sequence, then one line's worth of pixel bytes per
    /// visible row.
    pub fn clear_ops(&self, color: u16) -> (r: (Vec<PanelOp>, Vec<Vec<u8>>))
        requires
            spec_effective_width(*self) >= 1,
            spec_effective_height(*self) >= 1,
            spec_effective_width(*self) - 1 + spec_col_base(*self) <= u16::MAX,
            spec_effective_height(*self) - 1 + spec_row_base(*self) <= u16::MAX,
        ensures
            r.0@ == spec_window_ops(
                *self,
                0,
                0,
                (spec_effective_width(*self) - 1) as u16,
                (spec_effective_height(*self) - 1) as u16,
            ),
            r.1@.len() == spec_effective_height(*self),
            forall|i: int|
                0 <= i < r.1@.len() ==> #[trigger] r.1@[i]@.len() == spec_effective_width(*self)
                    * 2,
            forall|i: int, k: int|
                0 <= i < r.1@.len() && 0 <= k < r.1@[i]@.len() ==> #[trigger] r.1@[i]@[k] == if k
                    % 2 == 0 {
                    spec_be_hi(color)
                } else {
                    spec_be_lo(color)
                },
    {
        let width = self.effective_width();
        let height = self.effective_height();
        let window = self.window_ops(0, 0, width - 1, height - 1);
        let line = fill_pixel_bytes(width as usize, color);
        let mut rows: Vec<Vec<u8>> = Vec::new();
        let mut i: usize = 0;
        while i < height as usize
            invariant
                i <= height as usize,
                rows@.len() == i,
                line@.len() == width * 2,
                forall|k: int|
                    0 <= k < line@.len() ==> #[trigger] line@[k] == if k % 2 == 0 {
                        spec_be_hi(color)
                    } else {
                        spec_be_lo(color)
                    },
                forall|j: int| 0 <= j < rows@.len() ==> #[trigger] rows@[j]@ == line@,
            decreases height as usize - i,
        {
            let row = line.clone();
            assert(row@ == line@);
            rows.push(row);
            i = i + 1;
        }
        (window, rows)
    }

    /// Everything needed to fill a rectangle one colour: the window sequence,
    /// then the `w * h` pixels as bounded chunks of colour bytes. Every chunk
    /// but the last carries [`FILL_CHUNK_PIXELS`] pixels.
    pub fn fill_rect_ops(&self, x: u16, y: u16, w: u16, h: u16, color: u16) -> (r: (
        Vec<PanelOp>,
        Vec<Vec<u8>>,
    ))
        requires
            w >= 1,
            h >= 1,
            x + w - 1 + spec_col_base(*self) <= u16::MAX,
            y + h - 1 + spec_row_base(*self) <= u16::MAX,
            w * h * 2 <= usize::MAX,
        ensures
            r.0@ == spec_window_ops(*self, x, y, (x + w - 1) as u16, (y + h - 1) as u16),
            r.1@.len() == (w * h) as int / FILL_CHUNK_PIXELS as int + (if (w * h) as int
                % FILL_CHUNK_PIXELS as int > 0 {
                1int
            } else {
                0int
            }),
            forall|i: int|
                0 <= i < r.1@.len() - 1 ==> #[trigger] r.1@[i]@.len() == FILL_CHUNK_PIXELS * 2,
            r.1@.len() > 0 ==> r.1@[r.1@.len() - 1]@.len() == (if (w * h) as int
                % FILL_CHUNK_PIXELS as int > 0 {
                ((w * h) as int % FILL_CHUNK_PIXELS as int) * 2
            } else {
                FILL_CHUNK_PIXELS * 2
            }),
            forall|i: int, k: int|
                0 <= i < r.1@.len() && 0 <= k < r.1@[i]@.len() ==> #[trigger] r.1@[i]@[k] == if k
                    % 2 == 0 {
                    spec_be_hi(color)
                } else {
                    spec_be_lo(color)
                },
    {
        let window = self.window_ops(x, y, x + (w - 1), y + (h - 1));
        let total: usize = (w as usize) * (h as usize);
        let full_chunks = total / FILL_CHUNK_PIXELS;
        let remainder = total % FILL_CHUNK_PIXELS;
        let buf = fill_pixel_bytes(FILL_CHUNK_PIXELS, color);
        let mut chunks: Vec<Vec<u8>> = Vec::new();
        let mut i: usize = 0;
        while i < full_chunks
            invariant
                i <= full_chunks,
                chunks@.len() == i,
                buf@.len() == FILL_CHUNK_PIXELS * 2,
                forall|k: int|
                    0 <= k < buf@.len() ==> #[trigger] buf@[k] == if k % 2 == 0 {
                        spec_be_hi(color)
                    } else {
                        spec_be_lo(color)
                    },
                forall|j: int| 0 <= j < chunks@.len() ==> #[trigger] chunks@[j]@ == buf@,
            decreases full_chunks - i,
        {
            let c = buf.clone();
            assert(c@ == buf@);
            chunks.push(c);
            i = i + 1;
        }
        if remainder > 0 {
            let tail = fill_pixel_bytes(remainder, color);
            chunks.push(tail);
        }
        (window, chunks)
    }

    /// Change the orientation and give the sequence that reprograms the
    /// memory-access-control register accordingly.
    pub fn set_orientation(&mut self, orientation: Orientation) -> (r: Vec<PanelOp>)
        ensures
            *final(self) == (St7789Config { orientation, ..*old(self) }),
            r@ == seq![PanelOp::Cmd(CMD_MADCTL), PanelOp::Data(spec_madctl(orientation))],
    {
        self.orientation = orientation;
        let mut r: Vec<PanelOp> = Vec::new();
        r.push(PanelOp::Cmd(CMD_MADCTL));
        r.push(PanelOp::Data(orientation.madctl_value()));
        proof {
            assert(r@ =~= seq![
                PanelOp::Cmd(CMD_MADCTL),
                PanelOp::Data(spec_madctl(orientation)),
            ]);
        }
        r
    }
}

/// The one-command sequence that turns the display on.
pub fn display_on_ops() -> (r: Vec<PanelOp>)
    ensures
        r@ == seq![PanelOp::Cmd(CMD_DISPON)],
{
    let mut r: Vec<PanelOp> = Vec::new();
    r.push(PanelOp::Cmd(CMD_DISPON));
    proof {
        assert(r@ =~= seq![PanelOp::Cmd(CMD_DISPON)]);
    }
    r
}

/// The one-command sequence that turns the display off.
pub fn display_off_ops() -> (r: Vec<PanelOp>)
    ensures
        r@ == seq![PanelOp::Cmd(CMD_DISPOFF)],
{
    let mut r: Vec<PanelOp> = Vec::new();
    r.push(PanelOp::Cmd(CMD_DISPOFF));
    proof {
        assert(r@ =~= seq![PanelOp::Cmd(CMD_DISPOFF)]);
    }
    r
}

/// The sequence that puts the panel to sleep.
pub fn sleep_ops() -> (r: Vec<PanelOp>)
    ensures
        r@ == seq![PanelOp::Cmd(CMD_SLPIN), PanelOp::DelayMs(5)],
{
    let mut r: Vec<PanelOp> = Vec::new();
    r.push(PanelOp::Cmd(CMD_SLPIN));
    r.push(PanelOp::DelayMs(5));
    proof {
        assert(r@ =~= seq![PanelOp::Cmd(CMD_SLPIN), PanelOp::DelayMs(5)]);
    }
    r
}

/// The sequence that wakes the panel from sleep.
pub fn wake_ops() -> (r: Vec<PanelOp>)
    ensures
        r@ == seq![PanelOp::Cmd(CMD_SLPOUT), PanelOp::DelayMs(120)],
{
    let mut r: Vec<PanelOp> = Vec::new();
    r.push(PanelOp::Cmd(CMD_SLPOUT));
    r.push(PanelOp::DelayMs(120));
    proof {
        assert(r@ =~= seq![PanelOp::Cmd(CMD_SLPOUT), PanelOp::DelayMs(120)]);
    }
    r
}

/// An RGB888 colour packed as RGB565: the top five bits of red, six of
/// green, five of blue.
pub open spec fn spec_rgb565(r: u8, g: u8, b: u8) -> u16 {
    (((r & 0xF8) as u16) << 8) | (((g & 0xFC) as u16) << 3) | ((b as u16) >> 3)
}

/// Pack an RGB888 colour as RGB565.
pub fn rgb565(r: u8, g: u8, b: u8) -> (c: u16)
    ensures
        c == spec_rgb565(r, g, b),
{
    (((r & 0xF8) as u16) << 8) | (((g & 0xFC) as u16) << 3) | ((b as u16) >> 3)
}

pub const COLOR_BLACK: u16 = 0x0000;

pub const COLOR_WHITE: u16 = 0xFFFF;

pub const COLOR_RED: u16 = 0xF800;

pub const COLOR_GREEN: u16 = 0x07E0;

pub const COLOR_BLUE: u16 = 0x001F;

pub const COLOR_YELLOW: u16 = 0xFFE0;

pub const COLOR_CYAN: u16 = 0x07FF;

pub const COLOR_MAGENTA: u16 = 0xF81F;

} // verus!
