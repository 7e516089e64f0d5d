//! Styles: reusable bundles of paint and layout properties.
//!
//! A style starts empty and collects properties through its setters; a
//! property that was never set stays `None`. One style may be attached to
//! many objects and one object may layer many styles, so the style itself is
//! a plain value with no object bookkeeping.

use vstd::prelude::*;
use crate::Color;

verus! {

/// Gradient direction of a background.
#[derive(Debug, Clone, Copy, PartialEq, Eq, Structural)]
pub enum GradDir {
    NoGradient,
    Vertical,
    Horizontal,
}

/// Border side flags, combinable by bitwise or.
#[derive(Debug, Clone, Copy, PartialEq, Eq, Structural)]
pub struct BorderSide(pub u8);

pub const BORDER_SIDE_NONE: u8 = 0x00;

pub const BORDER_SIDE_BOTTOM: u8 = 0x01;

pub const BORDER_SIDE_TOP: u8 = 0x02;

pub const BORDER_SIDE_LEFT: u8 = 0x04;

pub const BORDER_SIDE_RIGHT: u8 = 0x08;

pub const BORDER_SIDE_FULL: u8 = 0x0F;

/// Horizontal alignment of text.
#[derive(Debug, Clone, Copy, PartialEq, Eq, Structural)]
pub enum TextAlign {
    Auto,
    Left,
    Center,
    Right,
}

/// A reusable bundle of paint and layout properties. Every property is
/// optional; only the properties a style sets take part when it is applied.
#[derive(Debug, Clone, Copy, PartialEq, Eq, Structural)]
pub struct Style {
    pub bg_color: Option<Color>,
    pub bg_opa: Option<u8>,
    pub bg_grad_color: Option<Color>,
    pub bg_grad_dir: Option<GradDir>,
    pub border_color: Option<Color>,
    pub border_width: Option<i32>,
    pub border_opa: Option<u8>,
    pub border_side: Option<BorderSide>,
    pub outline_color: Option<Color>,
    pub outline_width: Option<i32>,
    pub outline_opa: Option<u8>,
    pub pad_top: Option<i32>,
    pub pad_bottom: Option<i32>,
    pub pad_left: Option<i32>,
    pub pad_right: Option<i32>,
    pub pad_row: Option<i32>,
    pub pad_column: Option<i32>,
    pub width: Option<i32>,
    pub height: Option<i32>,
    pub min_width: Option<i32>,
    pub min_height: Option<i32>,
    pub max_width: Option<i32>,
    pub max_height: Option<i32>,
    pub radius: Option<i32>,
    pub opa: Option<u8>,
    pub text_color: Option<Color>,
    pub text_opa: Option<u8>,
    pub text_letter_space: Option<i32>,
    pub text_line_space: Option<i32>,
    pub text_align: Option<TextAlign>,
    pub shadow_color: Option<Color>,
    pub shadow_width: Option<i32>,
    pub shadow_offset_x: Option<i32>,
    pub shadow_offset_y: Option<i32>,
    pub shadow_spread: Option<i32>,
    pub shadow_opa: Option<u8>,
}

/// The style with no property set.
pub open spec fn spec_empty_style() -> Style {
    Style {
        bg_color: None,
        bg_opa: None,
        bg_grad_color: None,
        bg_grad_dir: None,
        border_color: None,
        border_width: None,
        border_opa: None,
        border_side: None,
        outline_color: None,
        outline_width: None,
        outline_opa: None,
        pad_top: None,
        pad_bottom: None,
        pad_left: None,
        pad_right: None,
        pad_row: None,
        pad_column: None,
        width: None,
        height: None,
        min_width: None,
        min_height: None,
        max_width: None,
        max_height: None,
        radius: None,
        opa: None,
        text_color: None,
        text_opa: None,
        text_letter_space: None,
        text_line_space: None,
        text_align: None,
        shadow_color: None,
        shadow_width: None,
        shadow_offset_x: None,
        shadow_offset_y: None,
        shadow_spread: None,
        shadow_opa: None,
    }
}

impl Style {
    /// Create a style with no property set.
    pub fn new() -> (r: Style)
        ensures
            r == spec_empty_style(),
    {
        Style {
            bg_color: None,
            bg_opa: None,
            bg_grad_color: None,
            bg_grad_dir: None,
            border_color: None,
            border_width: None,
            border_opa: None,
            border_side: None,
            outline_color: None,
            outline_width: None,
            outline_opa: None,
            pad_top: None,
            pad_bottom: None,
            pad_left: None,
            pad_right: None,
            pad_row: None,
            pad_column: None,
            width: None,
            height: None,
            min_width: None,
            min_height: None,
            max_width: None,
            max_height: None,
            radius: None,
            opa: None,
            text_color: None,
            text_opa: None,
            text_letter_space: None,
            text_line_space: None,
            text_align: None,
            shadow_color: None,
            shadow_width: None,
            shadow_offset_x: None,
            shadow_offset_y: None,
            shadow_spread: None,
            shadow_opa: None,
        }
    }

    /// Set the background colour.
    pub fn set_bg_color(&mut self, color: Color)
        ensures
            *final(self) == (Style { bg_color: Some(color), ..*old(self) }),
    {
        self.bg_color = Some(color);
    }

    /// Set the background opacity.
    pub fn set_bg_opa(&mut self, opa: u8)
        ensures
            *final(self) == (Style { bg_opa: Some(opa), ..*old(self) }),
    {
        self.bg_opa = Some(opa);
    }

    /// Set the background gradient's second colour.
    pub fn set_bg_grad_color(&mut self, color: Color)
        ensures
            *final(self) == (Style { bg_grad_color: Some(color), ..*old(self) }),
    {
        self.bg_grad_color = Some(color);
    }

    /// Set the background gradient's direction.
    pub fn set_bg_grad_dir(&mut self, dir: GradDir)
        ensures
            *final(self) == (Style { bg_grad_dir: Some(dir), ..*old(self) }),
    {
        self.bg_grad_dir = Some(dir);
    }

    /// Set the border colour.
    pub fn set_border_color(&mut self, color: Color)
        ensures
            *final(self) == (Style { border_color: Some(color), ..*old(self) }),
    {
        self.border_color = Some(color);
    }

    /// Set the border width.
    pub fn set_border_width(&mut self, width: i32)
        ensures
            *final(self) == (Style { border_width: Some(width), ..*old(self) }),
    {
        self.border_width = Some(width);
    }

    /// Set the border opacity.
    pub fn set_border_opa(&mut self, opa: u8)
        ensures
            *final(self) == (Style { border_opa: Some(opa), ..*old(self) }),
    {
        self.border_opa = Some(opa);
    }

    /// Set which sides the border is drawn on.
    pub fn set_border_side(&mut self, side: BorderSide)
        ensures
            *final(self) == (Style { border_side: Some(side), ..*old(self) }),
    {
        self.border_side = Some(side);
    }

    /// Set the outline colour.
    pub fn set_outline_color(&mut self, color: Color)
        ensures
            *final(self) == (Style { outline_color: Some(color), ..*old(self) }),
    {
        self.outline_color = Some(color);
    }

    /// Set the outline width.
    pub fn set_outline_width(&mut self, width: i32)
        ensures
            *final(self) == (Style { outline_width: Some(width), ..*old(self) }),
    {
        self.outline_width = Some(width);
    }

    /// Set the outline opacity.
    pub fn set_outline_opa(&mut self, opa: u8)
        ensures
            *final(self) == (Style { outline_opa: Some(opa), ..*old(self) }),
    {
        self.outline_opa = Some(opa);
    }

    /// Set the top padding.
    pub fn set_pad_top(&mut self, pad: i32)
        ensures
            *final(self) == (Style { pad_top: Some(pad), ..*old(self) }),
    {
        self.pad_top = Some(pad);
    }

    /// Set the bottom padding.
    pub fn set_pad_bottom(&mut self, pad: i32)
        ensures
            *final(self) == (Style { pad_bottom: Some(pad), ..*old(self) }),
    {
        self.pad_bottom = Some(pad);
    }

    /// Set the left padding.
    pub fn set_pad_left(&mut self, pad: i32)
        ensures
            *final(self) == (Style { pad_left: Some(pad), ..*old(self) }),
    {
        self.pad_left = Some(pad);
    }

    /// Set the right padding.
    pub fn set_pad_right(&mut self, pad: i32)
        ensures
            *final(self) == (Style { pad_right: Some(pad), ..*old(self) }),
    {
        self.pad_right = Some(pad);
    }

    /// Set the gap between rows.
    pub fn set_pad_row(&mut self, pad: i32)
        ensures
            *final(self) == (Style { pad_row: Some(pad), ..*old(self) }),
    {
        self.pad_row = Some(pad);
    }

    /// Set the gap between columns.
    pub fn set_pad_column(&mut self, pad: i32)
        ensures
            *final(self) == (Style { pad_column: Some(pad), ..*old(self) }),
    {
        self.pad_column = Some(pad);
    }

    /// Set the width.
    pub fn set_width(&mut self, width: i32)
        ensures
            *final(self) == (Style { width: Some(width), ..*old(self) }),
    {
        self.width = Some(width);
    }

    /// Set the height.
    pub fn set_height(&mut self, height: i32)
        ensures
            *final(self) == (Style { height: Some(height), ..*old(self) }),
    {
        self.height = Some(height);
    }

    /// Set the smallest allowed width.
    pub fn set_min_width(&mut self, width: i32)
        ensures
            *final(self) == (Style { min_width: Some(width), ..*old(self) }),
    {
        self.min_width = Some(width);
    }

    /// Set the smallest allowed height.
    pub fn set_min_height(&mut self, height: i32)
        ensures
            *final(self) == (Style { min_height: Some(height), ..*old(self) }),
    {
        self.min_height = Some(height);
    }

    /// Set the largest allowed width.
    pub fn set_max_width(&mut self, width: i32)
        ensures
            *final(self) == (Style { max_width: Some(width), ..*old(self) }),
    {
        self.max_width = Some(width);
    }

    /// Set the largest allowed height.
    pub fn set_max_height(&mut self, height: i32)
        ensures
            *final(self) == (Style { max_height: Some(height), ..*old(self) }),
    {
        self.max_height = Some(height);
    }

    /// Set the corner radius.
    pub fn set_radius(&mut self, radius: i32)
        ensures
            *final(self) == (Style { radius: Some(radius), ..*old(self) }),
    {
        self.radius = Some(radius);
    }

    /// Set the overall opacity.
    pub fn set_opa(&mut self, opa: u8)
        ensures
            *final(self) == (Style { opa: Some(opa), ..*old(self) }),
    {
        self.opa = Some(opa);
    }

    /// Set the text colour.
    pub fn set_text_color(&mut self, color: Color)
        ensures
            *final(self) == (Style { text_color: Some(color), ..*old(self) }),
    {
        self.text_color = Some(color);
    }

    /// Set the text opacity.
    pub fn set_text_opa(&mut self, opa: u8)
        ensures
            *final(self) == (Style { text_opa: Some(opa), ..*old(self) }),
    {
        self.text_opa = Some(opa);
    }

    /// Set the space between letters.
    pub fn set_text_letter_space(&mut self, space: i32)
        ensures
            *final(self) == (Style { text_letter_space: Some(space), ..*old(self) }),
    {
        self.text_letter_space = Some(space);
    }

    /// Set the space between lines.
    pub fn set_text_line_space(&mut self, space: i32)
        ensures
            *final(self) == (Style { text_line_space: Some(space), ..*old(self) }),
    {
        self.text_line_space = Some(space);
    }

    /// Set the text alignment.
    pub fn set_text_align(&mut self, align: TextAlign)
        ensures
            *final(self) == (Style { text_align: Some(align), ..*old(self) }),
    {
        self.text_align = Some(align);
    }

    /// Set the shadow colour.
    pub fn set_shadow_color(&mut self, color: Color)
        ensures
            *final(self) == (Style { shadow_color: Some(color), ..*old(self) }),
    {
        self.shadow_color = Some(color);
    }

    /// Set the shadow width.
    pub fn set_shadow_width(&mut self, width: i32)
        ensures
            *final(self) == (Style { shadow_width: Some(width), ..*old(self) }),
    {
        self.shadow_width = Some(width);
    }

    /// Set the shadow's horizontal offset.
    pub fn set_shadow_offset_x(&mut self, x: i32)
        ensures
            *final(self) == (Style { shadow_offset_x: Some(x), ..*old(self) }),
    {
        self.shadow_offset_x = Some(x);
    }

    /// Set the shadow's vertical offset.
    pub fn set_shadow_offset_y(&mut self, y: i32)
        ensures
            *final(self) == (Style { shadow_offset_y: Some(y), ..*old(self) }),
    {
        self.shadow_offset_y = Some(y);
    }

    /// Set the shadow spread.
    pub fn set_shadow_spread(&mut self, spread: i32)
        ensures
            *final(self) == (Style { shadow_spread: Some(spread), ..*old(self) }),
    {
        self.shadow_spread = Some(spread);
    }

    /// Set the shadow opacity.
    pub fn set_shadow_opa(&mut self, opa: u8)
        ensures
            *final(self) == (Style { shadow_opa: Some(opa), ..*old(self) }),
    {
        self.shadow_opa = Some(opa);
    }

    /// Set all four paddings at once.
    pub fn set_pad_all(&mut self, pad: i32)
        ensures
            *final(self) == (Style {
                pad_top: Some(pad),
                pad_bottom: Some(pad),
                pad_left: Some(pad),
                pad_right: Some(pad),
                ..*old(self)
            }),
    {
        self.set_pad_top(pad);
        self.set_pad_bottom(pad);
        self.set_pad_left(pad);
        self.set_pad_right(pad);
    }

    /// Set the left and right paddings at once.
    pub fn set_pad_hor(&mut self, pad: i32)
        ensures
            *final(self) == (Style { pad_left: Some(pad), pad_right: Some(pad), ..*old(self) }),
    {
        self.set_pad_left(pad);
        self.set_pad_right(pad);
    }

    /// Set the top and bottom paddings at once.
    pub fn set_pad_ver(&mut self, pad: i32)
        ensures
            *final(self) == (Style { pad_top: Some(pad), pad_bottom: Some(pad), ..*old(self) }),
    {
        self.set_pad_top(pad);
        self.set_pad_bottom(pad);
    }
}

} // verus!
