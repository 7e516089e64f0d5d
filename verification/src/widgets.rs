//! The widget set: typed facades over the base object.
//!
//! Every widget owns a base [`Obj`] carrying the common capability set and
//! adds the state its own setters and getters manage. Creation counts a
//! child on the parent object; the renderer's own tree bookkeeping stays
//! outside the library.

use vstd::prelude::*;
use crate::{Color, LvglError, STATE_CHECKED, State};
use crate::obj::{LocalProps, Obj, ObjView, spec_fresh_obj};

verus! {

/// A value clamped into a closed range.
pub open spec fn spec_clamp_i32(v: int, min: int, max: int) -> int {
    if v < min {
        min
    } else if v > max {
        max
    } else {
        v
    }
}

/// Clamp a value into a closed range.
fn clamp_i32(v: i32, min: i32, max: i32) -> (r: i32)
    ensures
        r == spec_clamp_i32(v as int, min as int, max as int),
{
    if v < min {
        min
    } else if v > max {
        max
    } else {
        v
    }
}

// ============================================================================
// Label
// ============================================================================

/// How a label treats text wider than itself.
#[derive(Debug, Clone, Copy, PartialEq, Eq, Structural)]
pub enum LabelLongMode {
    Wrap,
    Dot,
    Scroll,
    ScrollCircular,
    Clip,
}

/// A text label.
pub struct Label {
    pub obj: Obj,
    /// The label text, once one was set.
    pub text: Option<String>,
    pub long_mode: LabelLongMode,
}

impl Label {
    /// Create a label on a parent.
    pub fn create(parent: &mut Obj) -> (r: Result<Label, LvglError>)
        requires
            old(parent)@.child_count < u32::MAX,
        ensures
            final(parent)@ == (ObjView {
                child_count: (old(parent)@.child_count + 1) as u32,
                ..old(parent)@
            }),
            r matches Ok(w) && w.obj@ == spec_fresh_obj() && w.text is None && w.long_mode
                == LabelLongMode::Wrap,
    {
        parent.note_child_created();
        Ok(Label { obj: Obj::fresh(), text: None, long_mode: LabelLongMode::Wrap })
    }

    /// Set the label text.
    pub fn set_text(&mut self, text: String)
        ensures
            final(self).text == Some(text),
            final(self).long_mode == old(self).long_mode,
            final(self).obj == old(self).obj,
    {
        self.text = Some(text);
    }

    /// Set how text wider than the label is treated.
    pub fn set_long_mode(&mut self, mode: LabelLongMode)
        ensures
            final(self).long_mode == mode,
            final(self).text == old(self).text,
            final(self).obj == old(self).obj,
    {
        self.long_mode = mode;
    }

    /// Set the text colour on the label's main part.
    pub fn set_text_color(&mut self, color: Color)
        ensures
            final(self).obj@ == (ObjView {
                local: (LocalProps { text_color: Some(color), ..old(self).obj@.local }),
                ..old(self).obj@
            }),
            final(self).text == old(self).text,
            final(self).long_mode == old(self).long_mode,
    {
        self.obj.set_style_text_color(color, 0);
    }
}

// ============================================================================
// Button
// ============================================================================

/// A push button.
pub struct Button {
    pub obj: Obj,
    /// The text of the label created with the button, if any.
    pub label_text: Option<String>,
}

impl Button {
    /// Create a button on a parent.
    pub fn create(parent: &mut Obj) -> (r: Result<Button, LvglError>)
        requires
            old(parent)@.child_count < u32::MAX,
        ensures
            final(parent)@ == (ObjView {
                child_count: (old(parent)@.child_count + 1) as u32,
                ..old(parent)@
            }),
            r matches Ok(w) && w.obj@ == spec_fresh_obj() && w.label_text is None,
    {
        parent.note_child_created();
        Ok(Button { obj: Obj::fresh(), label_text: None })
    }

    /// Create a button carrying a centred label.
    pub fn create_with_label(parent: &mut Obj, text: String) -> (r: Result<Button, LvglError>)
        requires
            old(parent)@.child_count < u32::MAX,
        ensures
            final(parent)@ == (ObjView {
                child_count: (old(parent)@.child_count + 1) as u32,
                ..old(parent)@
            }),
            r matches Ok(w) && w.label_text == Some(text) && w.obj@ == (ObjView {
                child_count: 1,
                ..spec_fresh_obj()
            }),
    {
        parent.note_child_created();
        let mut obj = Obj::fresh();
        obj.note_child_created();
        Ok(Button { obj, label_text: Some(text) })
    }
}

// ============================================================================
// Slider
// ============================================================================

/// A slider: a value the user drags within a range.
pub struct Slider {
    pub obj: Obj,
    pub value: i32,
    pub min: i32,
    pub max: i32,
}

impl Slider {
    /// Create a slider on a parent, with the default range 0..=100 and
    /// value 0.
    pub fn create(parent: &mut Obj) -> (r: Result<Slider, LvglError>)
        requires
            old(parent)@.child_count < u32::MAX,
        ensures
            final(parent)@ == (ObjView {
                child_count: (old(parent)@.child_count + 1) as u32,
                ..old(parent)@
            }),
            r matches Ok(w) && w.obj@ == spec_fresh_obj() && w.value == 0 && w.min == 0 && w.max
                == 100,
    {
        parent.note_child_created();
        Ok(Slider { obj: Obj::fresh(), value: 0, min: 0, max: 100 })
    }

    /// Set the value, clamped into the range. The animation flag only
    /// affects presentation.
    pub fn set_value(&mut self, value: i32, anim: bool)
        ensures
            final(self).value == spec_clamp_i32(value as int, old(self).min as int, old(self).max as int),
            final(self).min == old(self).min,
            final(self).max == old(self).max,
            final(self).obj == old(self).obj,
    {
        let _anim: bool = anim;
        self.value = clamp_i32(value, self.min, self.max);
    }

    /// The current value.
    pub fn get_value(&self) -> (r: i32)
        ensures
            r == self.value,
    {
        self.value
    }

    /// Set the range and clamp the current value into it.
    pub fn set_range(&mut self, min: i32, max: i32)
        ensures
            final(self).min == min,
            final(self).max == max,
            final(self).value == spec_clamp_i32(old(self).value as int, min as int, max as int),
            final(self).obj == old(self).obj,
    {
        self.min = min;
        self.max = max;
        self.value = clamp_i32(self.value, min, max);
    }
}

// ============================================================================
// Switch
// ============================================================================

/// An on/off switch; the checked state flag carries the position.
pub struct Switch {
    pub obj: Obj,
}

impl Switch {
    /// Create a switch on a parent.
    pub fn create(parent: &mut Obj) -> (r: Result<Switch, LvglError>)
        requires
            old(parent)@.child_count < u32::MAX,
        ensures
            final(parent)@ == (ObjView {
                child_count: (old(parent)@.child_count + 1) as u32,
                ..old(parent)@
            }),
            r matches Ok(w) && w.obj@ == spec_fresh_obj(),
    {
        parent.note_child_created();
        Ok(Switch { obj: Obj::fresh() })
    }

    /// Whether the switch is on (the checked state flag is set).
    pub fn is_checked(&self) -> (r: bool)
        ensures
            r == (self.obj@.states & STATE_CHECKED == STATE_CHECKED),
    {
        self.obj.has_state(State(STATE_CHECKED))
    }

    /// Switch on or off by setting or clearing the checked state flag.
    pub fn set_checked(&mut self, checked: bool)
        ensures
            checked ==> final(self).obj@ == (ObjView {
                states: old(self).obj@.states | STATE_CHECKED,
                ..old(self).obj@
            }),
            !checked ==> final(self).obj@ == (ObjView {
                states: old(self).obj@.states & !STATE_CHECKED,
                ..old(self).obj@
            }),
    {
        if checked {
            self.obj.add_state(State(STATE_CHECKED));
        } else {
            self.obj.remove_state(State(STATE_CHECKED));
        }
    }
}

// ============================================================================
// Checkbox
// ============================================================================

/// A checkbox with a text beside the tick box.
pub struct Checkbox {
    pub obj: Obj,
    pub text: Option<String>,
}

impl Checkbox {
    /// Create a checkbox on a parent.
    pub fn create(parent: &mut Obj) -> (r: Result<Checkbox, LvglError>)
        requires
            old(parent)@.child_count < u32::MAX,
        ensures
            final(parent)@ == (ObjView {
                child_count: (old(parent)@.child_count + 1) as u32,
                ..old(parent)@
            }),
            r matches Ok(w) && w.obj@ == spec_fresh_obj() && w.text is None,
    {
        parent.note_child_created();
        Ok(Checkbox { obj: Obj::fresh(), text: None })
    }

    /// Set the text beside the tick box.
    pub fn set_text(&mut self, text: String)
        ensures
            final(self).text == Some(text),
            final(self).obj == old(self).obj,
    {
        self.text = Some(text);
    }

    /// Whether the box is ticked (the checked state flag is set).
    pub fn is_checked(&self) -> (r: bool)
        ensures
            r == (self.obj@.states & STATE_CHECKED == STATE_CHECKED),
    {
        self.obj.has_state(State(STATE_CHECKED))
    }

    /// Tick or untick the box by setting or clearing the checked state
    /// flag.
    pub fn set_checked(&mut self, checked: bool)
        ensures
            final(self).text == old(self).text,
            checked ==> final(self).obj@ == (ObjView {
                states: old(self).obj@.states | STATE_CHECKED,
                ..old(self).obj@
            }),
            !checked ==> final(self).obj@ == (ObjView {
                states: old(self).obj@.states & !STATE_CHECKED,
                ..old(self).obj@
            }),
    {
        if checked {
            self.obj.add_state(State(STATE_CHECKED));
        } else {
            self.obj.remove_state(State(STATE_CHECKED));
        }
    }
}

// ============================================================================
// Bar
// ============================================================================

/// A progress bar: a value shown within a range.
pub struct Bar {
    pub obj: Obj,
    pub value: i32,
    pub min: i32,
    pub max: i32,
}

impl Bar {
    /// Create a bar on a parent, with the default range 0..=100 and value
    /// 0.
    pub fn create(parent: &mut Obj) -> (r: Result<Bar, LvglError>)
        requires
            old(parent)@.child_count < u32::MAX,
        ensures
            final(parent)@ == (ObjView {
                child_count: (old(parent)@.child_count + 1) as u32,
                ..old(parent)@
            }),
            r matches Ok(w) && w.obj@ == spec_fresh_obj() && w.value == 0 && w.min == 0 && w.max
                == 100,
    {
        parent.note_child_created();
        Ok(Bar { obj: Obj::fresh(), value: 0, min: 0, max: 100 })
    }

    /// Set the value, clamped into the range. The animation flag only
    /// affects presentation.
    pub fn set_value(&mut self, value: i32, anim: bool)
        ensures
            final(self).value == spec_clamp_i32(value as int, old(self).min as int, old(self).max as int),
            final(self).min == old(self).min,
            final(self).max == old(self).max,
            final(self).obj == old(self).obj,
    {
        let _anim: bool = anim;
        self.value = clamp_i32(value, self.min, self.max);
    }

    /// The current value.
    pub fn get_value(&self) -> (r: i32)
        ensures
            r == self.value,
    {
        self.value
    }

    /// Set the range and clamp the current value into it.
    pub fn set_range(&mut self, min: i32, max: i32)
        ensures
            final(self).min == min,
            final(self).max == max,
            final(self).value == spec_clamp_i32(old(self).value as int, min as int, max as int),
            final(self).obj == old(self).obj,
    {
        self.min = min;
        self.max = max;
        self.value = clamp_i32(self.value, min, max);
    }
}

// ============================================================================
// Arc
// ============================================================================

/// Drawing mode of an arc.
#[derive(Debug, Clone, Copy, PartialEq, Eq, Structural)]
pub enum ArcMode {
    Normal,
    Symmetrical,
    Reverse,
}

/// A circular gauge or dial.
pub struct Arc {
    pub obj: Obj,
    pub value: i32,
    pub min: i32,
    pub max: i32,
    pub bg_start_angle: u32,
    pub bg_end_angle: u32,
    pub rotation: i32,
    pub mode: ArcMode,
}

impl Arc {
    /// Create an arc on a parent, with the default range 0..=100, value 0
    /// and background angles 135..=45.
    pub fn create(parent: &mut Obj) -> (r: Result<Arc, LvglError>)
        requires
            old(parent)@.child_count < u32::MAX,
        ensures
            final(parent)@ == (ObjView {
                child_count: (old(parent)@.child_count + 1) as u32,
                ..old(parent)@
            }),
            r matches Ok(w) && w.obj@ == spec_fresh_obj() && w.value == 0 && w.min == 0 && w.max
                == 100 && w.bg_start_angle == 135 && w.bg_end_angle == 45 && w.rotation == 0
                && w.mode == ArcMode::Normal,
    {
        parent.note_child_created();
        Ok(
            Arc {
                obj: Obj::fresh(),
                value: 0,
                min: 0,
                max: 100,
                bg_start_angle: 135,
                bg_end_angle: 45,
                rotation: 0,
                mode: ArcMode::Normal,
            },
        )
    }

    /// Set the value, clamped into the range.
    pub fn set_value(&mut self, value: i32)
        ensures
            final(self).value == spec_clamp_i32(value as int, old(self).min as int, old(self).max as int),
            *final(self) == (Arc { value: final(self).value, ..*old(self) }),
    {
        self.value = clamp_i32(value, self.min, self.max);
    }

    /// The current value.
    pub fn get_value(&self) -> (r: i32)
        ensures
            r == self.value,
    {
        self.value
    }

    /// Set the range and clamp the current value into it.
    pub fn set_range(&mut self, min: i32, max: i32)
        ensures
            final(self).value == spec_clamp_i32(old(self).value as int, min as int, max as int),
            *final(self) == (Arc {
                min,
                max,
                value: final(self).value,
                ..*old(self)
            }),
    {
        self.min = min;
        self.max = max;
        self.value = clamp_i32(self.value, min, max);
    }

    /// Set the background arc's start and end angles in degrees.
    pub fn set_bg_angles(&mut self, start: u32, end: u32)
        ensures
            *final(self) == (Arc { bg_start_angle: start, bg_end_angle: end, ..*old(self) }),
    {
        self.bg_start_angle = start;
        self.bg_end_angle = end;
    }

    /// Set the rotation offset in degrees.
    pub fn set_rotation(&mut self, rotation: i32)
        ensures
            *final(self) == (Arc { rotation, ..*old(self) }),
    {
        self.rotation = rotation;
    }

    /// Set the drawing mode.
    pub fn set_mode(&mut self, mode: ArcMode)
        ensures
            *final(self) == (Arc { mode, ..*old(self) }),
    {
        self.mode = mode;
    }
}

// ============================================================================
// Spinner
// ============================================================================

/// A spinning arc that signals ongoing work.
pub struct Spinner {
    pub obj: Obj,
    pub anim_time_ms: u32,
    pub arc_length_deg: u32,
}

impl Spinner {
    /// Create a spinner on a parent, rotating once a second with a 270
    /// degree arc.
    pub fn create(parent: &mut Obj) -> (r: Result<Spinner, LvglError>)
        requires
            old(parent)@.child_count < u32::MAX,
        ensures
            final(parent)@ == (ObjView {
                child_count: (old(parent)@.child_count + 1) as u32,
                ..old(parent)@
            }),
            r matches Ok(w) && w.obj@ == spec_fresh_obj() && w.anim_time_ms == 1000
                && w.arc_length_deg == 270,
    {
        parent.note_child_created();
        Ok(Spinner { obj: Obj::fresh(), anim_time_ms: 1000, arc_length_deg: 270 })
    }

    /// Set the rotation time and the arc length.
    pub fn set_anim_params(&mut self, time_ms: u32, arc_length: u32)
        ensures
            *final(self) == (Spinner {
                anim_time_ms: time_ms,
                arc_length_deg: arc_length,
                ..*old(self)
            }),
    {
        self.anim_time_ms = time_ms;
        self.arc_length_deg = arc_length;
    }
}

// ============================================================================
// Led
// ============================================================================

/// An indicator light.
pub struct Led {
    pub obj: Obj,
    pub color: Option<Color>,
    pub brightness: u8,
    pub lit: bool,
}

impl Led {
    /// Create an indicator on a parent, lit at full brightness.
    pub fn create(parent: &mut Obj) -> (r: Result<Led, LvglError>)
        requires
            old(parent)@.child_count < u32::MAX,
        ensures
            final(parent)@ == (ObjView {
                child_count: (old(parent)@.child_count + 1) as u32,
                ..old(parent)@
            }),
            r matches Ok(w) && w.obj@ == spec_fresh_obj() && w.color is None && w.brightness
                == 255 && w.lit,
    {
        parent.note_child_created();
        Ok(Led { obj: Obj::fresh(), color: None, brightness: 255, lit: true })
    }

    /// Set the light's colour.
    pub fn set_color(&mut self, color: Color)
        ensures
            *final(self) == (Led { color: Some(color), ..*old(self) }),
    {
        self.color = Some(color);
    }

    /// Set the brightness.
    pub fn set_brightness(&mut self, bright: u8)
        ensures
            *final(self) == (Led { brightness: bright, ..*old(self) }),
    {
        self.brightness = bright;
    }

    /// The current brightness.
    pub fn get_brightness(&self) -> (r: u8)
        ensures
            r == self.brightness,
    {
        self.brightness
    }

    /// Switch the light on.
    pub fn on(&mut self)
        ensures
            *final(self) == (Led { lit: true, ..*old(self) }),
    {
        self.lit = true;
    }

    /// Switch the light off.
    pub fn off(&mut self)
        ensures
            *final(self) == (Led { lit: false, ..*old(self) }),
    {
        self.lit = false;
    }

    /// Flip the light's state.
    pub fn toggle(&mut self)
        ensures
            *final(self) == (Led { lit: !old(self).lit, ..*old(self) }),
    {
        self.lit = !self.lit;
    }
}

// ============================================================================
// Dropdown
// ============================================================================

/// Direction flags, combinable by bitwise or.
#[derive(Debug, Clone, Copy, PartialEq, Eq, Structural)]
pub struct Dir(pub u32);

pub const DIR_NONE: u32 = 0x0;

pub const DIR_LEFT: u32 = 0x1;

pub const DIR_RIGHT: u32 = 0x2;

pub const DIR_TOP: u32 = 0x4;

pub const DIR_BOTTOM: u32 = 0x8;

pub const DIR_HOR: u32 = 0x3;

pub const DIR_VER: u32 = 0xC;

pub const DIR_ALL: u32 = 0xF;

/// A drop-down list of options.
pub struct Dropdown {
    pub obj: Obj,
    /// The options, one entry per line of the list.
    pub options: Vec<String>,
    /// Index of the selected option; zero when there are no options.
    pub selected: u32,
    /// Where the list opens relative to the button.
    pub dir: Dir,
    /// Fixed button text, shown instead of the selected option once set.
    pub text: Option<String>,
    /// Whether the list is open.
    pub open: bool,
    /// Whether the selected option is highlighted in the open list.
    pub selected_highlight: bool,
}

impl Dropdown {
    /// Create a drop-down on a parent, closed and without options.
    pub fn create(parent: &mut Obj) -> (r: Result<Dropdown, LvglError>)
        requires
            old(parent)@.child_count < u32::MAX,
        ensures
            final(parent)@ == (ObjView {
                child_count: (old(parent)@.child_count + 1) as u32,
                ..old(parent)@
            }),
            r matches Ok(w) && w.obj@ == spec_fresh_obj() && w.options@ == Seq::<String>::empty()
                && w.selected == 0 && w.dir == (Dir(DIR_BOTTOM)) && w.text is None && !w.open
                && w.selected_highlight,
    {
        parent.note_child_created();
        let r = Dropdown {
            obj: Obj::fresh(),
            options: Vec::new(),
            selected: 0,
            dir: Dir(DIR_BOTTOM),
            text: None,
            open: false,
            selected_highlight: true,
        };
        proof {
            assert(r.options@ =~= Seq::<String>::empty());
        }
        Ok(r)
    }

    /// Replace the options and reset the selection to the first option.
    pub fn set_options(&mut self, options: Vec<String>)
        requires
            options@.len() <= u32::MAX,
        ensures
            final(self).options == options,
            final(self).selected == 0,
            final(self).obj == old(self).obj,
            final(self).dir == old(self).dir,
            final(self).text == old(self).text,
            final(self).open == old(self).open,
            final(self).selected_highlight == old(self).selected_highlight,
    {
        self.options = options;
        self.selected = 0;
    }

    /// Insert one option at a position; a position past the end appends.
    pub fn add_option(&mut self, option: String, pos: u32)
        requires
            old(self).options@.len() < u32::MAX,
        ensures
            final(self).options@ == old(self).options@.insert(
                spec_clamp_i32(pos as int, 0, old(self).options@.len() as int),
                option,
            ),
            final(self).selected == old(self).selected,
            final(self).obj == old(self).obj,
            final(self).dir == old(self).dir,
            final(self).text == old(self).text,
            final(self).open == old(self).open,
            final(self).selected_highlight == old(self).selected_highlight,
    {
        let len = self.options.len();
        let at = if (pos as usize) < len {
            pos as usize
        } else {
            len
        };
        self.options.insert(at, option);
    }

    /// Remove every option and reset the selection.
    pub fn clear_options(&mut self)
        ensures
            final(self).options@ == Seq::<String>::empty(),
            final(self).selected == 0,
            final(self).obj == old(self).obj,
            final(self).dir == old(self).dir,
            final(self).text == old(self).text,
            final(self).open == old(self).open,
            final(self).selected_highlight == old(self).selected_highlight,
    {
        self.options.clear();
        self.selected = 0;
    }

    /// Select an option by index, clamped to the last option.
    pub fn set_selected(&mut self, index: u32)
        requires
            old(self).options@.len() <= u32::MAX,
        ensures
            final(self).selected == if old(self).options@.len() == 0 {
                0int
            } else {
                spec_clamp_i32(index as int, 0, old(self).options@.len() - 1)
            },
            final(self).options == old(self).options,
            final(self).obj == old(self).obj,
            final(self).dir == old(self).dir,
            final(self).text == old(self).text,
            final(self).open == old(self).open,
            final(self).selected_highlight == old(self).selected_highlight,
    {
        let count = self.options.len();
        self.selected = if count == 0 {
            0
        } else if (index as usize) < count {
            index
        } else {
            (count - 1) as u32
        };
    }

    /// Index of the selected option.
    pub fn get_selected(&self) -> (r: u32)
        ensures
            r == self.selected,
    {
        self.selected
    }

    /// How many options the list holds.
    pub fn get_option_count(&self) -> (r: u32)
        requires
            self.options@.len() <= u32::MAX,
        ensures
            r == self.options@.len(),
    {
        self.options.len() as u32
    }

    /// Set where the list opens relative to the button.
    pub fn set_dir(&mut self, dir: Dir)
        ensures
            final(self).dir == dir,
            final(self).options == old(self).options,
            final(self).selected == old(self).selected,
            final(self).obj == old(self).obj,
            final(self).text == old(self).text,
            final(self).open == old(self).open,
            final(self).selected_highlight == old(self).selected_highlight,
    {
        self.dir = dir;
    }

    /// Set a fixed button text shown instead of the selected option.
    pub fn set_text(&mut self, text: String)
        ensures
            final(self).text == Some(text),
            final(self).options == old(self).options,
            final(self).selected == old(self).selected,
            final(self).obj == old(self).obj,
            final(self).dir == old(self).dir,
            final(self).open == old(self).open,
            final(self).selected_highlight == old(self).selected_highlight,
    {
        self.text = Some(text);
    }

    /// Open the list.
    pub fn open(&mut self)
        ensures
            final(self).open,
            final(self).options == old(self).options,
            final(self).selected == old(self).selected,
            final(self).obj == old(self).obj,
            final(self).dir == old(self).dir,
            final(self).text == old(self).text,
            final(self).selected_highlight == old(self).selected_highlight,
    {
        self.open = true;
    }

    /// Close the list.
    pub fn close(&mut self)
        ensures
            !final(self).open,
            final(self).options == old(self).options,
            final(self).selected == old(self).selected,
            final(self).obj == old(self).obj,
            final(self).dir == old(self).dir,
            final(self).text == old(self).text,
            final(self).selected_highlight == old(self).selected_highlight,
    {
        self.open = false;
    }

    /// Whether the list is open.
    pub fn is_open(&self) -> (r: bool)
        ensures
            r == self.open,
    {
        self.open
    }

    /// Highlight the selected option in the open list or not.
    pub fn set_selected_highlight(&mut self, en: bool)
        ensures
            final(self).selected_highlight == en,
            final(self).options == old(self).options,
            final(self).selected == old(self).selected,
            final(self).obj == old(self).obj,
            final(self).dir == old(self).dir,
            final(self).text == old(self).text,
            final(self).open == old(self).open,
    {
        self.selected_highlight = en;
    }
}

// ============================================================================
// Textarea
// ============================================================================

/// An editable text area with a cursor.
pub struct Textarea {
    pub obj: Obj,
    /// The text as characters.
    pub text: Vec<char>,
    /// Cursor position, between 0 and the text length.
    pub cursor: usize,
    pub placeholder: Option<String>,
    pub one_line: bool,
    pub password_mode: bool,
    pub password_show_time: u32,
    /// Longest allowed text in characters; zero means unlimited.
    pub max_length: usize,
    pub accepted_chars: Option<String>,
    pub text_selection: bool,
}

/// Whether a text area at this length accepts one more character.
pub open spec fn spec_ta_accepts(len: int, max_length: int) -> bool {
    max_length == 0 || len < max_length
}

impl Textarea {
    /// Create an empty text area on a parent.
    pub fn create(parent: &mut Obj) -> (r: Result<Textarea, LvglError>)
        requires
            old(parent)@.child_count < u32::MAX,
        ensures
            final(parent)@ == (ObjView {
                child_count: (old(parent)@.child_count + 1) as u32,
                ..old(parent)@
            }),
            r matches Ok(w) && w.obj@ == spec_fresh_obj() && w.text@ == Seq::<char>::empty()
                && w.cursor == 0 && w.placeholder is None && !w.one_line && !w.password_mode
                && w.password_show_time == 1500 && w.max_length == 0 && w.accepted_chars is None
                && w.text_selection == false,
    {
        parent.note_child_created();
        let r = Textarea {
            obj: Obj::fresh(),
            text: Vec::new(),
            cursor: 0,
            placeholder: None,
            one_line: false,
            password_mode: false,
            password_show_time: 1500,
            max_length: 0,
            accepted_chars: None,
            text_selection: false,
        };
        proof {
            assert(r.text@ =~= Seq::<char>::empty());
        }
        Ok(r)
    }

    /// Replace the whole text, truncated to the length limit, and put the
    /// cursor after the last character.
    pub fn set_text(&mut self, text: Vec<char>)
        ensures
            final(self).text@ == if old(self).max_length > 0 {
                text@.take(spec_clamp_i32(text@.len() as int, 0, old(self).max_length as int))
            } else {
                text@
            },
            final(self).cursor == final(self).text@.len(),
            *final(self) == (Textarea {
                text: final(self).text,
                cursor: final(self).cursor,
                ..*old(self)
            }),
    {
        let mut text = text;
        if self.max_length > 0 && text.len() > self.max_length {
            text.truncate(self.max_length);
        }
        proof {
            if old(self).max_length > 0 {
                assert(text@ =~= old(self).spec_set_text_result(text@));
            }
        }
        self.cursor = text.len();
        self.text = text;
    }

    /// The current text.
    pub fn get_text(&self) -> (r: &Vec<char>)
        ensures
            r@ == self.text@,
    {
        &self.text
    }

    /// Insert one character at the cursor if the length limit allows it;
    /// the cursor moves past it.
    pub fn add_char(&mut self, c: char)
        requires
            old(self).cursor <= old(self).text@.len(),
        ensures
            spec_ta_accepts(old(self).text@.len() as int, old(self).max_length as int) ==> {
                &&& final(self).text@ == old(self).text@.insert(old(self).cursor as int, c)
                &&& final(self).cursor == old(self).cursor + 1
            },
            !spec_ta_accepts(old(self).text@.len() as int, old(self).max_length as int)
                ==> *final(self) == *old(self),
            *final(self) == (Textarea {
                text: final(self).text,
                cursor: final(self).cursor,
                ..*old(self)
            }),
    {
        if self.max_length == 0 || self.text.len() < self.max_length {
            self.text.insert(self.cursor, c);
            let new_len = self.text.len();
            assert(self.cursor < new_len);
            self.cursor = self.cursor + 1;
        }
    }

    /// Insert characters at the cursor, stopping at the length limit; the
    /// cursor moves past what was inserted.
    pub fn add_text(&mut self, text: &Vec<char>)
        requires
            old(self).cursor <= old(self).text@.len(),
        ensures
            exists|taken: int|
                {
                    &&& 0 <= taken <= text@.len()
                    &&& final(self).text@ == old(self).text@.subrange(
                        0,
                        old(self).cursor as int,
                    ) + text@.take(taken) + old(self).text@.subrange(
                        old(self).cursor as int,
                        old(self).text@.len() as int,
                    )
                    &&& final(self).cursor == old(self).cursor + taken
                    &&& (taken < text@.len() ==> !spec_ta_accepts(
                        old(self).text@.len() + taken,
                        old(self).max_length as int,
                    ))
                    &&& (taken > 0 ==> spec_ta_accepts(
                        old(self).text@.len() + taken - 1,
                        old(self).max_length as int,
                    ))
                },
            *final(self) == (Textarea {
                text: final(self).text,
                cursor: final(self).cursor,
                ..*old(self)
            }),
    {
        let ghost pre = *old(self);
        let mut k: usize = 0;
        proof {
            assert(self.text@ =~= pre.text@.subrange(0, pre.cursor as int) + text@.take(0)
                + pre.text@.subrange(pre.cursor as int, pre.text@.len() as int));
        }
        while k < text.len() && (self.max_length == 0 || self.text.len() < self.max_length)
            invariant
                0 <= k <= text@.len(),
                self.cursor == pre.cursor + k,
                self.cursor <= self.text@.len(),
                self.text@.len() == pre.text@.len() + k,
                self.text@ == pre.text@.subrange(0, pre.cursor as int) + text@.take(k as int)
                    + pre.text@.subrange(pre.cursor as int, pre.text@.len() as int),
                self.max_length == pre.max_length,
                self.obj == pre.obj,
                self.placeholder == pre.placeholder,
                self.one_line == pre.one_line,
                self.password_mode == pre.password_mode,
                self.password_show_time == pre.password_show_time,
                self.accepted_chars == pre.accepted_chars,
                self.text_selection == pre.text_selection,
                k > 0 ==> spec_ta_accepts(pre.text@.len() + k - 1, pre.max_length as int),
            decreases text@.len() - k,
        {
            let ghost before = self.text@;
            self.text.insert(self.cursor, text[k]);
            proof {
                assert(self.text@ =~= pre.text@.subrange(0, pre.cursor as int) + text@.take(
                    k + 1,
                ) + pre.text@.subrange(pre.cursor as int, pre.text@.len() as int));
            }
            let new_len = self.text.len();
            assert(self.cursor < new_len);
            self.cursor = self.cursor + 1;
            k = k + 1;
        }
        proof {
            let taken = k as int;
            assert(taken < text@.len() ==> !spec_ta_accepts(
                pre.text@.len() + taken,
                pre.max_length as int,
            ));
        }
    }

    /// Delete the character before the cursor, if there is one.
    pub fn delete_char(&mut self)
        requires
            old(self).cursor <= old(self).text@.len(),
        ensures
            old(self).cursor > 0 ==> {
                &&& final(self).text@ == old(self).text@.remove(old(self).cursor - 1)
                &&& final(self).cursor == old(self).cursor - 1
            },
            old(self).cursor == 0 ==> *final(self) == *old(self),
            *final(self) == (Textarea {
                text: final(self).text,
                cursor: final(self).cursor,
                ..*old(self)
            }),
    {
        if self.cursor > 0 {
            self.text.remove(self.cursor - 1);
            self.cursor = self.cursor - 1;
        }
    }

    /// Delete the character after the cursor, if there is one.
    pub fn delete_char_forward(&mut self)
        requires
            old(self).cursor <= old(self).text@.len(),
        ensures
            old(self).cursor < old(self).text@.len() ==> final(self).text@ == old(
                self,
            ).text@.remove(old(self).cursor as int),
            old(self).cursor == old(self).text@.len() ==> *final(self) == *old(self),
            final(self).cursor == old(self).cursor,
            *final(self) == (Textarea { text: final(self).text, ..*old(self) }),
    {
        if self.cursor < self.text.len() {
            self.text.remove(self.cursor);
        }
    }

    /// Set the placeholder shown while the text is empty.
    pub fn set_placeholder_text(&mut self, text: String)
        ensures
            *final(self) == (Textarea { placeholder: Some(text), ..*old(self) }),
    {
        self.placeholder = Some(text);
    }

    /// Put the cursor at a position; negative positions go to the start and
    /// positions past the end go to the end.
    pub fn set_cursor_pos(&mut self, pos: i32)
        ensures
            final(self).cursor == spec_clamp_i32(pos as int, 0, old(self).text@.len() as int),
            *final(self) == (Textarea { cursor: final(self).cursor, ..*old(self) }),
    {
        let len = self.text.len();
        self.cursor = if pos <= 0 {
            0
        } else if (pos as usize) >= len {
            len
        } else {
            pos as usize
        };
    }

    /// The cursor position.
    pub fn get_cursor_pos(&self) -> (r: u32)
        requires
            self.cursor <= u32::MAX,
        ensures
            r == self.cursor,
    {
        self.cursor as u32
    }

    /// Switch password hiding on or off.
    pub fn set_password_mode(&mut self, en: bool)
        ensures
            *final(self) == (Textarea { password_mode: en, ..*old(self) }),
    {
        self.password_mode = en;
    }

    /// Whether password hiding is on.
    pub fn get_password_mode(&self) -> (r: bool)
        ensures
            r == self.password_mode,
    {
        self.password_mode
    }

    /// How long a typed character stays readable in password mode.
    pub fn set_password_show_time(&mut self, time: u32)
        ensures
            *final(self) == (Textarea { password_show_time: time, ..*old(self) }),
    {
        self.password_show_time = time;
    }

    /// Keep the text on one line or not.
    pub fn set_one_line(&mut self, en: bool)
        ensures
            *final(self) == (Textarea { one_line: en, ..*old(self) }),
    {
        self.one_line = en;
    }

    /// Whether the text is kept on one line.
    pub fn get_one_line(&self) -> (r: bool)
        ensures
            r == self.one_line,
    {
        self.one_line
    }

    /// Set the length limit in characters; zero removes the limit. Text
    /// already present is kept.
    pub fn set_max_length(&mut self, num: u32)
        ensures
            *final(self) == (Textarea { max_length: num as usize, ..*old(self) }),
    {
        self.max_length = num as usize;
    }

    /// The length limit in characters, zero when unlimited.
    pub fn get_max_length(&self) -> (r: u32)
        requires
            self.max_length <= u32::MAX,
        ensures
            r == self.max_length,
    {
        self.max_length as u32
    }

    /// Restrict input to the given characters.
    pub fn set_accepted_chars(&mut self, chars: String)
        ensures
            *final(self) == (Textarea { accepted_chars: Some(chars), ..*old(self) }),
    {
        self.accepted_chars = Some(chars);
    }

    /// Allow or forbid selecting text.
    pub fn set_text_selection(&mut self, en: bool)
        ensures
            *final(self) == (Textarea { text_selection: en, ..*old(self) }),
    {
        self.text_selection = en;
    }

    /// Move the cursor one character right, stopping at the end.
    pub fn cursor_right(&mut self)
        requires
            old(self).cursor <= old(self).text@.len(),
        ensures
            final(self).cursor == if old(self).cursor < old(self).text@.len() {
                old(self).cursor + 1
            } else {
                old(self).cursor as int
            },
            *final(self) == (Textarea { cursor: final(self).cursor, ..*old(self) }),
    {
        if self.cursor < self.text.len() {
            self.cursor = self.cursor + 1;
        }
    }

    /// Move the cursor one character left, stopping at the start.
    pub fn cursor_left(&mut self)
        ensures
            final(self).cursor == if old(self).cursor > 0 {
                old(self).cursor - 1
            } else {
                0int
            },
            *final(self) == (Textarea { cursor: final(self).cursor, ..*old(self) }),
    {
        if self.cursor > 0 {
            self.cursor = self.cursor - 1;
        }
    }

    spec fn spec_set_text_result(&self, text: Seq<char>) -> Seq<char> {
        text.take(spec_clamp_i32(text.len() as int, 0, self.max_length as int))
    }
}

// ============================================================================
// Roller
// ============================================================================

/// Scrolling behaviour of a roller.
#[derive(Debug, Clone, Copy, PartialEq, Eq, Structural)]
pub enum RollerMode {
    Normal,
    Infinite,
}

/// A roller: options on a wheel, one selected.
pub struct Roller {
    pub obj: Obj,
    pub options: Vec<String>,
    pub mode: RollerMode,
    /// Index of the selected option; zero when there are no options.
    pub selected: u32,
    pub visible_rows: u32,
}

impl Roller {
    /// Create a roller on a parent, without options and showing three
    /// rows.
    pub fn create(parent: &mut Obj) -> (r: Result<Roller, LvglError>)
        requires
            old(parent)@.child_count < u32::MAX,
        ensures
            final(parent)@ == (ObjView {
                child_count: (old(parent)@.child_count + 1) as u32,
                ..old(parent)@
            }),
            r matches Ok(w) && w.obj@ == spec_fresh_obj() && w.options@ == Seq::<String>::empty()
                && w.mode == RollerMode::Normal && w.selected == 0 && w.visible_rows == 3,
    {
        parent.note_child_created();
        let r = Roller {
            obj: Obj::fresh(),
            options: Vec::new(),
            mode: RollerMode::Normal,
            selected: 0,
            visible_rows: 3,
        };
        proof {
            assert(r.options@ =~= Seq::<String>::empty());
        }
        Ok(r)
    }

    /// Replace the options and the mode, and reset the selection.
    pub fn set_options(&mut self, options: Vec<String>, mode: RollerMode)
        requires
            options@.len() <= u32::MAX,
        ensures
            final(self).options == options,
            final(self).mode == mode,
            final(self).selected == 0,
            final(self).obj == old(self).obj,
            final(self).visible_rows == old(self).visible_rows,
    {
        self.options = options;
        self.mode = mode;
        self.selected = 0;
    }

    /// How many options the roller holds.
    pub fn get_option_count(&self) -> (r: u32)
        requires
            self.options@.len() <= u32::MAX,
        ensures
            r == self.options@.len(),
    {
        self.options.len() as u32
    }

    /// Select an option by index, clamped to the last option. The
    /// animation flag only affects presentation.
    pub fn set_selected(&mut self, index: u32, anim: bool)
        requires
            old(self).options@.len() <= u32::MAX,
        ensures
            final(self).selected == if old(self).options@.len() == 0 {
                0int
            } else {
                spec_clamp_i32(index as int, 0, old(self).options@.len() - 1)
            },
            final(self).options == old(self).options,
            final(self).mode == old(self).mode,
            final(self).obj == old(self).obj,
            final(self).visible_rows == old(self).visible_rows,
    {
        let _anim: bool = anim;
        let count = self.options.len();
        self.selected = if count == 0 {
            0
        } else if (index as usize) < count {
            index
        } else {
            (count - 1) as u32
        };
    }

    /// Index of the selected option.
    pub fn get_selected(&self) -> (r: u32)
        ensures
            r == self.selected,
    {
        self.selected
    }

    /// Set how many rows are visible.
    pub fn set_visible_row_count(&mut self, count: u32)
        ensures
            final(self).visible_rows == count,
            final(self).options == old(self).options,
            final(self).mode == old(self).mode,
            final(self).selected == old(self).selected,
            final(self).obj == old(self).obj,
    {
        self.visible_rows = count;
    }
}

// ============================================================================
// Line
// ============================================================================

/// A polyline through a list of points.
pub struct Line {
    pub obj: Obj,
    pub points: Vec<(i32, i32)>,
    pub y_invert: bool,
}

impl Line {
    /// Create a line on a parent, without points.
    pub fn create(parent: &mut Obj) -> (r: Result<Line, LvglError>)
        requires
            old(parent)@.child_count < u32::MAX,
        ensures
            final(parent)@ == (ObjView {
                child_count: (old(parent)@.child_count + 1) as u32,
                ..old(parent)@
            }),
            r matches Ok(w) && w.obj@ == spec_fresh_obj() && w.points@ == Seq::<(
                i32,
                i32,
            )>::empty() && !w.y_invert,
    {
        parent.note_child_created();
        let r = Line { obj: Obj::fresh(), points: Vec::new(), y_invert: false };
        proof {
            assert(r.points@ =~= Seq::<(i32, i32)>::empty());
        }
        Ok(r)
    }

    /// Replace the points the line runs through.
    pub fn set_points(&mut self, points: Vec<(i32, i32)>)
        requires
            points@.len() <= u32::MAX,
        ensures
            final(self).points == points,
            final(self).y_invert == old(self).y_invert,
            final(self).obj == old(self).obj,
    {
        self.points = points;
    }

    /// How many points the line runs through.
    pub fn get_point_count(&self) -> (r: u32)
        requires
            self.points@.len() <= u32::MAX,
        ensures
            r == self.points@.len(),
    {
        self.points.len() as u32
    }

    /// Flip the Y axis (zero at the bottom instead of the top) or not.
    pub fn set_y_invert(&mut self, en: bool)
        ensures
            final(self).y_invert == en,
            final(self).points == old(self).points,
            final(self).obj == old(self).obj,
    {
        self.y_invert = en;
    }

    /// Whether the Y axis is flipped.
    pub fn get_y_invert(&self) -> (r: bool)
        ensures
            r == self.y_invert,
    {
        self.y_invert
    }
}

// ============================================================================
// Image
// ============================================================================

/// How an image sits inside its object.
#[derive(Debug, Clone, Copy, PartialEq, Eq, Structural)]
pub enum ImageAlign {
    Default,
    TopLeft,
    TopMid,
    TopRight,
    BottomLeft,
    BottomMid,
    BottomRight,
    LeftMid,
    RightMid,
    Center,
    Stretch,
    Tile,
}

/// An image with rotation, scaling and offsets.
pub struct Image {
    pub obj: Obj,
    /// The image source as a path, once one was set.
    pub src: Option<String>,
    /// Rotation in tenths of a degree.
    pub rotation: i32,
    pub pivot_x: i32,
    pub pivot_y: i32,
    /// Horizontal scale, 256 meaning full size.
    pub scale_x: u32,
    /// Vertical scale, 256 meaning full size.
    pub scale_y: u32,
    pub offset_x: i32,
    pub offset_y: i32,
    pub antialias: bool,
    pub inner_align: ImageAlign,
}

impl Image {
    /// Create an image on a parent, unrotated and at full size.
    pub fn create(parent: &mut Obj) -> (r: Result<Image, LvglError>)
        requires
            old(parent)@.child_count < u32::MAX,
        ensures
            final(parent)@ == (ObjView {
                child_count: (old(parent)@.child_count + 1) as u32,
                ..old(parent)@
            }),
            r matches Ok(w) && w.obj@ == spec_fresh_obj() && w.src is None && w.rotation == 0
                && w.pivot_x == 0 && w.pivot_y == 0 && w.scale_x == 256 && w.scale_y == 256
                && w.offset_x == 0 && w.offset_y == 0 && w.antialias && w.inner_align
                == ImageAlign::Default,
    {
        parent.note_child_created();
        Ok(
            Image {
                obj: Obj::fresh(),
                src: None,
                rotation: 0,
                pivot_x: 0,
                pivot_y: 0,
                scale_x: 256,
                scale_y: 256,
                offset_x: 0,
                offset_y: 0,
                antialias: true,
                inner_align: ImageAlign::Default,
            },
        )
    }

    /// Set the image source path.
    pub fn set_src(&mut self, src: String)
        ensures
            *final(self) == (Image { src: Some(src), ..*old(self) }),
    {
        self.src = Some(src);
    }

    /// Set the rotation in tenths of a degree.
    pub fn set_rotation(&mut self, angle: i32)
        ensures
            *final(self) == (Image { rotation: angle, ..*old(self) }),
    {
        self.rotation = angle;
    }

    /// The rotation in tenths of a degree.
    pub fn get_rotation(&self) -> (r: i32)
        ensures
            r == self.rotation,
    {
        self.rotation
    }

    /// Set the pivot the rotation turns around.
    pub fn set_pivot(&mut self, x: i32, y: i32)
        ensures
            *final(self) == (Image { pivot_x: x, pivot_y: y, ..*old(self) }),
    {
        self.pivot_x = x;
        self.pivot_y = y;
    }

    /// Set both scales at once; 256 means full size.
    pub fn set_scale(&mut self, zoom: u32)
        ensures
            *final(self) == (Image { scale_x: zoom, scale_y: zoom, ..*old(self) }),
    {
        self.scale_x = zoom;
        self.scale_y = zoom;
    }

    /// Set the horizontal scale.
    pub fn set_scale_x(&mut self, zoom: u32)
        ensures
            *final(self) == (Image { scale_x: zoom, ..*old(self) }),
    {
        self.scale_x = zoom;
    }

    /// Set the vertical scale.
    pub fn set_scale_y(&mut self, zoom: u32)
        ensures
            *final(self) == (Image { scale_y: zoom, ..*old(self) }),
    {
        self.scale_y = zoom;
    }

    /// The horizontal scale.
    pub fn get_scale(&self) -> (r: i32)
        requires
            self.scale_x <= i32::MAX,
        ensures
            r == self.scale_x,
    {
        self.scale_x as i32
    }

    /// Set the horizontal offset of the image inside its object.
    pub fn set_offset_x(&mut self, x: i32)
        ensures
            *final(self) == (Image { offset_x: x, ..*old(self) }),
    {
        self.offset_x = x;
    }

    /// Set the vertical offset of the image inside its object.
    pub fn set_offset_y(&mut self, y: i32)
        ensures
            *final(self) == (Image { offset_y: y, ..*old(self) }),
    {
        self.offset_y = y;
    }

    /// Smooth transformed edges or not.
    pub fn set_antialias(&mut self, en: bool)
        ensures
            *final(self) == (Image { antialias: en, ..*old(self) }),
    {
        self.antialias = en;
    }

    /// Set how the image sits inside its object.
    pub fn set_inner_align(&mut self, align: ImageAlign)
        ensures
            *final(self) == (Image { inner_align: align, ..*old(self) }),
    {
        self.inner_align = align;
    }
}

// ============================================================================
// Spinbox
// ============================================================================

/// The value after one spinbox step upwards.
pub open spec fn spec_spinbox_inc(value: int, min: int, max: int, step: int, rollover: bool) -> int {
    if value + step > max {
        if rollover {
            min
        } else {
            max
        }
    } else {
        value + step
    }
}

/// The value after one spinbox step downwards.
pub open spec fn spec_spinbox_dec(value: int, min: int, max: int, step: int, rollover: bool) -> int {
    if value - step < min {
        if rollover {
            max
        } else {
            min
        }
    } else {
        value - step
    }
}

/// A number entry stepped by buttons or an encoder.
pub struct Spinbox {
    pub obj: Obj,
    pub value: i32,
    pub min: i32,
    pub max: i32,
    pub step: i32,
    /// Whether stepping past an end wraps to the other end instead of
    /// stopping there.
    pub rollover: bool,
    pub digit_count: u32,
    pub separator_pos: u32,
}

impl Spinbox {
    /// Create a spinbox on a parent: range -99999..=99999, step 1, five
    /// digits, no rollover.
    pub fn create(parent: &mut Obj) -> (r: Result<Spinbox, LvglError>)
        requires
            old(parent)@.child_count < u32::MAX,
        ensures
            final(parent)@ == (ObjView {
                child_count: (old(parent)@.child_count + 1) as u32,
                ..old(parent)@
            }),
            r matches Ok(w) && w.obj@ == spec_fresh_obj() && w.value == 0 && w.min == -99999
                && w.max == 99999 && w.step == 1 && !w.rollover && w.digit_count == 5
                && w.separator_pos == 0,
    {
        parent.note_child_created();
        Ok(
            Spinbox {
                obj: Obj::fresh(),
                value: 0,
                min: -99999,
                max: 99999,
                step: 1,
                rollover: false,
                digit_count: 5,
                separator_pos: 0,
            },
        )
    }

    /// Set the value, clamped into the range.
    pub fn set_value(&mut self, value: i32)
        ensures
            final(self).value == spec_clamp_i32(value as int, old(self).min as int, old(self).max as int),
            *final(self) == (Spinbox { value: final(self).value, ..*old(self) }),
    {
        self.value = clamp_i32(value, self.min, self.max);
    }

    /// The current value.
    pub fn get_value(&self) -> (r: i32)
        ensures
            r == self.value,
    {
        self.value
    }

    /// Set the range and clamp the current value into it.
    pub fn set_range(&mut self, min: i32, max: i32)
        ensures
            final(self).value == spec_clamp_i32(old(self).value as int, min as int, max as int),
            *final(self) == (Spinbox { min, max, value: final(self).value, ..*old(self) }),
    {
        self.min = min;
        self.max = max;
        self.value = clamp_i32(self.value, min, max);
    }

    /// Set how many digits are shown and where the separator sits.
    pub fn set_digit_format(&mut self, digit_count: u32, separator_pos: u32)
        ensures
            *final(self) == (Spinbox { digit_count, separator_pos, ..*old(self) }),
    {
        self.digit_count = digit_count;
        self.separator_pos = separator_pos;
    }

    /// Set the step size.
    pub fn set_step(&mut self, step: u32)
        requires
            step <= i32::MAX,
        ensures
            *final(self) == (Spinbox { step: step as i32, ..*old(self) }),
    {
        self.step = step as i32;
    }

    /// The step size.
    pub fn get_step(&self) -> (r: i32)
        ensures
            r == self.step,
    {
        self.step
    }

    /// Step the value up: past the maximum it stops there, or wraps to the
    /// minimum with rollover on.
    pub fn increment(&mut self)
        requires
            old(self).step >= 0,
        ensures
            final(self).value == spec_spinbox_inc(
                old(self).value as int,
                old(self).min as int,
                old(self).max as int,
                old(self).step as int,
                old(self).rollover,
            ),
            *final(self) == (Spinbox { value: final(self).value, ..*old(self) }),
    {
        let next: i64 = self.value as i64 + self.step as i64;
        self.value = if next > self.max as i64 {
            if self.rollover {
                self.min
            } else {
                self.max
            }
        } else {
            next as i32
        };
    }

    /// Step the value down: past the minimum it stops there, or wraps to
    /// the maximum with rollover on.
    pub fn decrement(&mut self)
        requires
            old(self).step >= 0,
        ensures
            final(self).value == spec_spinbox_dec(
                old(self).value as int,
                old(self).min as int,
                old(self).max as int,
                old(self).step as int,
                old(self).rollover,
            ),
            *final(self) == (Spinbox { value: final(self).value, ..*old(self) }),
    {
        let next: i64 = self.value as i64 - self.step as i64;
        self.value = if next < self.min as i64 {
            if self.rollover {
                self.max
            } else {
                self.min
            }
        } else {
            next as i32
        };
    }

    /// Wrap at the ends or stop there.
    pub fn set_rollover(&mut self, en: bool)
        ensures
            *final(self) == (Spinbox { rollover: en, ..*old(self) }),
    {
        self.rollover = en;
    }

    /// Whether stepping wraps at the ends.
    pub fn get_rollover(&self) -> (r: bool)
        ensures
            r == self.rollover,
    {
        self.rollover
    }
}

// ============================================================================
// Scale
// ============================================================================

/// Where a scale draws its line and ticks.
#[derive(Debug, Clone, Copy, PartialEq, Eq, Structural)]
pub enum ScaleMode {
    HorizontalTop,
    HorizontalBottom,
    VerticalLeft,
    VerticalRight,
    RoundInner,
    RoundOuter,
}

/// A measurement scale with ticks and optional labels.
pub struct Scale {
    pub obj: Obj,
    pub mode: ScaleMode,
    pub min: i32,
    pub max: i32,
    pub total_ticks: u32,
    pub major_every: u32,
    pub label_show: bool,
    pub angle_range: u32,
    pub rotation: i32,
}

impl Scale {
    /// Create a scale on a parent: horizontal at the bottom, range
    /// 0..=100.
    pub fn create(parent: &mut Obj) -> (r: Result<Scale, LvglError>)
        requires
            old(parent)@.child_count < u32::MAX,
        ensures
            final(parent)@ == (ObjView {
                child_count: (old(parent)@.child_count + 1) as u32,
                ..old(parent)@
            }),
            r matches Ok(w) && w.obj@ == spec_fresh_obj() && w.mode == ScaleMode::HorizontalBottom
                && w.min == 0 && w.max == 100 && w.total_ticks == 11 && w.major_every == 5
                && !w.label_show && w.angle_range == 270 && w.rotation == 0,
    {
        parent.note_child_created();
        Ok(
            Scale {
                obj: Obj::fresh(),
                mode: ScaleMode::HorizontalBottom,
                min: 0,
                max: 100,
                total_ticks: 11,
                major_every: 5,
                label_show: false,
                angle_range: 270,
                rotation: 0,
            },
        )
    }

    /// Set where the scale draws its line and ticks.
    pub fn set_mode(&mut self, mode: ScaleMode)
        ensures
            *final(self) == (Scale { mode, ..*old(self) }),
    {
        self.mode = mode;
    }

    /// Where the scale draws its line and ticks.
    pub fn get_mode(&self) -> (r: ScaleMode)
        ensures
            r == self.mode,
    {
        self.mode
    }

    /// Set the value range the scale spans.
    pub fn set_range(&mut self, min: i32, max: i32)
        ensures
            *final(self) == (Scale { min, max, ..*old(self) }),
    {
        self.min = min;
        self.max = max;
    }

    /// Set how many ticks the scale draws in all.
    pub fn set_total_tick_count(&mut self, count: u32)
        ensures
            *final(self) == (Scale { total_ticks: count, ..*old(self) }),
    {
        self.total_ticks = count;
    }

    /// Make every nth tick a major tick.
    pub fn set_major_tick_every(&mut self, nth: u32)
        ensures
            *final(self) == (Scale { major_every: nth, ..*old(self) }),
    {
        self.major_every = nth;
    }

    /// Show labels on major ticks or not.
    pub fn set_label_show(&mut self, show: bool)
        ensures
            *final(self) == (Scale { label_show: show, ..*old(self) }),
    {
        self.label_show = show;
    }

    /// Set the swept angle of a round scale.
    pub fn set_angle_range(&mut self, angle: u32)
        ensures
            *final(self) == (Scale { angle_range: angle, ..*old(self) }),
    {
        self.angle_range = angle;
    }

    /// Set the rotation of a round scale.
    pub fn set_rotation(&mut self, rotation: i32)
        ensures
            *final(self) == (Scale { rotation, ..*old(self) }),
    {
        self.rotation = rotation;
    }
}

// ============================================================================
// Buttonmatrix
// ============================================================================

/// A matrix of buttons defined by a text map. An empty control word means a
/// button with no special behaviour.
pub struct Buttonmatrix {
    pub obj: Obj,
    /// The button texts.
    pub map: Vec<String>,
    /// One control word per button, bitwise flags.
    pub ctrl: Vec<u32>,
    /// One relative width per button.
    pub widths: Vec<u32>,
    /// The selected button, if any.
    pub selected: Option<u32>,
    /// Radio-button behaviour: at most one button checked.
    pub one_checked: bool,
}

impl Buttonmatrix {
    /// Create a button matrix on a parent, without buttons.
    pub fn create(parent: &mut Obj) -> (r: Result<Buttonmatrix, LvglError>)
        requires
            old(parent)@.child_count < u32::MAX,
        ensures
            final(parent)@ == (ObjView {
                child_count: (old(parent)@.child_count + 1) as u32,
                ..old(parent)@
            }),
            r matches Ok(w) && w.obj@ == spec_fresh_obj() && w.map@ == Seq::<String>::empty()
                && w.ctrl@ == Seq::<u32>::empty() && w.widths@ == Seq::<u32>::empty()
                && w.selected is None && !w.one_checked,
    {
        parent.note_child_created();
        let r = Buttonmatrix {
            obj: Obj::fresh(),
            map: Vec::new(),
            ctrl: Vec::new(),
            widths: Vec::new(),
            selected: None,
            one_checked: false,
        };
        proof {
            assert(r.map@ =~= Seq::<String>::empty());
            assert(r.ctrl@ =~= Seq::<u32>::empty());
            assert(r.widths@ =~= Seq::<u32>::empty());
        }
        Ok(r)
    }

    /// Replace the button map. Control words reset to zero and widths to
    /// one; the selection is cleared.
    pub fn set_map(&mut self, map: Vec<String>)
        requires
            map@.len() <= u32::MAX,
        ensures
            final(self).map == map,
            final(self).ctrl@.len() == map@.len(),
            forall|i: int| 0 <= i < map@.len() ==> #[trigger] final(self).ctrl@[i] == 0,
            final(self).widths@.len() == map@.len(),
            forall|i: int| 0 <= i < map@.len() ==> #[trigger] final(self).widths@[i] == 1,
            final(self).selected is None,
            final(self).obj == old(self).obj,
            final(self).one_checked == old(self).one_checked,
    {
        let n = map.len();
        self.ctrl = vec_filled(n, 0u32);
        self.widths = vec_filled(n, 1u32);
        self.map = map;
        self.selected = None;
    }

    /// The selected button, if any.
    pub fn get_selected_button(&self) -> (r: Option<u32>)
        ensures
            r == self.selected,
    {
        self.selected
    }

    /// Select a button; an index past the map clears the selection.
    pub fn set_selected_button(&mut self, btn_id: u32)
        requires
            old(self).map@.len() <= u32::MAX,
        ensures
            final(self).selected == if btn_id < old(self).map@.len() {
                Some(btn_id)
            } else {
                Option::<u32>::None
            },
            *final(self) == (Buttonmatrix { selected: final(self).selected, ..*old(self) }),
    {
        self.selected = if (btn_id as usize) < self.map.len() {
            Some(btn_id)
        } else {
            None
        };
    }

    /// Set control flags on one button (bitwise or into its word). An
    /// index past the map changes nothing.
    pub fn set_button_ctrl(&mut self, btn_id: u32, ctrl: u32)
        ensures
            btn_id < old(self).ctrl@.len() ==> final(self).ctrl@ == old(self).ctrl@.update(
                btn_id as int,
                old(self).ctrl@[btn_id as int] | ctrl,
            ),
            btn_id >= old(self).ctrl@.len() ==> final(self).ctrl == old(self).ctrl,
            *final(self) == (Buttonmatrix { ctrl: final(self).ctrl, ..*old(self) }),
    {
        if (btn_id as usize) < self.ctrl.len() {
            let idx = btn_id as usize;
            let cur = self.ctrl.remove(idx);
            self.ctrl.insert(idx, cur | ctrl);
            proof {
                assert(self.ctrl@ =~= old(self).ctrl@.update(
                    btn_id as int,
                    old(self).ctrl@[btn_id as int] | ctrl,
                ));
            }
        }
    }

    /// Clear control flags on one button (clear its bits). An index past
    /// the map changes nothing.
    pub fn clear_button_ctrl(&mut self, btn_id: u32, ctrl: u32)
        ensures
            btn_id < old(self).ctrl@.len() ==> final(self).ctrl@ == old(self).ctrl@.update(
                btn_id as int,
                old(self).ctrl@[btn_id as int] & !ctrl,
            ),
            btn_id >= old(self).ctrl@.len() ==> final(self).ctrl == old(self).ctrl,
            *final(self) == (Buttonmatrix { ctrl: final(self).ctrl, ..*old(self) }),
    {
        if (btn_id as usize) < self.ctrl.len() {
            let idx = btn_id as usize;
            let cur = self.ctrl.remove(idx);
            self.ctrl.insert(idx, cur & !ctrl);
            proof {
                assert(self.ctrl@ =~= old(self).ctrl@.update(
                    btn_id as int,
                    old(self).ctrl@[btn_id as int] & !ctrl,
                ));
            }
        }
    }

    /// Set control flags on every button.
    pub fn set_button_ctrl_all(&mut self, ctrl: u32)
        ensures
            final(self).ctrl@.len() == old(self).ctrl@.len(),
            forall|i: int|
                0 <= i < old(self).ctrl@.len() ==> #[trigger] final(self).ctrl@[i] == (old(
                    self,
                ).ctrl@[i] | ctrl),
            *final(self) == (Buttonmatrix { ctrl: final(self).ctrl, ..*old(self) }),
    {
        let ghost pre = *old(self);
        let mut i: usize = 0;
        while i < self.ctrl.len()
            invariant
                0 <= i <= self.ctrl@.len(),
                self.ctrl@.len() == pre.ctrl@.len(),
                forall|j: int| 0 <= j < i ==> #[trigger] self.ctrl@[j] == (pre.ctrl@[j] | ctrl),
                forall|j: int| i <= j < self.ctrl@.len() ==> #[trigger] self.ctrl@[j] == pre.ctrl@[j],
                self.obj == pre.obj,
                self.map == pre.map,
                self.widths == pre.widths,
                self.selected == pre.selected,
                self.one_checked == pre.one_checked,
            decreases self.ctrl@.len() - i,
        {
            let ghost before = self.ctrl@;
            let cur = self.ctrl.remove(i);
            self.ctrl.insert(i, cur | ctrl);
            proof {
                assert(self.ctrl@ =~= before.update(i as int, cur | ctrl));
            }
            i = i + 1;
        }
    }

    /// Radio-button behaviour: keep at most one button checked.
    pub fn set_one_checked(&mut self, en: bool)
        ensures
            *final(self) == (Buttonmatrix { one_checked: en, ..*old(self) }),
    {
        self.one_checked = en;
    }

    /// The text of a button, if the index is in the map.
    pub fn get_button_text(&self, btn_id: u32) -> (r: Option<&String>)
        ensures
            btn_id < self.map@.len() ==> (r matches Some(s) && *s == self.map@[btn_id as int]),
            btn_id >= self.map@.len() ==> r is None,
    {
        if (btn_id as usize) < self.map.len() {
            Some(&self.map[btn_id as usize])
        } else {
            None
        }
    }

    /// Set a button's relative width. An index past the map changes
    /// nothing.
    pub fn set_button_width(&mut self, btn_id: u32, width: u32)
        ensures
            btn_id < old(self).widths@.len() ==> final(self).widths@ == old(
                self,
            ).widths@.update(btn_id as int, width),
            btn_id >= old(self).widths@.len() ==> final(self).widths == old(self).widths,
            *final(self) == (Buttonmatrix { widths: final(self).widths, ..*old(self) }),
    {
        if (btn_id as usize) < self.widths.len() {
            let idx = btn_id as usize;
            self.widths.remove(idx);
            self.widths.insert(idx, width);
            proof {
                assert(self.widths@ =~= old(self).widths@.update(btn_id as int, width));
            }
        }
    }
}

/// A vector of `n` copies of one value.
fn vec_filled<T: Copy>(n: usize, value: T) -> (r: Vec<T>)
    ensures
        r@.len() == n,
        forall|i: int| 0 <= i < n ==> #[trigger] r@[i] == value,
{
    let mut r: Vec<T> = Vec::new();
    let mut i: usize = 0;
    while i < n
        invariant
            0 <= i <= n,
            r@.len() == i,
            forall|j: int| 0 <= j < i ==> #[trigger] r@[j] == value,
        decreases n - i,
    {
        r.push(value);
        i = i + 1;
    }
    r
}

// ============================================================================
// Table
// ============================================================================

/// The value of the cell at a position: the most recent write wins.
pub open spec fn spec_cell_lookup(cells: Seq<(u32, u32, String)>, row: u32, col: u32) -> Option<
    String,
>
    decreases cells.len(),
{
    if cells.len() == 0 {
        None
    } else if cells.last().0 == row && cells.last().1 == col {
        Some(cells.last().2)
    } else {
        spec_cell_lookup(cells.drop_last(), row, col)
    }
}

/// The width set for a column: the most recent write wins.
pub open spec fn spec_column_width(widths: Seq<(u32, i32)>, col: u32) -> Option<i32>
    decreases widths.len(),
{
    if widths.len() == 0 {
        None
    } else if widths.last().0 == col {
        Some(widths.last().1)
    } else {
        spec_column_width(widths.drop_last(), col)
    }
}

/// A table of text cells. Writing a cell grows the table to fit it.
pub struct Table {
    pub obj: Obj,
    pub row_count: u32,
    pub col_count: u32,
    /// Column widths as set, most recent write per column winning.
    pub col_widths: Vec<(u32, i32)>,
    /// Cell writes in order, most recent write per position winning.
    pub cells: Vec<(u32, u32, String)>,
    /// The selected cell, if any.
    pub selected: Option<(u32, u32)>,
}

impl Table {
    /// Create a table on a parent, with one empty cell row and column.
    pub fn create(parent: &mut Obj) -> (r: Result<Table, LvglError>)
        requires
            old(parent)@.child_count < u32::MAX,
        ensures
            final(parent)@ == (ObjView {
                child_count: (old(parent)@.child_count + 1) as u32,
                ..old(parent)@
            }),
            r matches Ok(w) && w.obj@ == spec_fresh_obj() && w.row_count == 1 && w.col_count == 1
                && w.col_widths@ == Seq::<(u32, i32)>::empty() && w.cells@ == Seq::<(
                u32,
                u32,
                String,
            )>::empty() && w.selected is None,
    {
        parent.note_child_created();
        let r = Table {
            obj: Obj::fresh(),
            row_count: 1,
            col_count: 1,
            col_widths: Vec::new(),
            cells: Vec::new(),
            selected: None,
        };
        proof {
            assert(r.col_widths@ =~= Seq::<(u32, i32)>::empty());
            assert(r.cells@ =~= Seq::<(u32, u32, String)>::empty());
        }
        Ok(r)
    }

    /// Set the number of rows.
    pub fn set_row_count(&mut self, count: u32)
        ensures
            *final(self) == (Table { row_count: count, ..*old(self) }),
    {
        self.row_count = count;
    }

    /// The number of rows.
    pub fn get_row_count(&self) -> (r: u32)
        ensures
            r == self.row_count,
    {
        self.row_count
    }

    /// Set the number of columns.
    pub fn set_column_count(&mut self, count: u32)
        ensures
            *final(self) == (Table { col_count: count, ..*old(self) }),
    {
        self.col_count = count;
    }

    /// The number of columns.
    pub fn get_column_count(&self) -> (r: u32)
        ensures
            r == self.col_count,
    {
        self.col_count
    }

    /// Set the width of a column.
    pub fn set_column_width(&mut self, col: u32, width: i32)
        ensures
            final(self).col_widths@ == old(self).col_widths@.push((col, width)),
            *final(self) == (Table { col_widths: final(self).col_widths, ..*old(self) }),
    {
        self.col_widths.push((col, width));
    }

    /// The width of a column: the most recent width set for it, if any was.
    pub fn get_column_width(&self, col: u32) -> (r: Option<i32>)
        ensures
            r == spec_column_width(self.col_widths@, col),
    {
        let mut i: usize = self.col_widths.len();
        proof {
            assert(self.col_widths@.take(i as int) =~= self.col_widths@);
        }
        while i > 0
            invariant
                0 <= i <= self.col_widths@.len(),
                spec_column_width(self.col_widths@, col) == spec_column_width(
                    self.col_widths@.take(i as int),
                    col,
                ),
            decreases i,
        {
            i = i - 1;
            let entry = self.col_widths[i];
            proof {
                assert(self.col_widths@.take(i + 1).drop_last() =~= self.col_widths@.take(
                    i as int,
                ));
                assert(self.col_widths@.take(i + 1).last() == self.col_widths@[i as int]);
            }
            if entry.0 == col {
                return Some(entry.1);
            }
        }
        proof {
            assert(self.col_widths@.take(0) =~= Seq::<(u32, i32)>::empty());
        }
        None
    }

    /// Write a cell's text, growing the table to fit the position.
    pub fn set_cell_value(&mut self, row: u32, col: u32, text: String)
        requires
            row < u32::MAX,
            col < u32::MAX,
        ensures
            final(self).cells@ == old(self).cells@.push((row, col, text)),
            final(self).row_count == if old(self).row_count >= row + 1 {
                old(self).row_count as int
            } else {
                row + 1
            },
            final(self).col_count == if old(self).col_count >= col + 1 {
                old(self).col_count as int
            } else {
                col + 1
            },
            *final(self) == (Table {
                cells: final(self).cells,
                row_count: final(self).row_count,
                col_count: final(self).col_count,
                ..*old(self)
            }),
    {
        if self.row_count < row + 1 {
            self.row_count = row + 1;
        }
        if self.col_count < col + 1 {
            self.col_count = col + 1;
        }
        self.cells.push((row, col, text));
    }

    /// The text of a cell: the most recent write at that position, if
    /// there was one.
    pub fn get_cell_value(&self, row: u32, col: u32) -> (r: Option<&String>)
        ensures
            match r {
                Some(s) => spec_cell_lookup(self.cells@, row, col) == Some(*s),
                None => spec_cell_lookup(self.cells@, row, col) is None,
            },
    {
        let mut i: usize = self.cells.len();
        proof {
            assert(self.cells@.take(i as int) =~= self.cells@);
        }
        while i > 0
            invariant
                0 <= i <= self.cells@.len(),
                spec_cell_lookup(self.cells@, row, col) == spec_cell_lookup(
                    self.cells@.take(i as int),
                    row,
                    col,
                ),
            decreases i,
        {
            i = i - 1;
            let entry = &self.cells[i];
            proof {
                assert(self.cells@.take(i + 1).drop_last() =~= self.cells@.take(i as int));
                assert(self.cells@.take(i + 1).last() == self.cells@[i as int]);
            }
            if entry.0 == row && entry.1 == col {
                return Some(&self.cells[i].2);
            }
        }
        proof {
            assert(self.cells@.take(0) =~= Seq::<(u32, u32, String)>::empty());
        }
        None
    }

    /// The selected cell, if any.
    pub fn get_selected_cell(&self) -> (r: Option<(u32, u32)>)
        ensures
            r == self.selected,
    {
        self.selected
    }

    /// Select a cell.
    pub fn set_selected_cell(&mut self, row: u16, col: u16)
        ensures
            *final(self) == (Table {
                selected: Some((row as u32, col as u32)),
                ..*old(self)
            }),
    {
        self.selected = Some((row as u32, col as u32));
    }
}

// ============================================================================
// Chart
// ============================================================================

/// What a chart draws.
#[derive(Debug, Clone, Copy, PartialEq, Eq, Structural)]
pub enum ChartType {
    /// Draw no data.
    NoChart,
    Line,
    Bar,
    Scatter,
}

/// The axis a series or range belongs to.
#[derive(Debug, Clone, Copy, PartialEq, Eq, Structural)]
pub enum ChartAxis {
    PrimaryY,
    SecondaryY,
    PrimaryX,
    SecondaryX,
}

/// What happens to old samples when new ones arrive at full capacity.
#[derive(Debug, Clone, Copy, PartialEq, Eq, Structural)]
pub enum ChartUpdateMode {
    /// The oldest sample falls out and the rest shift left.
    Shift,
    /// The new sample overwrites in place, wrapping around.
    Circular,
}

/// One data series of a chart.
pub struct SeriesData {
    pub color: Color,
    pub axis: ChartAxis,
    pub data: Vec<i32>,
    pub hidden: bool,
    /// Write position for circular updates.
    pub cursor: usize,
}

/// A handle to one series of a chart: its index in creation order. Removing
/// a series shifts the indices of the series created after it.
#[derive(Debug, Clone, Copy, PartialEq, Eq, Structural)]
pub struct ChartSeries {
    pub index: usize,
}

/// A chart of one or more data series.
pub struct Chart {
    pub obj: Obj,
    pub chart_type: ChartType,
    /// How many samples each series holds at most.
    pub point_count: u32,
    pub update_mode: ChartUpdateMode,
    pub hdiv: u8,
    pub vdiv: u8,
    pub y_primary_range: (i32, i32),
    pub y_secondary_range: (i32, i32),
    pub x_primary_range: (i32, i32),
    pub x_secondary_range: (i32, i32),
    pub series: Vec<SeriesData>,
}

impl Chart {
    /// Create a chart on a parent: a line chart of ten points per series.
    pub fn create(parent: &mut Obj) -> (r: Result<Chart, LvglError>)
        requires
            old(parent)@.child_count < u32::MAX,
        ensures
            final(parent)@ == (ObjView {
                child_count: (old(parent)@.child_count + 1) as u32,
                ..old(parent)@
            }),
            r matches Ok(w) && w.obj@ == spec_fresh_obj() && w.chart_type == ChartType::Line
                && w.point_count == 10 && w.update_mode == ChartUpdateMode::Shift && w.hdiv == 3
                && w.vdiv == 5 && w.y_primary_range == (0i32, 100i32) && w.y_secondary_range == (
                0i32,
                100i32,
            ) && w.x_primary_range == (0i32, 100i32) && w.x_secondary_range == (0i32, 100i32)
                && w.series@.len() == 0,
    {
        parent.note_child_created();
        let r = Chart {
            obj: Obj::fresh(),
            chart_type: ChartType::Line,
            point_count: 10,
            update_mode: ChartUpdateMode::Shift,
            hdiv: 3,
            vdiv: 5,
            y_primary_range: (0, 100),
            y_secondary_range: (0, 100),
            x_primary_range: (0, 100),
            x_secondary_range: (0, 100),
            series: Vec::new(),
        };
        Ok(r)
    }

    /// Set what the chart draws.
    pub fn set_type(&mut self, chart_type: ChartType)
        ensures
            final(self).chart_type == chart_type,
            final(self).series@ == old(self).series@,
            final(self).obj == old(self).obj,
            final(self).point_count == old(self).point_count,
            final(self).update_mode == old(self).update_mode,
    {
        self.chart_type = chart_type;
    }

    /// Set how many samples each series holds at most. Samples already
    /// recorded are kept; the count governs later appends.
    pub fn set_point_count(&mut self, count: u32)
        ensures
            final(self).point_count == count,
            final(self).series@ == old(self).series@,
            final(self).obj == old(self).obj,
            final(self).chart_type == old(self).chart_type,
            final(self).update_mode == old(self).update_mode,
    {
        self.point_count = count;
    }

    /// How many samples each series holds at most.
    pub fn get_point_count(&self) -> (r: u32)
        ensures
            r == self.point_count,
    {
        self.point_count
    }

    /// Set the value range of an axis.
    pub fn set_range(&mut self, axis: ChartAxis, min: i32, max: i32)
        ensures
            final(self).y_primary_range == if axis == ChartAxis::PrimaryY {
                (min, max)
            } else {
                old(self).y_primary_range
            },
            final(self).y_secondary_range == if axis == ChartAxis::SecondaryY {
                (min, max)
            } else {
                old(self).y_secondary_range
            },
            final(self).x_primary_range == if axis == ChartAxis::PrimaryX {
                (min, max)
            } else {
                old(self).x_primary_range
            },
            final(self).x_secondary_range == if axis == ChartAxis::SecondaryX {
                (min, max)
            } else {
                old(self).x_secondary_range
            },
            final(self).series@ == old(self).series@,
            final(self).obj == old(self).obj,
            final(self).chart_type == old(self).chart_type,
            final(self).point_count == old(self).point_count,
            final(self).update_mode == old(self).update_mode,
            final(self).hdiv == old(self).hdiv,
            final(self).vdiv == old(self).vdiv,
    {
        match axis {
            ChartAxis::PrimaryY => {
                self.y_primary_range = (min, max);
            },
            ChartAxis::SecondaryY => {
                self.y_secondary_range = (min, max);
            },
            ChartAxis::PrimaryX => {
                self.x_primary_range = (min, max);
            },
            ChartAxis::SecondaryX => {
                self.x_secondary_range = (min, max);
            },
        }
    }

    /// Set how many horizontal and vertical division lines are drawn.
    pub fn set_div_line_count(&mut self, hdiv: u8, vdiv: u8)
        ensures
            final(self).hdiv == hdiv,
            final(self).vdiv == vdiv,
            final(self).series@ == old(self).series@,
            final(self).obj == old(self).obj,
            final(self).chart_type == old(self).chart_type,
            final(self).point_count == old(self).point_count,
            final(self).update_mode == old(self).update_mode,
            final(self).y_primary_range == old(self).y_primary_range,
            final(self).y_secondary_range == old(self).y_secondary_range,
            final(self).x_primary_range == old(self).x_primary_range,
            final(self).x_secondary_range == old(self).x_secondary_range,
    {
        self.hdiv = hdiv;
        self.vdiv = vdiv;
    }

    /// Add an empty series and hand back its handle.
    pub fn add_series(&mut self, color: Color, axis: ChartAxis) -> (r: ChartSeries)
        ensures
            r.index == old(self).series@.len(),
            final(self).series@.len() == old(self).series@.len() + 1,
            forall|i: int|
                0 <= i < old(self).series@.len() ==> #[trigger] final(self).series@[i] == old(
                    self,
                ).series@[i],
            final(self).series@.last().color == color,
            final(self).series@.last().axis == axis,
            final(self).series@.last().data@ == Seq::<i32>::empty(),
            !final(self).series@.last().hidden,
            final(self).series@.last().cursor == 0,
            final(self).obj == old(self).obj,
            final(self).chart_type == old(self).chart_type,
            final(self).point_count == old(self).point_count,
            final(self).update_mode == old(self).update_mode,
    {
        let index = self.series.len();
        let s = SeriesData { color, axis, data: Vec::new(), hidden: false, cursor: 0 };
        proof {
            assert(s.data@ =~= Seq::<i32>::empty());
        }
        self.series.push(s);
        ChartSeries { index }
    }

    /// Remove a series. Handles to later series shift down by one.
    pub fn remove_series(&mut self, series: &ChartSeries)
        requires
            series.index < old(self).series@.len(),
        ensures
            final(self).series@ == old(self).series@.remove(series.index as int),
            final(self).obj == old(self).obj,
            final(self).chart_type == old(self).chart_type,
            final(self).point_count == old(self).point_count,
            final(self).update_mode == old(self).update_mode,
    {
        self.series.remove(series.index);
    }

    /// Hide or show a series.
    pub fn hide_series(&mut self, series: &ChartSeries, hide: bool)
        requires
            series.index < old(self).series@.len(),
        ensures
            final(self).series@.len() == old(self).series@.len(),
            forall|i: int|
                0 <= i < old(self).series@.len() && i != series.index
                    ==> #[trigger] final(self).series@[i] == old(self).series@[i],
            final(self).series@[series.index as int].hidden == hide,
            final(self).series@[series.index as int].color == old(self).series@[series.index as int].color,
            final(self).series@[series.index as int].axis == old(self).series@[series.index as int].axis,
            final(self).series@[series.index as int].data == old(self).series@[series.index as int].data,
            final(self).series@[series.index as int].cursor == old(self).series@[series.index as int].cursor,
            final(self).obj == old(self).obj,
            final(self).chart_type == old(self).chart_type,
            final(self).point_count == old(self).point_count,
            final(self).update_mode == old(self).update_mode,
    {
        let idx = series.index;
        let mut s = self.series.remove(idx);
        s.hidden = hide;
        self.series.insert(idx, s);
        proof {
            assert(forall|i: int|
                0 <= i < old(self).series@.len() && i != idx
                    ==> #[trigger] self.series@[i] == old(self).series@[i]);
        }
    }

    /// Record the next sample of a series. Under capacity it appends; at
    /// capacity the oldest sample falls out in shift mode, or the sample
    /// overwrites in place, wrapping, in circular mode.
    pub fn set_next_value(&mut self, series: &ChartSeries, value: i32)
        requires
            series.index < old(self).series@.len(),
        ensures
            final(self).series@.len() == old(self).series@.len(),
            forall|i: int|
                0 <= i < old(self).series@.len() && i != series.index
                    ==> #[trigger] final(self).series@[i] == old(self).series@[i],
            ({
                let pre = old(self).series@[series.index as int];
                let post = final(self).series@[series.index as int];
                &&& post.color == pre.color
                &&& post.axis == pre.axis
                &&& post.hidden == pre.hidden
                &&& (if pre.data@.len() < old(self).point_count {
                    post.data@ == pre.data@.push(value) && post.cursor == pre.cursor
                } else if pre.data@.len() == 0 {
                    post.data@ == pre.data@ && post.cursor == pre.cursor
                } else if old(self).update_mode == ChartUpdateMode::Shift {
                    post.data@ == pre.data@.skip(1).push(value) && post.cursor == pre.cursor
                } else {
                    {
                        let at = pre.cursor as int % pre.data@.len() as int;
                        post.data@ == pre.data@.update(at, value) && post.cursor == (at + 1)
                            % pre.data@.len() as int
                    }
                })
            }),
            final(self).obj == old(self).obj,
            final(self).chart_type == old(self).chart_type,
            final(self).point_count == old(self).point_count,
            final(self).update_mode == old(self).update_mode,
    {
        let idx = series.index;
        let mut s = self.series.remove(idx);
        if s.data.len() < self.point_count as usize {
            s.data.push(value);
        } else if s.data.len() == 0 {
            // no capacity at all: the sample is dropped
        } else if matches!(self.update_mode, ChartUpdateMode::Shift) {
            let ghost before = s.data@;
            s.data.remove(0);
            s.data.push(value);
            proof {
                assert(s.data@ =~= before.skip(1).push(value));
            }
        } else {
            let len = s.data.len();
            let at = s.cursor % len;
            let ghost before = s.data@;
            s.data.remove(at);
            s.data.insert(at, value);
            proof {
                assert(s.data@ =~= before.update(at as int, value));
            }
            s.cursor = (at + 1) % len;
        }
        self.series.insert(idx, s);
        proof {
            assert(forall|i: int|
                0 <= i < old(self).series@.len() && i != idx
                    ==> #[trigger] self.series@[i] == old(self).series@[i]);
        }
    }

    /// Set every recorded sample of a series to one value.
    pub fn set_all_value(&mut self, series: &ChartSeries, value: i32)
        requires
            series.index < old(self).series@.len(),
        ensures
            final(self).series@.len() == old(self).series@.len(),
            forall|i: int|
                0 <= i < old(self).series@.len() && i != series.index
                    ==> #[trigger] final(self).series@[i] == old(self).series@[i],
            final(self).series@[series.index as int].data@.len() == old(self).series@[series.index as int].data@.len(),
            forall|k: int|
                0 <= k < old(self).series@[series.index as int].data@.len()
                    ==> #[trigger] final(self).series@[series.index as int].data@[k] == value,
            final(self).obj == old(self).obj,
            final(self).chart_type == old(self).chart_type,
            final(self).point_count == old(self).point_count,
            final(self).update_mode == old(self).update_mode,
    {
        let idx = series.index;
        let mut s = self.series.remove(idx);
        let n = s.data.len();
        s.data = vec_filled(n, value);
        self.series.insert(idx, s);
        proof {
            assert(forall|i: int|
                0 <= i < old(self).series@.len() && i != idx
                    ==> #[trigger] self.series@[i] == old(self).series@[i]);
        }
    }

    /// Overwrite one sample of a series by index; an index past the data
    /// changes nothing.
    pub fn set_value_by_id(&mut self, series: &ChartSeries, id: u32, value: i32)
        requires
            series.index < old(self).series@.len(),
        ensures
            final(self).series@.len() == old(self).series@.len(),
            forall|i: int|
                0 <= i < old(self).series@.len() && i != series.index
                    ==> #[trigger] final(self).series@[i] == old(self).series@[i],
            ({
                let pre = old(self).series@[series.index as int];
                let post = final(self).series@[series.index as int];
                if id < pre.data@.len() {
                    post.data@ == pre.data@.update(id as int, value)
                } else {
                    post.data@ == pre.data@
                }
            }),
            final(self).obj == old(self).obj,
            final(self).chart_type == old(self).chart_type,
            final(self).point_count == old(self).point_count,
            final(self).update_mode == old(self).update_mode,
    {
        let idx = series.index;
        let mut s = self.series.remove(idx);
        if (id as usize) < s.data.len() {
            let at = id as usize;
            let ghost before = s.data@;
            s.data.remove(at);
            s.data.insert(at, value);
            proof {
                assert(s.data@ =~= before.update(at as int, value));
            }
        }
        self.series.insert(idx, s);
        proof {
            assert(forall|i: int|
                0 <= i < old(self).series@.len() && i != idx
                    ==> #[trigger] self.series@[i] == old(self).series@[i]);
        }
    }

    /// Set what happens to old samples at full capacity.
    pub fn set_update_mode(&mut self, mode: ChartUpdateMode)
        ensures
            final(self).update_mode == mode,
            final(self).series@ == old(self).series@,
            final(self).obj == old(self).obj,
            final(self).chart_type == old(self).chart_type,
            final(self).point_count == old(self).point_count,
    {
        self.update_mode = mode;
    }

    /// Mark the chart for a redraw after its data changed.
    pub fn refresh(&mut self)
        ensures
            final(self).obj@ == (ObjView { needs_redraw: true, ..old(self).obj@ }),
            final(self).series@ == old(self).series@,
            final(self).chart_type == old(self).chart_type,
            final(self).point_count == old(self).point_count,
            final(self).update_mode == old(self).update_mode,
    {
        self.obj.invalidate();
    }
}

// ============================================================================
// List
// ============================================================================

/// One entry of a list: a plain text row or a button row.
#[derive(Debug, PartialEq, Eq)]
pub enum ListEntry {
    Text(String),
    Button(String),
}

/// A scrollable list of text and button rows.
pub struct List {
    pub obj: Obj,
    pub entries: Vec<ListEntry>,
}

impl List {
    /// Create a list on a parent, without rows.
    pub fn create(parent: &mut Obj) -> (r: Result<List, LvglError>)
        requires
            old(parent)@.child_count < u32::MAX,
        ensures
            final(parent)@ == (ObjView {
                child_count: (old(parent)@.child_count + 1) as u32,
                ..old(parent)@
            }),
            r matches Ok(w) && w.obj@ == spec_fresh_obj() && w.entries@ == Seq::<
                ListEntry,
            >::empty(),
    {
        parent.note_child_created();
        let r = List { obj: Obj::fresh(), entries: Vec::new() };
        proof {
            assert(r.entries@ =~= Seq::<ListEntry>::empty());
        }
        Ok(r)
    }

    /// Append a plain text row and hand back its object.
    pub fn add_text(&mut self, text: String) -> (r: Obj)
        requires
            old(self).obj@.child_count < u32::MAX,
        ensures
            final(self).entries@ == old(self).entries@.push(ListEntry::Text(text)),
            final(self).obj@ == (ObjView {
                child_count: (old(self).obj@.child_count + 1) as u32,
                ..old(self).obj@
            }),
            r@ == spec_fresh_obj(),
    {
        self.obj.note_child_created();
        self.entries.push(ListEntry::Text(text));
        Obj::fresh()
    }

    /// Append a button row and hand back its object.
    pub fn add_button(&mut self, text: String) -> (r: Obj)
        requires
            old(self).obj@.child_count < u32::MAX,
        ensures
            final(self).entries@ == old(self).entries@.push(ListEntry::Button(text)),
            final(self).obj@ == (ObjView {
                child_count: (old(self).obj@.child_count + 1) as u32,
                ..old(self).obj@
            }),
            r@ == spec_fresh_obj(),
    {
        self.obj.note_child_created();
        self.entries.push(ListEntry::Button(text));
        Obj::fresh()
    }
}

// ============================================================================
// Msgbox
// ============================================================================

/// A message box: a title, a text and footer buttons.
pub struct Msgbox {
    pub obj: Obj,
    pub title: Option<String>,
    pub text: Option<String>,
    pub footer_buttons: Vec<String>,
    pub has_close_button: bool,
    pub closed: bool,
}

impl Msgbox {
    /// Create an empty message box on a parent.
    pub fn create(parent: &mut Obj) -> (r: Result<Msgbox, LvglError>)
        requires
            old(parent)@.child_count < u32::MAX,
        ensures
            final(parent)@ == (ObjView {
                child_count: (old(parent)@.child_count + 1) as u32,
                ..old(parent)@
            }),
            r matches Ok(w) && w.obj@ == spec_fresh_obj() && w.title is None && w.text is None
                && w.footer_buttons@ == Seq::<String>::empty() && !w.has_close_button
                && !w.closed,
    {
        parent.note_child_created();
        let r = Msgbox {
            obj: Obj::fresh(),
            title: None,
            text: None,
            footer_buttons: Vec::new(),
            has_close_button: false,
            closed: false,
        };
        proof {
            assert(r.footer_buttons@ =~= Seq::<String>::empty());
        }
        Ok(r)
    }

    /// Set the title and hand back its object.
    pub fn add_title(&mut self, title: String) -> (r: Obj)
        ensures
            *final(self) == (Msgbox { title: Some(title), ..*old(self) }),
            r@ == spec_fresh_obj(),
    {
        self.title = Some(title);
        Obj::fresh()
    }

    /// Set the body text and hand back its object.
    pub fn add_text(&mut self, text: String) -> (r: Obj)
        ensures
            *final(self) == (Msgbox { text: Some(text), ..*old(self) }),
            r@ == spec_fresh_obj(),
    {
        self.text = Some(text);
        Obj::fresh()
    }

    /// Append a footer button and hand back its object.
    pub fn add_footer_button(&mut self, text: String) -> (r: Obj)
        ensures
            final(self).footer_buttons@ == old(self).footer_buttons@.push(text),
            *final(self) == (Msgbox { footer_buttons: final(self).footer_buttons, ..*old(self) }),
            r@ == spec_fresh_obj(),
    {
        self.footer_buttons.push(text);
        Obj::fresh()
    }

    /// Add the close button in the corner and hand back its object.
    pub fn add_close_button(&mut self) -> (r: Obj)
        ensures
            *final(self) == (Msgbox { has_close_button: true, ..*old(self) }),
            r@ == spec_fresh_obj(),
    {
        self.has_close_button = true;
        Obj::fresh()
    }

    /// Close the message box.
    pub fn close(&mut self)
        ensures
            *final(self) == (Msgbox { closed: true, ..*old(self) }),
    {
        self.closed = true;
    }

    /// Close the message box at the next idle moment.
    pub fn close_async(&mut self)
        ensures
            *final(self) == (Msgbox { closed: true, ..*old(self) }),
    {
        self.closed = true;
    }
}

// ============================================================================
// Tabview
// ============================================================================

/// A tab view: a bar of tab buttons over one content page per tab.
pub struct Tabview {
    pub obj: Obj,
    /// The tab bar as an object of its own.
    pub tab_bar: Obj,
    /// The content area as an object of its own.
    pub content: Obj,
    pub tab_names: Vec<String>,
    /// Index of the active tab; zero when there are no tabs.
    pub active: u32,
    pub tab_bar_position: Dir,
    pub tab_bar_size: i32,
}

impl Tabview {
    /// Create a tab view on a parent, without tabs and with the bar on
    /// top.
    pub fn create(parent: &mut Obj) -> (r: Result<Tabview, LvglError>)
        requires
            old(parent)@.child_count < u32::MAX,
        ensures
            final(parent)@ == (ObjView {
                child_count: (old(parent)@.child_count + 1) as u32,
                ..old(parent)@
            }),
            r matches Ok(w) && w.obj@ == (ObjView { child_count: 2, ..spec_fresh_obj() })
                && w.tab_bar@ == spec_fresh_obj() && w.content@ == spec_fresh_obj()
                && w.tab_names@ == Seq::<String>::empty() && w.active == 0 && w.tab_bar_position
                == (Dir(DIR_TOP)) && w.tab_bar_size == 70,
    {
        parent.note_child_created();
        let mut obj = Obj::fresh();
        obj.note_child_created();
        obj.note_child_created();
        let r = Tabview {
            obj,
            tab_bar: Obj::fresh(),
            content: Obj::fresh(),
            tab_names: Vec::new(),
            active: 0,
            tab_bar_position: Dir(DIR_TOP),
            tab_bar_size: 70,
        };
        proof {
            assert(r.tab_names@ =~= Seq::<String>::empty());
        }
        Ok(r)
    }

    /// Append a tab and hand back its page object.
    pub fn add_tab(&mut self, name: String) -> (r: Obj)
        requires
            old(self).content@.child_count < u32::MAX,
        ensures
            final(self).tab_names@ == old(self).tab_names@.push(name),
            final(self).content@ == (ObjView {
                child_count: (old(self).content@.child_count + 1) as u32,
                ..old(self).content@
            }),
            final(self).obj == old(self).obj,
            final(self).tab_bar == old(self).tab_bar,
            final(self).active == old(self).active,
            final(self).tab_bar_position == old(self).tab_bar_position,
            final(self).tab_bar_size == old(self).tab_bar_size,
            r@ == spec_fresh_obj(),
    {
        self.content.note_child_created();
        self.tab_names.push(name);
        Obj::fresh()
    }

    /// Rename a tab; an index past the tabs changes nothing.
    pub fn rename_tab(&mut self, index: u32, name: String)
        ensures
            index < old(self).tab_names@.len() ==> final(self).tab_names@ == old(
                self,
            ).tab_names@.update(index as int, name),
            index >= old(self).tab_names@.len() ==> final(self).tab_names == old(self).tab_names,
            final(self).obj == old(self).obj,
            final(self).tab_bar == old(self).tab_bar,
            final(self).content == old(self).content,
            final(self).active == old(self).active,
            final(self).tab_bar_position == old(self).tab_bar_position,
            final(self).tab_bar_size == old(self).tab_bar_size,
    {
        if (index as usize) < self.tab_names.len() {
            let idx = index as usize;
            self.tab_names.remove(idx);
            self.tab_names.insert(idx, name);
            proof {
                assert(self.tab_names@ =~= old(self).tab_names@.update(
                    index as int,
                    self.tab_names@[index as int],
                ));
            }
        }
    }

    /// Activate a tab by index, clamped to the last tab. The animation
    /// flag only affects presentation.
    pub fn set_active(&mut self, index: u32, anim: bool)
        requires
            old(self).tab_names@.len() <= u32::MAX,
        ensures
            final(self).active == if old(self).tab_names@.len() == 0 {
                0int
            } else {
                spec_clamp_i32(index as int, 0, old(self).tab_names@.len() - 1)
            },
            final(self).tab_names == old(self).tab_names,
            final(self).obj == old(self).obj,
            final(self).tab_bar == old(self).tab_bar,
            final(self).content == old(self).content,
            final(self).tab_bar_position == old(self).tab_bar_position,
            final(self).tab_bar_size == old(self).tab_bar_size,
    {
        let _anim: bool = anim;
        let count = self.tab_names.len();
        self.active = if count == 0 {
            0
        } else if (index as usize) < count {
            index
        } else {
            (count - 1) as u32
        };
    }

    /// Index of the active tab.
    pub fn get_tab_active(&self) -> (r: u32)
        ensures
            r == self.active,
    {
        self.active
    }

    /// How many tabs there are.
    pub fn get_tab_count(&self) -> (r: u32)
        requires
            self.tab_names@.len() <= u32::MAX,
        ensures
            r == self.tab_names@.len(),
    {
        self.tab_names.len() as u32
    }

    /// Move the tab bar to a side.
    pub fn set_tab_bar_position(&mut self, dir: Dir)
        ensures
            final(self).tab_bar_position == dir,
            final(self).tab_names == old(self).tab_names,
            final(self).obj == old(self).obj,
            final(self).tab_bar == old(self).tab_bar,
            final(self).content == old(self).content,
            final(self).active == old(self).active,
            final(self).tab_bar_size == old(self).tab_bar_size,
    {
        self.tab_bar_position = dir;
    }

    /// Set the tab bar's thickness.
    pub fn set_tab_bar_size(&mut self, size: i32)
        ensures
            final(self).tab_bar_size == size,
            final(self).tab_names == old(self).tab_names,
            final(self).obj == old(self).obj,
            final(self).tab_bar == old(self).tab_bar,
            final(self).content == old(self).content,
            final(self).active == old(self).active,
            final(self).tab_bar_position == old(self).tab_bar_position,
    {
        self.tab_bar_size = size;
    }
}

// ============================================================================
// Tileview
// ============================================================================

/// A tile view: full-size pages arranged on a grid, scrolled between.
pub struct Tileview {
    pub obj: Obj,
    /// The tiles as (column, row, allowed scroll directions).
    pub tiles: Vec<(u8, u8, Dir)>,
    /// Grid position of the active tile.
    pub active: (u32, u32),
}

impl Tileview {
    /// Create a tile view on a parent, without tiles.
    pub fn create(parent: &mut Obj) -> (r: Result<Tileview, LvglError>)
        requires
            old(parent)@.child_count < u32::MAX,
        ensures
            final(parent)@ == (ObjView {
                child_count: (old(parent)@.child_count + 1) as u32,
                ..old(parent)@
            }),
            r matches Ok(w) && w.obj@ == spec_fresh_obj() && w.tiles@ == Seq::<(
                u8,
                u8,
                Dir,
            )>::empty() && w.active == (0u32, 0u32),
    {
        parent.note_child_created();
        let r = Tileview { obj: Obj::fresh(), tiles: Vec::new(), active: (0, 0) };
        proof {
            assert(r.tiles@ =~= Seq::<(u8, u8, Dir)>::empty());
        }
        Ok(r)
    }

    /// Add a tile at a grid position and hand back its object.
    pub fn add_tile(&mut self, col: u8, row: u8, dir: Dir) -> (r: Obj)
        requires
            old(self).obj@.child_count < u32::MAX,
        ensures
            final(self).tiles@ == old(self).tiles@.push((col, row, dir)),
            final(self).obj@ == (ObjView {
                child_count: (old(self).obj@.child_count + 1) as u32,
                ..old(self).obj@
            }),
            final(self).active == old(self).active,
            r@ == spec_fresh_obj(),
    {
        self.obj.note_child_created();
        self.tiles.push((col, row, dir));
        Obj::fresh()
    }

    /// Scroll to the tile at a grid position. The animation flag only
    /// affects presentation.
    pub fn set_tile_by_index(&mut self, col: u32, row: u32, anim: bool)
        ensures
            final(self).active == (col, row),
            final(self).tiles == old(self).tiles,
            final(self).obj == old(self).obj,
    {
        let _anim: bool = anim;
        self.active = (col, row);
    }
}

// ============================================================================
// Calendar
// ============================================================================

/// A calendar showing one month, with a highlighted current date.
pub struct Calendar {
    pub obj: Obj,
    /// Today as (year, month, day), once set.
    pub today: Option<(u32, u32, u32)>,
    /// The shown month as (year, month), once set.
    pub showed: Option<(u32, u32)>,
}

impl Calendar {
    /// Create a calendar on a parent.
    pub fn create(parent: &mut Obj) -> (r: Result<Calendar, LvglError>)
        requires
            old(parent)@.child_count < u32::MAX,
        ensures
            final(parent)@ == (ObjView {
                child_count: (old(parent)@.child_count + 1) as u32,
                ..old(parent)@
            }),
            r matches Ok(w) && w.obj@ == spec_fresh_obj() && w.today is None && w.showed is None,
    {
        parent.note_child_created();
        Ok(Calendar { obj: Obj::fresh(), today: None, showed: None })
    }

    /// Set today's date.
    pub fn set_today_date(&mut self, year: u32, month: u32, day: u32)
        ensures
            *final(self) == (Calendar { today: Some((year, month, day)), ..*old(self) }),
    {
        self.today = Some((year, month, day));
    }

    /// Set the month that is shown.
    pub fn set_showed_date(&mut self, year: u32, month: u32)
        ensures
            *final(self) == (Calendar { showed: Some((year, month)), ..*old(self) }),
    {
        self.showed = Some((year, month));
    }

    /// Add the previous/next month arrows to a header object.
    pub fn add_header_arrow(parent: &mut Obj) -> (r: Obj)
        requires
            old(parent)@.child_count < u32::MAX,
        ensures
            final(parent)@ == (ObjView {
                child_count: (old(parent)@.child_count + 1) as u32,
                ..old(parent)@
            }),
            r@ == spec_fresh_obj(),
    {
        parent.note_child_created();
        Obj::fresh()
    }

    /// Add the year/month drop-downs to a header object.
    pub fn add_header_dropdown(parent: &mut Obj) -> (r: Obj)
        requires
            old(parent)@.child_count < u32::MAX,
        ensures
            final(parent)@ == (ObjView {
                child_count: (old(parent)@.child_count + 1) as u32,
                ..old(parent)@
            }),
            r@ == spec_fresh_obj(),
    {
        parent.note_child_created();
        Obj::fresh()
    }
}

// ============================================================================
// Keyboard
// ============================================================================

/// Key layout of an on-screen keyboard.
#[derive(Debug, Clone, Copy, PartialEq, Eq, Structural)]
pub enum KeyboardMode {
    TextLower,
    TextUpper,
    Special,
    Number,
}

/// An on-screen keyboard feeding a text area.
pub struct Keyboard {
    pub obj: Obj,
    pub mode: KeyboardMode,
    /// Whether a text area is attached to receive the keys.
    pub textarea_attached: bool,
    /// Show a popover over the pressed key.
    pub popovers: bool,
}

impl Keyboard {
    /// Create a keyboard on a parent, in lower-case text mode.
    pub fn create(parent: &mut Obj) -> (r: Result<Keyboard, LvglError>)
        requires
            old(parent)@.child_count < u32::MAX,
        ensures
            final(parent)@ == (ObjView {
                child_count: (old(parent)@.child_count + 1) as u32,
                ..old(parent)@
            }),
            r matches Ok(w) && w.obj@ == spec_fresh_obj() && w.mode == KeyboardMode::TextLower
                && !w.textarea_attached && !w.popovers,
    {
        parent.note_child_created();
        Ok(
            Keyboard {
                obj: Obj::fresh(),
                mode: KeyboardMode::TextLower,
                textarea_attached: false,
                popovers: false,
            },
        )
    }

    /// Attach a text area to receive the keys.
    pub fn set_textarea(&mut self, ta: &Textarea)
        ensures
            *final(self) == (Keyboard { textarea_attached: true, ..*old(self) }),
    {
        let _one_line: bool = ta.one_line;
        self.textarea_attached = true;
    }

    /// Set the key layout.
    pub fn set_mode(&mut self, mode: KeyboardMode)
        ensures
            *final(self) == (Keyboard { mode, ..*old(self) }),
    {
        self.mode = mode;
    }

    /// The key layout.
    pub fn get_mode(&self) -> (r: KeyboardMode)
        ensures
            r == self.mode,
    {
        self.mode
    }

    /// Show a popover over the pressed key or not.
    pub fn set_popovers(&mut self, en: bool)
        ensures
            *final(self) == (Keyboard { popovers: en, ..*old(self) }),
    {
        self.popovers = en;
    }
}

// ============================================================================
// Menu
// ============================================================================

/// Where a menu's header sits.
#[derive(Debug, Clone, Copy, PartialEq, Eq, Structural)]
pub enum MenuModeHeader {
    TopFixed,
    TopUnfixed,
    BottomFixed,
}

/// Whether the root page shows a back button.
#[derive(Debug, Clone, Copy, PartialEq, Eq, Structural)]
pub enum MenuModeRootBackButton {
    Disabled,
    Enabled,
}

/// A hierarchical menu of pages.
pub struct Menu {
    pub obj: Obj,
    /// Titles of the pages created on this menu.
    pub page_titles: Vec<String>,
    pub header_mode: MenuModeHeader,
    pub root_back_button: MenuModeRootBackButton,
}

impl Menu {
    /// Create a menu on a parent, without pages.
    pub fn create(parent: &mut Obj) -> (r: Result<Menu, LvglError>)
        requires
            old(parent)@.child_count < u32::MAX,
        ensures
            final(parent)@ == (ObjView {
                child_count: (old(parent)@.child_count + 1) as u32,
                ..old(parent)@
            }),
            r matches Ok(w) && w.obj@ == spec_fresh_obj() && w.page_titles@ == Seq::<
                String,
            >::empty() && w.header_mode == MenuModeHeader::TopFixed && w.root_back_button
                == MenuModeRootBackButton::Disabled,
    {
        parent.note_child_created();
        let r = Menu {
            obj: Obj::fresh(),
            page_titles: Vec::new(),
            header_mode: MenuModeHeader::TopFixed,
            root_back_button: MenuModeRootBackButton::Disabled,
        };
        proof {
            assert(r.page_titles@ =~= Seq::<String>::empty());
        }
        Ok(r)
    }

    /// Create a page with a title and hand back its object.
    pub fn page_create(&mut self, title: String) -> (r: Obj)
        ensures
            final(self).page_titles@ == old(self).page_titles@.push(title),
            final(self).obj == old(self).obj,
            final(self).header_mode == old(self).header_mode,
            final(self).root_back_button == old(self).root_back_button,
            r@ == spec_fresh_obj(),
    {
        self.page_titles.push(title);
        Obj::fresh()
    }

    /// Create a plain container on a parent object and hand it back.
    pub fn cont_create(parent: &mut Obj) -> (r: Obj)
        requires
            old(parent)@.child_count < u32::MAX,
        ensures
            final(parent)@ == (ObjView {
                child_count: (old(parent)@.child_count + 1) as u32,
                ..old(parent)@
            }),
            r@ == spec_fresh_obj(),
    {
        parent.note_child_created();
        Obj::fresh()
    }

    /// Create a section container on a parent object and hand it back.
    pub fn section_create(parent: &mut Obj) -> (r: Obj)
        requires
            old(parent)@.child_count < u32::MAX,
        ensures
            final(parent)@ == (ObjView {
                child_count: (old(parent)@.child_count + 1) as u32,
                ..old(parent)@
            }),
            r@ == spec_fresh_obj(),
    {
        parent.note_child_created();
        Obj::fresh()
    }

    /// Create a separator on a parent object and hand it back.
    pub fn separator_create(parent: &mut Obj) -> (r: Obj)
        requires
            old(parent)@.child_count < u32::MAX,
        ensures
            final(parent)@ == (ObjView {
                child_count: (old(parent)@.child_count + 1) as u32,
                ..old(parent)@
            }),
            r@ == spec_fresh_obj(),
    {
        parent.note_child_created();
        Obj::fresh()
    }

    /// Set where the header sits.
    pub fn set_mode_header(&mut self, mode: MenuModeHeader)
        ensures
            final(self).header_mode == mode,
            final(self).page_titles == old(self).page_titles,
            final(self).obj == old(self).obj,
            final(self).root_back_button == old(self).root_back_button,
    {
        self.header_mode = mode;
    }

    /// Show or hide the back button on the root page.
    pub fn set_mode_root_back_button(&mut self, mode: MenuModeRootBackButton)
        ensures
            final(self).root_back_button == mode,
            final(self).page_titles == old(self).page_titles,
            final(self).obj == old(self).obj,
            final(self).header_mode == old(self).header_mode,
    {
        self.root_back_button = mode;
    }
}

// ============================================================================
// Canvas
// ============================================================================

/// A canvas for pixel-level drawing into a caller-owned buffer.
pub struct Canvas {
    pub obj: Obj,
    /// Buffer dimensions, once a buffer was set.
    pub buffer_size: Option<(i32, i32)>,
    /// The colour the whole canvas was last filled with.
    pub last_fill: Option<(Color, u8)>,
    /// Single pixels written, in order.
    pub px_writes: Vec<(i32, i32, Color, u8)>,
}

impl Canvas {
    /// Create a canvas on a parent, without a buffer.
    pub fn create(parent: &mut Obj) -> (r: Result<Canvas, LvglError>)
        requires
            old(parent)@.child_count < u32::MAX,
        ensures
            final(parent)@ == (ObjView {
                child_count: (old(parent)@.child_count + 1) as u32,
                ..old(parent)@
            }),
            r matches Ok(w) && w.obj@ == spec_fresh_obj() && w.buffer_size is None && w.last_fill
                is None && w.px_writes@ == Seq::<(i32, i32, Color, u8)>::empty(),
    {
        parent.note_child_created();
        let r = Canvas {
            obj: Obj::fresh(),
            buffer_size: None,
            last_fill: None,
            px_writes: Vec::new(),
        };
        proof {
            assert(r.px_writes@ =~= Seq::<(i32, i32, Color, u8)>::empty());
        }
        Ok(r)
    }

    /// Record the dimensions of the caller-owned buffer.
    pub fn set_buffer(&mut self, w: i32, h: i32)
        ensures
            *final(self) == (Canvas { buffer_size: Some((w, h)), ..*old(self) }),
    {
        self.buffer_size = Some((w, h));
    }

    /// Write one pixel.
    pub fn set_px(&mut self, x: i32, y: i32, color: Color, opa: u8)
        ensures
            final(self).px_writes@ == old(self).px_writes@.push((x, y, color, opa)),
            *final(self) == (Canvas { px_writes: final(self).px_writes, ..*old(self) }),
    {
        self.px_writes.push((x, y, color, opa));
    }

    /// Fill the whole canvas with one colour; earlier pixel writes are
    /// superseded.
    pub fn fill_bg(&mut self, color: Color, opa: u8)
        ensures
            final(self).last_fill == Some((color, opa)),
            final(self).px_writes@ == Seq::<(i32, i32, Color, u8)>::empty(),
            *final(self) == (Canvas {
                last_fill: final(self).last_fill,
                px_writes: final(self).px_writes,
                ..*old(self)
            }),
    {
        self.last_fill = Some((color, opa));
        self.px_writes.clear();
    }
}

// ============================================================================
// Win
// ============================================================================

/// A window: a header with a title and buttons over a content area.
pub struct Win {
    pub obj: Obj,
    pub header: Obj,
    pub content: Obj,
    pub title: Option<String>,
    /// How many header buttons were added.
    pub header_buttons: u32,
}

impl Win {
    /// Create a window on a parent, with an empty header and content.
    pub fn create(parent: &mut Obj) -> (r: Result<Win, LvglError>)
        requires
            old(parent)@.child_count < u32::MAX,
        ensures
            final(parent)@ == (ObjView {
                child_count: (old(parent)@.child_count + 1) as u32,
                ..old(parent)@
            }),
            r matches Ok(w) && w.obj@ == (ObjView { child_count: 2, ..spec_fresh_obj() })
                && w.header@ == spec_fresh_obj() && w.content@ == spec_fresh_obj() && w.title
                is None && w.header_buttons == 0,
    {
        parent.note_child_created();
        let mut obj = Obj::fresh();
        obj.note_child_created();
        obj.note_child_created();
        Ok(
            Win {
                obj,
                header: Obj::fresh(),
                content: Obj::fresh(),
                title: None,
                header_buttons: 0,
            },
        )
    }

    /// Set the title in the header and hand back its object.
    pub fn add_title(&mut self, text: String) -> (r: Obj)
        requires
            old(self).header@.child_count < u32::MAX,
        ensures
            final(self).title == Some(text),
            final(self).header@ == (ObjView {
                child_count: (old(self).header@.child_count + 1) as u32,
                ..old(self).header@
            }),
            final(self).obj == old(self).obj,
            final(self).content == old(self).content,
            final(self).header_buttons == old(self).header_buttons,
            r@ == spec_fresh_obj(),
    {
        self.header.note_child_created();
        self.title = Some(text);
        Obj::fresh()
    }

    /// Add a button to the header and hand back its object.
    pub fn add_button(&mut self, btn_w: i32) -> (r: Obj)
        requires
            old(self).header@.child_count < u32::MAX,
            old(self).header_buttons < u32::MAX,
        ensures
            final(self).header_buttons == old(self).header_buttons + 1,
            final(self).header@ == (ObjView {
                child_count: (old(self).header@.child_count + 1) as u32,
                ..old(self).header@
            }),
            final(self).obj == old(self).obj,
            final(self).content == old(self).content,
            final(self).title == old(self).title,
            r@ == (ObjView { width: btn_w as int, ..spec_fresh_obj() }),
    {
        self.header.note_child_created();
        self.header_buttons = self.header_buttons + 1;
        let mut button = Obj::fresh();
        button.set_width(btn_w);
        button
    }
}

} // verus!
