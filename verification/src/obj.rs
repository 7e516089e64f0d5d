//! The base object every widget builds on.
//!
//! An object carries the state the binding layer manages for a tree node:
//! geometry, alignment, state flags, attached styles, per-object style
//! shortcuts, event-callback registrations and the visibility/clickability
//! flags. The renderer's own tree bookkeeping stays outside; an object here
//! records what was asked of it, and a parent counts its children. The
//! per-object style shortcuts keep one value per property, whatever
//! selector they were set under.

use vstd::prelude::*;
use crate::{Align, Color, Event, LvglError, State};
use crate::style::Style;

verus! {

/// Style-shortcut properties set directly on an object rather than through
/// an attached style.
#[derive(Debug, Clone, Copy, PartialEq, Eq, Structural)]
pub struct LocalProps {
    pub bg_color: Option<Color>,
    pub bg_opa: Option<u8>,
    pub text_color: Option<Color>,
    pub border_width: Option<i32>,
    pub border_color: Option<Color>,
    pub radius: Option<i32>,
    pub pad_top: Option<i32>,
    pub pad_bottom: Option<i32>,
    pub pad_left: Option<i32>,
    pub pad_right: Option<i32>,
}

/// The local properties of a fresh object: none set.
pub open spec fn spec_empty_local_props() -> LocalProps {
    LocalProps {
        bg_color: None,
        bg_opa: None,
        text_color: None,
        border_width: None,
        border_color: None,
        radius: None,
        pad_top: None,
        pad_bottom: None,
        pad_left: None,
        pad_right: None,
    }
}

/// The abstract state of an object.
pub ghost struct ObjView {
    pub x: int,
    pub y: int,
    pub width: int,
    pub height: int,
    pub align: Align,
    pub align_x_ofs: int,
    pub align_y_ofs: int,
    /// State flags as a bit set.
    pub states: u16,
    pub hidden: bool,
    pub clickable: bool,
    /// Styles in attachment order, each with its selector.
    pub styles: Seq<(Style, u32)>,
    /// Style shortcuts set directly on the object.
    pub local: LocalProps,
    /// Events a callback was registered for, one entry per registration.
    /// Registrations only accumulate: there is no way to remove one.
    pub event_cbs: Seq<Event>,
    /// How many children were created on this object.
    pub child_count: u32,
    /// Whether the object was deleted. The renderer's delete cascades to
    /// the children it tracks; this handle only records its own deletion.
    pub deleted: bool,
    /// Whether the object was invalidated and waits for a redraw.
    pub needs_redraw: bool,
}

/// A tree node: geometry, flags, styles and registrations.
pub struct Obj {
    x: i32,
    y: i32,
    width: i32,
    height: i32,
    align: Align,
    align_x_ofs: i32,
    align_y_ofs: i32,
    states: u16,
    hidden: bool,
    clickable: bool,
    styles: Vec<(Style, u32)>,
    local: LocalProps,
    event_cbs: Vec<Event>,
    child_count: u32,
    deleted: bool,
    needs_redraw: bool,
}

impl View for Obj {
    type V = ObjView;

    closed spec fn view(&self) -> ObjView {
        ObjView {
            x: self.x as int,
            y: self.y as int,
            width: self.width as int,
            height: self.height as int,
            align: self.align,
            align_x_ofs: self.align_x_ofs as int,
            align_y_ofs: self.align_y_ofs as int,
            states: self.states,
            hidden: self.hidden,
            clickable: self.clickable,
            styles: self.styles@,
            local: self.local,
            event_cbs: self.event_cbs@,
            child_count: self.child_count,
            deleted: self.deleted,
            needs_redraw: self.needs_redraw,
        }
    }
}

/// The state of a freshly created object.
pub open spec fn spec_fresh_obj() -> ObjView {
    ObjView {
        x: 0,
        y: 0,
        width: 0,
        height: 0,
        align: Align::Default,
        align_x_ofs: 0,
        align_y_ofs: 0,
        states: 0,
        hidden: false,
        clickable: true,
        styles: Seq::empty(),
        local: spec_empty_local_props(),
        event_cbs: Seq::empty(),
        child_count: 0,
        deleted: false,
        needs_redraw: false,
    }
}

impl Obj {
    /// A freshly created object with default state, not yet attached to a
    /// parent count.
    pub(crate) fn fresh() -> (r: Obj)
        ensures
            r@ == spec_fresh_obj(),
    {
        let r = Obj {
            x: 0,
            y: 0,
            width: 0,
            height: 0,
            align: Align::Default,
            align_x_ofs: 0,
            align_y_ofs: 0,
            states: 0,
            hidden: false,
            clickable: true,
            styles: Vec::new(),
            local: LocalProps {
                bg_color: None,
                bg_opa: None,
                text_color: None,
                border_width: None,
                border_color: None,
                radius: None,
                pad_top: None,
                pad_bottom: None,
                pad_left: None,
                pad_right: None,
            },
            event_cbs: Vec::new(),
            child_count: 0,
            deleted: false,
            needs_redraw: false,
        };
        proof {
            assert(r@.styles =~= spec_fresh_obj().styles);
            assert(r@.event_cbs =~= spec_fresh_obj().event_cbs);
        }
        r
    }

    /// Create a plain container object on a parent. The new object starts
    /// with default state and the parent's child count rises by one.
    pub fn create(parent: &mut Obj) -> (r: Result<Obj, LvglError>)
        requires
            old(parent)@.child_count < u32::MAX,
        ensures
            final(parent)@ == (ObjView {
                child_count: (old(parent)@.child_count + 1) as u32,
                ..old(parent)@
            }),
            r matches Ok(o) && o@ == spec_fresh_obj(),
    {
        parent.note_child_created();
        Ok(Obj::fresh())
    }

    /// Record that a child was created on this object.
    pub(crate) fn note_child_created(&mut self)
        requires
            old(self)@.child_count < u32::MAX,
        ensures
            final(self)@ == (ObjView {
                child_count: (old(self)@.child_count + 1) as u32,
                ..old(self)@
            }),
    {
        self.child_count = self.child_count + 1;
    }

    /// How many children were created on this object.
    pub fn get_child_count(&self) -> (r: u32)
        ensures
            r == self@.child_count,
    {
        self.child_count
    }

    /// Set the position relative to the parent.
    pub fn set_pos(&mut self, x: i32, y: i32)
        ensures
            final(self)@ == (ObjView { x: x as int, y: y as int, ..old(self)@ }),
    {
        self.x = x;
        self.y = y;
    }

    /// Set the size. No range is validated; out-of-range values are left to
    /// the renderer.
    pub fn set_size(&mut self, width: i32, height: i32)
        ensures
            final(self)@ == (ObjView {
                width: width as int,
                height: height as int,
                ..old(self)@
            }),
    {
        self.width = width;
        self.height = height;
    }

    /// Set the width.
    pub fn set_width(&mut self, width: i32)
        ensures
            final(self)@ == (ObjView { width: width as int, ..old(self)@ }),
    {
        self.width = width;
    }

    /// Set the height.
    pub fn set_height(&mut self, height: i32)
        ensures
            final(self)@ == (ObjView { height: height as int, ..old(self)@ }),
    {
        self.height = height;
    }

    /// Align the object relative to its parent with an offset.
    pub fn align(&mut self, align: Align, x_ofs: i32, y_ofs: i32)
        ensures
            final(self)@ == (ObjView {
                align,
                align_x_ofs: x_ofs as int,
                align_y_ofs: y_ofs as int,
                ..old(self)@
            }),
    {
        self.align = align;
        self.align_x_ofs = x_ofs;
        self.align_y_ofs = y_ofs;
    }

    /// Center the object in its parent.
    pub fn center(&mut self)
        ensures
            final(self)@ == (ObjView {
                align: Align::Center,
                align_x_ofs: 0,
                align_y_ofs: 0,
                ..old(self)@
            }),
    {
        self.align(Align::Center, 0, 0);
    }

    /// Set the alignment without an offset change.
    pub fn set_align(&mut self, align: Align)
        ensures
            final(self)@ == (ObjView { align, ..old(self)@ }),
    {
        self.align = align;
    }

    /// Attach a style at a selector. Styles layer in attachment order; the
    /// same style may be attached to many objects.
    pub fn add_style(&mut self, style: &Style, selector: u32)
        ensures
            final(self)@ == (ObjView {
                styles: old(self)@.styles.push((*style, selector)),
                ..old(self)@
            }),
    {
        self.styles.push((*style, selector));
    }

    /// Shortcut: set the background colour directly on the object.
    pub fn set_style_bg_color(&mut self, color: Color, selector: u32)
        ensures
            final(self)@ == (ObjView {
                local: (LocalProps { bg_color: Some(color), ..old(self)@.local }),
                ..old(self)@
            }),
    {
        let _selector: u32 = selector;
        self.local.bg_color = Some(color);
    }

    /// Shortcut: set the background opacity directly on the object.
    pub fn set_style_bg_opa(&mut self, opa: u8, selector: u32)
        ensures
            final(self)@ == (ObjView {
                local: (LocalProps { bg_opa: Some(opa), ..old(self)@.local }),
                ..old(self)@
            }),
    {
        let _selector: u32 = selector;
        self.local.bg_opa = Some(opa);
    }

    /// Shortcut: set the text colour directly on the object.
    pub fn set_style_text_color(&mut self, color: Color, selector: u32)
        ensures
            final(self)@ == (ObjView {
                local: (LocalProps { text_color: Some(color), ..old(self)@.local }),
                ..old(self)@
            }),
    {
        let _selector: u32 = selector;
        self.local.text_color = Some(color);
    }

    /// Shortcut: set the border width directly on the object.
    pub fn set_style_border_width(&mut self, width: i32, selector: u32)
        ensures
            final(self)@ == (ObjView {
                local: (LocalProps { border_width: Some(width), ..old(self)@.local }),
                ..old(self)@
            }),
    {
        let _selector: u32 = selector;
        self.local.border_width = Some(width);
    }

    /// Shortcut: set the border colour directly on the object.
    pub fn set_style_border_color(&mut self, color: Color, selector: u32)
        ensures
            final(self)@ == (ObjView {
                local: (LocalProps { border_color: Some(color), ..old(self)@.local }),
                ..old(self)@
            }),
    {
        let _selector: u32 = selector;
        self.local.border_color = Some(color);
    }

    /// Shortcut: set the corner radius directly on the object.
    pub fn set_style_radius(&mut self, radius: i32, selector: u32)
        ensures
            final(self)@ == (ObjView {
                local: (LocalProps { radius: Some(radius), ..old(self)@.local }),
                ..old(self)@
            }),
    {
        let _selector: u32 = selector;
        self.local.radius = Some(radius);
    }

    /// Shortcut: set all four paddings directly on the object.
    pub fn set_style_pad_all(&mut self, pad: i32, selector: u32)
        ensures
            final(self)@ == (ObjView {
                local: (LocalProps {
                    pad_top: Some(pad),
                    pad_bottom: Some(pad),
                    pad_left: Some(pad),
                    pad_right: Some(pad),
                    ..old(self)@.local
                }),
                ..old(self)@
            }),
    {
        let _selector: u32 = selector;
        self.local.pad_top = Some(pad);
        self.local.pad_bottom = Some(pad);
        self.local.pad_left = Some(pad);
        self.local.pad_right = Some(pad);
    }

    /// Add a state flag (bitwise or into the state set).
    pub fn add_state(&mut self, state: State)
        ensures
            final(self)@ == (ObjView { states: old(self)@.states | state.0, ..old(self)@ }),
    {
        self.states = self.states | state.0;
    }

    /// Remove a state flag (clear its bits from the state set).
    pub fn remove_state(&mut self, state: State)
        ensures
            final(self)@ == (ObjView { states: old(self)@.states & !state.0, ..old(self)@ }),
    {
        self.states = self.states & !state.0;
    }

    /// Whether all bits of a state flag are set.
    pub fn has_state(&self, state: State) -> (r: bool)
        ensures
            r == (self@.states & state.0 == state.0),
    {
        self.states & state.0 == state.0
    }

    /// Register an event callback for an event. Each registration is
    /// recorded; nothing ever de-registers one, so repeated registrations
    /// accumulate.
    pub fn add_event_cb(&mut self, event: Event)
        ensures
            final(self)@ == (ObjView {
                event_cbs: old(self)@.event_cbs.push(event),
                ..old(self)@
            }),
    {
        self.event_cbs.push(event);
    }

    /// Mark the object deleted. The renderer cascades deletion to the
    /// children it tracks.
    pub fn delete(&mut self)
        ensures
            final(self)@ == (ObjView { deleted: true, ..old(self)@ }),
    {
        self.deleted = true;
    }

    /// Hide or show the object.
    pub fn set_hidden(&mut self, hidden: bool)
        ensures
            final(self)@ == (ObjView { hidden, ..old(self)@ }),
    {
        self.hidden = hidden;
    }

    /// Allow or forbid clicks on the object.
    pub fn set_clickable(&mut self, clickable: bool)
        ensures
            final(self)@ == (ObjView { clickable, ..old(self)@ }),
    {
        self.clickable = clickable;
    }

    /// Mark the object for a redraw.
    pub fn invalidate(&mut self)
        ensures
            final(self)@ == (ObjView { needs_redraw: true, ..old(self)@ }),
    {
        self.needs_redraw = true;
    }
}

/// Adding a state flag makes every bit of it readable back: after
/// `add_state` the flag tests as present.
pub proof fn lemma_add_state_sets(states: u16, flag: u16)
    by (bit_vector)
    ensures
        (states | flag) & flag == flag,
{
}

/// Removing a state flag clears it: after `remove_state` the flag tests as
/// present only if it was the empty flag.
pub proof fn lemma_remove_state_clears(states: u16, flag: u16)
    by (bit_vector)
    ensures
        ((states & !flag) & flag == flag) == (flag == 0),
{
}

} // verus!
