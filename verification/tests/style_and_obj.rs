use lvgl::obj::Obj;
use lvgl::style::{BorderSide, GradDir, Style, TextAlign, BORDER_SIDE_BOTTOM, BORDER_SIDE_LEFT};
use lvgl::{Align, Color, Event, State, STATE_CHECKED, STATE_DISABLED, STATE_FOCUSED};

fn screen() -> Obj {
    lvgl::screen_create().unwrap()
}

#[test]
fn a_new_style_has_no_property_set() {
    let style = Style::new();
    assert_eq!(style.bg_color, None);
    assert_eq!(style.pad_top, None);
    assert_eq!(style.shadow_opa, None);
}

#[test]
fn style_setters_record_their_property() {
    let mut style = Style::new();
    style.set_bg_color(Color::hex(0x1A1A2E));
    style.set_bg_opa(255);
    style.set_radius(8);
    style.set_border_width(2);
    style.set_border_side(BorderSide(BORDER_SIDE_BOTTOM | BORDER_SIDE_LEFT));
    style.set_bg_grad_dir(GradDir::Vertical);
    style.set_text_align(TextAlign::Center);
    assert_eq!(style.bg_color.map(|c| c.raw()), Some(0x1A1A2E));
    assert_eq!(style.bg_opa, Some(255));
    assert_eq!(style.radius, Some(8));
    assert_eq!(style.border_width, Some(2));
    assert_eq!(style.bg_grad_dir, Some(GradDir::Vertical));
    // untouched properties stay unset
    assert_eq!(style.shadow_color, None);
}

#[test]
fn composite_padding_setters() {
    let mut style = Style::new();
    style.set_pad_all(8);
    assert_eq!(style.pad_top, Some(8));
    assert_eq!(style.pad_bottom, Some(8));
    assert_eq!(style.pad_left, Some(8));
    assert_eq!(style.pad_right, Some(8));
    style.set_pad_hor(2);
    style.set_pad_ver(3);
    assert_eq!(style.pad_left, Some(2));
    assert_eq!(style.pad_right, Some(2));
    assert_eq!(style.pad_top, Some(3));
    assert_eq!(style.pad_bottom, Some(3));
    style.set_pad_row(6);
    style.set_pad_column(7);
    assert_eq!(style.pad_row, Some(6));
    assert_eq!(style.pad_column, Some(7));
}

#[test]
fn object_state_flags_combine() {
    let mut obj = screen();
    assert!(!obj.has_state(State(STATE_CHECKED)));
    obj.add_state(State(STATE_CHECKED));
    obj.add_state(State(STATE_FOCUSED));
    assert!(obj.has_state(State(STATE_CHECKED)));
    assert!(obj.has_state(State(STATE_FOCUSED)));
    assert!(!obj.has_state(State(STATE_DISABLED)));
    obj.remove_state(State(STATE_CHECKED));
    assert!(!obj.has_state(State(STATE_CHECKED)));
    assert!(obj.has_state(State(STATE_FOCUSED)));
}

#[test]
fn object_geometry_and_flags() {
    let mut obj = screen();
    obj.set_pos(10, 20);
    obj.set_size(100, 50);
    obj.set_width(120);
    obj.set_height(60);
    obj.align(Align::Center, 1, 2);
    obj.center();
    obj.set_align(Align::TopLeft);
    obj.set_hidden(true);
    obj.set_clickable(false);
    obj.invalidate();
    obj.add_event_cb(Event::Clicked);
    obj.delete();
}

#[test]
fn objects_attach_styles_in_order() {
    let mut obj = screen();
    let mut style = Style::new();
    style.set_bg_color(Color::white());
    obj.add_style(&style, 0);
    obj.add_style(&style, 1);
    obj.set_style_bg_color(Color::black(), 0);
    obj.set_style_bg_opa(128, 0);
    obj.set_style_text_color(Color::white(), 0);
    obj.set_style_border_width(1, 0);
    obj.set_style_border_color(Color::black(), 0);
    obj.set_style_radius(4, 0);
    obj.set_style_pad_all(2, 0);
}

#[test]
fn children_are_counted_per_parent() {
    let mut parent = screen();
    assert_eq!(parent.get_child_count(), 0);
    let _a = Obj::create(&mut parent).unwrap();
    let _b = Obj::create(&mut parent).unwrap();
    assert_eq!(parent.get_child_count(), 2);
}
