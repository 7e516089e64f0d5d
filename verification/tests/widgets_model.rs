use lvgl::obj::Obj;
use lvgl::widgets::{
    Arc, Bar, Button, Buttonmatrix, Calendar, Canvas, Chart, ChartAxis, ChartType,
    ChartUpdateMode, Checkbox, Dir, Dropdown, Image, Keyboard, KeyboardMode, Label,
    LabelLongMode, Led, Line, List, Menu, MenuModeHeader, MenuModeRootBackButton, Msgbox, Roller,
    RollerMode, Scale, ScaleMode, Slider, Spinbox, Spinner, Switch, Tabview, Textarea, Tileview,
    Table, Win, DIR_LEFT,
};
use lvgl::Color;

fn screen() -> Obj {
    lvgl::screen_create().unwrap()
}

#[test]
fn creating_widgets_counts_children() {
    let mut screen = screen();
    let _label = Label::create(&mut screen).unwrap();
    let _button = Button::create(&mut screen).unwrap();
    let _slider = Slider::create(&mut screen).unwrap();
    assert_eq!(screen.get_child_count(), 3);
}

#[test]
fn label_holds_text_and_mode() {
    let mut screen = screen();
    let mut label = Label::create(&mut screen).unwrap();
    assert_eq!(label.text, None);
    label.set_text("hello".to_string());
    assert_eq!(label.text.as_deref(), Some("hello"));
    label.set_long_mode(LabelLongMode::Dot);
    assert_eq!(label.long_mode, LabelLongMode::Dot);
    label.set_text_color(Color::hex(0x00D4FF));
}

#[test]
fn button_with_label_keeps_the_text() {
    let mut screen = screen();
    let button = Button::create_with_label(&mut screen, "Toggle".to_string()).unwrap();
    assert_eq!(button.label_text.as_deref(), Some("Toggle"));
    assert_eq!(button.obj.get_child_count(), 1);
}

#[test]
fn slider_clamps_into_its_range() {
    let mut screen = screen();
    let mut slider = Slider::create(&mut screen).unwrap();
    slider.set_value(50, false);
    assert_eq!(slider.get_value(), 50);
    slider.set_value(1000, false);
    assert_eq!(slider.get_value(), 100);
    slider.set_value(-5, true);
    assert_eq!(slider.get_value(), 0);
    slider.set_range(10, 20);
    assert_eq!(slider.get_value(), 10);
}

#[test]
fn bar_clamps_like_a_slider() {
    let mut screen = screen();
    let mut bar = Bar::create(&mut screen).unwrap();
    bar.set_range(0, 100);
    bar.set_value(72, true);
    assert_eq!(bar.get_value(), 72);
    bar.set_value(101, false);
    assert_eq!(bar.get_value(), 100);
}

#[test]
fn switch_and_checkbox_track_the_checked_flag() {
    let mut screen = screen();
    let mut sw = Switch::create(&mut screen).unwrap();
    assert!(!sw.is_checked());
    sw.set_checked(true);
    assert!(sw.is_checked());
    sw.set_checked(false);
    assert!(!sw.is_checked());

    let mut cb = Checkbox::create(&mut screen).unwrap();
    cb.set_text("Auto".to_string());
    assert!(!cb.is_checked());
    cb.set_checked(true);
    assert!(cb.is_checked());
    assert_eq!(cb.text.as_deref(), Some("Auto"));
}

#[test]
fn arc_clamps_and_keeps_angles() {
    let mut screen = screen();
    let mut arc = Arc::create(&mut screen).unwrap();
    arc.set_range(0, 100);
    arc.set_value(65);
    assert_eq!(arc.get_value(), 65);
    arc.set_value(-1);
    assert_eq!(arc.get_value(), 0);
    arc.set_bg_angles(135, 45);
    assert_eq!((arc.bg_start_angle, arc.bg_end_angle), (135, 45));
}

#[test]
fn spinner_records_animation_parameters() {
    let mut screen = screen();
    let mut spinner = Spinner::create(&mut screen).unwrap();
    spinner.set_anim_params(1000, 270);
    assert_eq!((spinner.anim_time_ms, spinner.arc_length_deg), (1000, 270));
}

#[test]
fn dropdown_options_and_selection() {
    let mut screen = screen();
    let mut dd = Dropdown::create(&mut screen).unwrap();
    assert_eq!(dd.get_option_count(), 0);
    dd.set_options(vec![
        "115200".to_string(),
        "57600".to_string(),
        "38400".to_string(),
    ]);
    assert_eq!(dd.get_option_count(), 3);
    dd.set_selected(2);
    assert_eq!(dd.get_selected(), 2);
    dd.set_selected(99);
    assert_eq!(dd.get_selected(), 2);
    dd.add_option("9600".to_string(), 0);
    assert_eq!(dd.get_option_count(), 4);
    assert_eq!(dd.options[0], "9600");
    dd.clear_options();
    assert_eq!(dd.get_option_count(), 0);
    assert_eq!(dd.get_selected(), 0);
    dd.set_dir(Dir(DIR_LEFT));
    dd.open();
    assert!(dd.is_open());
    dd.close();
    assert!(!dd.is_open());
}

#[test]
fn textarea_edits_at_the_cursor() {
    let mut screen = screen();
    let mut ta = Textarea::create(&mut screen).unwrap();
    ta.set_text("LVGL".chars().collect());
    assert_eq!(ta.get_cursor_pos(), 4);
    ta.add_char('!');
    assert_eq!(ta.get_text().iter().collect::<String>(), "LVGL!");
    ta.set_cursor_pos(0);
    ta.add_char('>');
    assert_eq!(ta.get_text().iter().collect::<String>(), ">LVGL!");
    ta.delete_char_forward();
    assert_eq!(ta.get_text().iter().collect::<String>(), ">VGL!");
    ta.set_cursor_pos(100);
    ta.delete_char();
    assert_eq!(ta.get_text().iter().collect::<String>(), ">VGL");
    ta.cursor_left();
    ta.cursor_right();
    assert_eq!(ta.get_cursor_pos(), 4);
}

#[test]
fn textarea_respects_the_length_limit() {
    let mut screen = screen();
    let mut ta = Textarea::create(&mut screen).unwrap();
    ta.set_max_length(3);
    assert_eq!(ta.get_max_length(), 3);
    ta.add_text(&"hello".chars().collect());
    assert_eq!(ta.get_text().iter().collect::<String>(), "hel");
    ta.add_char('x');
    assert_eq!(ta.get_text().iter().collect::<String>(), "hel");
    ta.set_text("toolongtext".chars().collect());
    assert_eq!(ta.get_text().iter().collect::<String>(), "too");
}

#[test]
fn roller_selection_clamps() {
    let mut screen = screen();
    let mut roller = Roller::create(&mut screen).unwrap();
    roller.set_options(
        vec!["9600".to_string(), "19200".to_string(), "38400".to_string()],
        RollerMode::Normal,
    );
    assert_eq!(roller.get_option_count(), 3);
    roller.set_selected(4, false);
    assert_eq!(roller.get_selected(), 2);
    roller.set_visible_row_count(3);
    assert_eq!(roller.visible_rows, 3);
}

#[test]
fn led_toggles() {
    let mut screen = screen();
    let mut led = Led::create(&mut screen).unwrap();
    led.set_color(Color::hex(0x00FF88));
    led.off();
    assert!(!led.lit);
    led.toggle();
    assert!(led.lit);
    led.set_brightness(128);
    assert_eq!(led.get_brightness(), 128);
}

#[test]
fn line_keeps_its_points() {
    let mut screen = screen();
    let mut line = Line::create(&mut screen).unwrap();
    line.set_points(vec![(0, 0), (10, 5), (20, 0)]);
    assert_eq!(line.get_point_count(), 3);
    line.set_y_invert(true);
    assert!(line.get_y_invert());
}

#[test]
fn image_transform_state() {
    let mut screen = screen();
    let mut img = Image::create(&mut screen).unwrap();
    img.set_rotation(900);
    assert_eq!(img.get_rotation(), 900);
    img.set_scale(512);
    assert_eq!(img.get_scale(), 512);
    img.set_pivot(8, 8);
    img.set_offset_x(-3);
    img.set_offset_y(4);
    img.set_antialias(false);
    assert_eq!((img.pivot_x, img.pivot_y), (8, 8));
}

#[test]
fn spinbox_steps_and_rolls_over() {
    let mut screen = screen();
    let mut sb = Spinbox::create(&mut screen).unwrap();
    sb.set_range(0, 10);
    sb.set_step(4);
    assert_eq!(sb.get_step(), 4);
    sb.set_value(8);
    sb.increment();
    assert_eq!(sb.get_value(), 10);
    sb.set_rollover(true);
    assert!(sb.get_rollover());
    sb.increment();
    assert_eq!(sb.get_value(), 0);
    sb.decrement();
    assert_eq!(sb.get_value(), 10);
    sb.set_rollover(false);
    sb.set_value(1);
    sb.decrement();
    assert_eq!(sb.get_value(), 0);
}

#[test]
fn scale_records_its_layout() {
    let mut screen = screen();
    let mut scale = Scale::create(&mut screen).unwrap();
    scale.set_mode(ScaleMode::RoundInner);
    assert_eq!(scale.get_mode(), ScaleMode::RoundInner);
    scale.set_range(-40, 120);
    scale.set_total_tick_count(17);
    scale.set_major_tick_every(4);
    scale.set_label_show(true);
    assert_eq!((scale.min, scale.max), (-40, 120));
}

#[test]
fn buttonmatrix_control_words() {
    let mut screen = screen();
    let mut bm = Buttonmatrix::create(&mut screen).unwrap();
    bm.set_map(vec!["1".to_string(), "2".to_string(), "3".to_string()]);
    bm.set_button_ctrl(1, 0x0004);
    assert_eq!(bm.ctrl, vec![0, 4, 0]);
    bm.set_button_ctrl_all(0x0010);
    assert_eq!(bm.ctrl, vec![0x10, 0x14, 0x10]);
    bm.clear_button_ctrl(1, 0x0004);
    assert_eq!(bm.ctrl, vec![0x10, 0x10, 0x10]);
    bm.set_selected_button(2);
    assert_eq!(bm.get_selected_button(), Some(2));
    bm.set_selected_button(3);
    assert_eq!(bm.get_selected_button(), None);
    assert_eq!(bm.get_button_text(1).map(|s| s.as_str()), Some("2"));
    assert_eq!(bm.get_button_text(9), None);
}

#[test]
fn table_grows_and_reads_back_cells() {
    let mut screen = screen();
    let mut table = Table::create(&mut screen).unwrap();
    table.set_cell_value(2, 1, "x".to_string());
    assert_eq!(table.get_row_count(), 3);
    assert_eq!(table.get_column_count(), 2);
    table.set_cell_value(0, 0, "first".to_string());
    table.set_cell_value(2, 1, "y".to_string());
    assert_eq!(table.get_cell_value(2, 1).map(|s| s.as_str()), Some("y"));
    assert_eq!(
        table.get_cell_value(0, 0).map(|s| s.as_str()),
        Some("first")
    );
    assert_eq!(table.get_cell_value(1, 1), None);
    table.set_selected_cell(2, 1);
    assert_eq!(table.get_selected_cell(), Some((2, 1)));
    table.set_column_width(0, 40);
    table.set_column_width(1, 60);
    table.set_column_width(0, 50);
    assert_eq!(table.get_column_width(0), Some(50));
    assert_eq!(table.get_column_width(1), Some(60));
    assert_eq!(table.get_column_width(7), None);
}


#[test]
fn chart_shifts_at_capacity() {
    let mut screen = screen();
    let mut chart = Chart::create(&mut screen).unwrap();
    chart.set_type(ChartType::Line);
    chart.set_point_count(3);
    chart.set_range(ChartAxis::PrimaryY, 0, 100);
    chart.set_div_line_count(3, 5);
    let series = chart.add_series(Color::hex(0x0077B6), ChartAxis::PrimaryY);
    for v in [1, 2, 3, 4] {
        chart.set_next_value(&series, v);
    }
    assert_eq!(chart.series[series.index].data, vec![2, 3, 4]);
}

#[test]
fn chart_circular_overwrites_in_place() {
    let mut screen = screen();
    let mut chart = Chart::create(&mut screen).unwrap();
    chart.set_point_count(3);
    chart.set_update_mode(ChartUpdateMode::Circular);
    let series = chart.add_series(Color::hex(0xD32F2F), ChartAxis::PrimaryY);
    for v in [1, 2, 3] {
        chart.set_next_value(&series, v);
    }
    chart.set_next_value(&series, 9);
    assert_eq!(chart.series[series.index].data, vec![9, 2, 3]);
    chart.set_next_value(&series, 8);
    assert_eq!(chart.series[series.index].data, vec![9, 8, 3]);
    chart.set_all_value(&series, 7);
    assert_eq!(chart.series[series.index].data, vec![7, 7, 7]);
    chart.set_value_by_id(&series, 1, 5);
    assert_eq!(chart.series[series.index].data, vec![7, 5, 7]);
}

#[test]
fn list_and_msgbox_collect_rows() {
    let mut screen = screen();
    let mut list = List::create(&mut screen).unwrap();
    let _ = list.add_text("Settings".to_string());
    let _ = list.add_button("WiFi".to_string());
    assert_eq!(list.entries.len(), 2);
    assert_eq!(list.obj.get_child_count(), 2);

    let mut mb = Msgbox::create(&mut screen).unwrap();
    let _ = mb.add_title("Hello".to_string());
    let _ = mb.add_text("World".to_string());
    let _ = mb.add_footer_button("OK".to_string());
    let _ = mb.add_close_button();
    assert_eq!(mb.title.as_deref(), Some("Hello"));
    assert!(!mb.closed);
    mb.close();
    assert!(mb.closed);
}

#[test]
fn tabview_activates_tabs() {
    let mut screen = screen();
    let mut tv = Tabview::create(&mut screen).unwrap();
    let _tab1 = tv.add_tab("Controls".to_string());
    let _tab2 = tv.add_tab("Data".to_string());
    let _tab3 = tv.add_tab("Inputs".to_string());
    assert_eq!(tv.get_tab_count(), 3);
    tv.set_active(2, false);
    assert_eq!(tv.get_tab_active(), 2);
    tv.set_active(9, false);
    assert_eq!(tv.get_tab_active(), 2);
    tv.rename_tab(0, "Main".to_string());
    assert_eq!(tv.tab_names[0], "Main");
    tv.set_tab_bar_size(28);
    assert_eq!(tv.tab_bar_size, 28);
}

#[test]
fn tileview_and_calendar_and_keyboard() {
    let mut screen = screen();
    let mut tile = Tileview::create(&mut screen).unwrap();
    let _t = tile.add_tile(0, 0, Dir(DIR_LEFT));
    tile.set_tile_by_index(1, 0, false);
    assert_eq!(tile.active, (1, 0));

    let mut cal = Calendar::create(&mut screen).unwrap();
    cal.set_today_date(2024, 5, 17);
    cal.set_showed_date(2024, 5);
    assert_eq!(cal.today, Some((2024, 5, 17)));

    let mut kb = Keyboard::create(&mut screen).unwrap();
    kb.set_mode(KeyboardMode::Number);
    assert_eq!(kb.get_mode(), KeyboardMode::Number);
    kb.set_popovers(true);
    let ta = Textarea::create(&mut screen).unwrap();
    kb.set_textarea(&ta);
    assert!(kb.textarea_attached);
}

#[test]
fn menu_and_canvas_and_win() {
    let mut screen = screen();
    let mut menu = Menu::create(&mut screen).unwrap();
    let _page = menu.page_create("Root".to_string());
    menu.set_mode_header(MenuModeHeader::BottomFixed);
    menu.set_mode_root_back_button(MenuModeRootBackButton::Enabled);
    assert_eq!(menu.page_titles, vec!["Root".to_string()]);

    let mut canvas = Canvas::create(&mut screen).unwrap();
    canvas.set_buffer(64, 48);
    canvas.set_px(1, 2, Color::white(), 255);
    canvas.fill_bg(Color::black(), 255);
    assert!(canvas.px_writes.is_empty());
    assert_eq!(canvas.buffer_size, Some((64, 48)));

    let mut win = Win::create(&mut screen).unwrap();
    let _title = win.add_title("Demo".to_string());
    let _btn = win.add_button(30);
    assert_eq!(win.header_buttons, 1);
    assert_eq!(win.title.as_deref(), Some("Demo"));
}
