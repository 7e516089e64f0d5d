use lvgl::display::{area_to_coords, calc_buf_size, Area, Display, DisplayRotation, RenderMode};
use lvgl::input::{InputDevice, InputState, InputType, TouchPoint, InputData};
use lvgl::{Color, LvglError, Runtime};

#[test]
fn second_initialisation_fails_and_changes_nothing() {
    let mut rt = Runtime::new();
    assert!(!rt.is_initialized());
    assert_eq!(rt.init(), Ok(()));
    assert!(rt.is_initialized());
    assert_eq!(rt.init(), Err(LvglError::AlreadyInitialized));
    assert!(rt.is_initialized());
}

#[test]
fn clock_advances_by_reported_milliseconds() {
    let mut rt = Runtime::new();
    rt.tick_inc(5);
    rt.tick_inc(11);
    // the clock only matters through later behaviour; initialisation is
    // untouched by ticking
    assert!(!rt.is_initialized());
    assert_eq!(rt.init(), Ok(()));
}

#[test]
fn zero_width_display_is_refused() {
    assert!(matches!(Display::create(0, 240), Err(LvglError::DisplayError)));
    assert!(matches!(Display::create(320, 0), Err(LvglError::DisplayError)));
    assert!(Display::create(320, 240).is_ok());
}

#[test]
fn flush_cycle_acknowledges_once() {
    let mut d = Display::create(320, 240).unwrap();
    d.set_buffers(320 * 24 * 2, false, RenderMode::Partial);
    d.set_flush_cb();
    assert!(!d.is_flushing());
    let area = Area { x1: 0, y1: 0, x2: 319, y2: 23 };
    d.begin_flush(area);
    assert!(d.is_flushing());
    d.flush_ready();
    assert!(!d.is_flushing());
    // a second cycle works the same way
    d.begin_flush(area);
    assert!(d.is_flushing());
    d.flush_ready();
    assert!(!d.is_flushing());
}

#[test]
fn rotation_swaps_reported_resolutions() {
    let mut d = Display::create(320, 240).unwrap();
    assert_eq!(d.get_hor_res(), 320);
    assert_eq!(d.get_ver_res(), 240);
    d.set_rotation(DisplayRotation::Rotate90);
    assert_eq!(d.get_hor_res(), 240);
    assert_eq!(d.get_ver_res(), 320);
    d.set_rotation(DisplayRotation::Rotate180);
    assert_eq!(d.get_hor_res(), 320);
    assert_eq!(d.get_ver_res(), 240);
}

#[test]
fn area_helpers() {
    let area = Area { x1: 10, y1: 20, x2: 29, y2: 49 };
    assert_eq!(area_to_coords(&area), (10, 20, 29, 49));
    // 20 x 30 pixels, two bytes each
    assert_eq!(area.pixel_bytes(), 20 * 30 * 2);
}

#[test]
fn buffer_size_is_two_bytes_per_pixel_line() {
    assert_eq!(calc_buf_size(320, 240, 24), 320 * 24 * 2);
    assert_eq!(calc_buf_size(170, 320, 32), 170 * 32 * 2);
}

#[test]
fn input_device_records_kind_and_callback() {
    let mut indev = InputDevice::create().unwrap();
    indev.set_type(InputType::Pointer);
    indev.set_read_cb();
}

#[test]
fn touch_point_writes_the_callback_record() {
    let p = TouchPoint::new(17, 42, true);
    let mut data = InputData { x: 0, y: 0, state: InputState::Released };
    p.write_to(&mut data);
    assert_eq!(data.x, 17);
    assert_eq!(data.y, 42);
    assert_eq!(data.state, InputState::Pressed);

    let released = TouchPoint::new(1, 2, false);
    released.write_to(&mut data);
    assert_eq!(data.state, InputState::Released);
}

#[test]
fn colours_pack_as_rgb888() {
    assert_eq!(Color::rgb(0x12, 0x34, 0x56).raw(), 0x123456);
    assert_eq!(Color::hex(0xFF123456).raw(), 0x123456);
    assert_eq!(Color::hex3(0xF00).raw(), 0xFF0000);
    assert_eq!(Color::hex3(0x0A0).raw(), 0x00AA00);
    assert_eq!(Color::hex3(0x00C).raw(), 0x0000CC);
    assert_eq!(Color::white().raw(), 0xFFFFFF);
    assert_eq!(Color::black().raw(), 0x000000);
}
