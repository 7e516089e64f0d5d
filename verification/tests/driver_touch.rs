use lvgl::cst816::{
    init_ops, sleep_ops, wake_ops, Cst816, Gesture, TouchOp, REG_CHIP_ID, REG_DIS_AUTO_SLEEP,
    REG_IRQ_CTL,
};
use lvgl::ili9341;
use lvgl::panel::PanelOp;

#[test]
fn gesture_byte_mapping() {
    assert_eq!(Gesture::from_byte(0x05), Gesture::SingleClick);
    assert_eq!(Gesture::from_byte(0x00), Gesture::NoGesture);
    assert_eq!(Gesture::from_byte(0xAA), Gesture::NoGesture);
    assert_eq!(Gesture::from_byte(0x01), Gesture::SwipeUp);
    assert_eq!(Gesture::from_byte(0x02), Gesture::SwipeDown);
    assert_eq!(Gesture::from_byte(0x03), Gesture::SwipeLeft);
    assert_eq!(Gesture::from_byte(0x04), Gesture::SwipeRight);
    assert_eq!(Gesture::from_byte(0x0B), Gesture::DoubleClick);
    assert_eq!(Gesture::from_byte(0x0C), Gesture::LongPress);
}

#[test]
fn decodes_the_packed_frame() {
    // On a panel large enough that no clamping happens the raw 12-bit
    // coordinates come through exactly.
    let touch = Cst816::new(4096, 4096);
    let sample = touch.decode(&[0x05, 0x01, 0x03, 0xFF, 0x02, 0xAA]);
    assert_eq!(sample.x, 0x3FF);
    assert_eq!(sample.y, 0x2AA);
    assert!(sample.pressed);
    assert_eq!(sample.gesture, Some(Gesture::SingleClick));
}

#[test]
fn decode_clamps_to_the_panel() {
    let touch = Cst816::new(320, 240);
    let sample = touch.decode(&[0x05, 0x01, 0x03, 0xFF, 0x02, 0xAA]);
    assert_eq!(sample.x, 319);
    assert_eq!(sample.y, 239);
}

#[test]
fn zero_gesture_byte_reads_as_no_gesture() {
    let touch = Cst816::new(320, 240);
    let sample = touch.decode(&[0x00, 0x00, 0x00, 0x10, 0x00, 0x20]);
    assert_eq!(sample.gesture, None);
    assert!(!sample.pressed);
    assert_eq!(sample.x, 0x10);
    assert_eq!(sample.y, 0x20);
}

#[test]
fn transform_without_swap_or_invert_is_identity_up_to_clamp() {
    let touch = Cst816::new(320, 240);
    assert_eq!(touch.transform(10, 20), (10, 20));
    assert_eq!(touch.transform(319, 239), (319, 239));
    assert_eq!(touch.transform(1000, 1000), (319, 239));
}

#[test]
fn inverted_x_maps_the_boundaries_saturating() {
    let mut touch = Cst816::new(320, 240);
    touch.set_transform(false, true, false);
    // raw 0 lands on the last column
    assert_eq!(touch.transform(0, 0).0, 319);
    // raw X equal to the width lands on 0 instead of underflowing
    assert_eq!(touch.transform(320, 0).0, 0);
    // raw X beyond the width saturates at 0
    assert_eq!(touch.transform(1000, 0).0, 0);
    assert_eq!(touch.transform(1, 0).0, 319);
}

#[test]
fn inverted_y_maps_the_boundaries_saturating() {
    let mut touch = Cst816::new(320, 240);
    touch.set_transform(false, false, true);
    assert_eq!(touch.transform(0, 0).1, 239);
    assert_eq!(touch.transform(0, 240).1, 0);
}

#[test]
fn swap_exchanges_the_axes_before_inversion() {
    let mut touch = Cst816::new(320, 240);
    touch.set_transform(true, false, false);
    assert_eq!(touch.transform(10, 20), (20, 10));
}

#[test]
fn touch_bring_up_sequence() {
    let ops = init_ops(true);
    assert_eq!(
        ops,
        vec![
            TouchOp::SetReset(false),
            TouchOp::DelayMs(10),
            TouchOp::SetReset(true),
            TouchOp::DelayMs(50),
            TouchOp::ReadReg(REG_CHIP_ID),
            TouchOp::WriteReg(REG_DIS_AUTO_SLEEP, 0x01),
            TouchOp::WriteReg(REG_IRQ_CTL, 0x41),
        ]
    );
    assert_eq!(init_ops(false).len(), 3);
    assert_eq!(sleep_ops(), vec![TouchOp::WriteReg(REG_DIS_AUTO_SLEEP, 0x00)]);
    assert_eq!(
        wake_ops(false),
        vec![TouchOp::WriteReg(REG_DIS_AUTO_SLEEP, 0x01)]
    );
}

#[test]
fn ili9341_bring_up_ends_with_backlight() {
    let ops = ili9341::init_ops();
    assert_eq!(ops.last(), Some(&PanelOp::SetBacklight(true)));
    let madctl_at = ops
        .iter()
        .position(|op| *op == PanelOp::Cmd(ili9341::CMD_MADCTL))
        .expect("MADCTL missing");
    assert_eq!(ops[madctl_at + 1], PanelOp::Data(0x48));
}

#[test]
fn ili9341_window_is_big_endian_without_offsets() {
    let ops = ili9341::window_ops(0x0102, 0x0304, 0x0506, 0x0708);
    assert_eq!(ops[0], PanelOp::Cmd(ili9341::CMD_CASET));
    assert_eq!(ops[1], PanelOp::Data(0x01));
    assert_eq!(ops[2], PanelOp::Data(0x02));
    assert_eq!(ops[3], PanelOp::Data(0x05));
    assert_eq!(ops[4], PanelOp::Data(0x06));
    assert_eq!(ops[5], PanelOp::Cmd(ili9341::CMD_PASET));
    assert_eq!(ops[6], PanelOp::Data(0x03));
    assert_eq!(ops[7], PanelOp::Data(0x04));
    assert_eq!(ops[8], PanelOp::Data(0x07));
    assert_eq!(ops[9], PanelOp::Data(0x08));
    assert_eq!(ops[10], PanelOp::Cmd(ili9341::CMD_RAMWR));
}
