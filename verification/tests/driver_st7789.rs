use lvgl::panel::{be_hi, be_lo, chunk_pixels, fill_pixel_bytes, PanelOp};
use lvgl::st7789::{
    rgb565, display_off_ops, display_on_ops, sleep_ops, wake_ops, Orientation, St7789Config,
    CMD_CASET, CMD_DISPOFF, CMD_DISPON, CMD_INVON, CMD_MADCTL, CMD_RAMWR, CMD_RASET, CMD_SLPIN,
    CMD_SLPOUT, CHUNK_SIZE, COLOR_BLUE, COLOR_GREEN, COLOR_MAGENTA, COLOR_RED, COLOR_YELLOW,
};

#[test]
fn madctl_bytes_match_documented_combinations() {
    assert_eq!(Orientation::Portrait.madctl_value(), 0x48);
    assert_eq!(Orientation::Landscape.madctl_value(), 0x28);
    assert_eq!(Orientation::PortraitInverted.madctl_value(), 0x88);
    assert_eq!(Orientation::LandscapeInverted.madctl_value(), 0xE8);
}

#[test]
fn init_sequence_programs_orientation_and_inversion() {
    let cfg = St7789Config::t_display_s3();
    let ops = cfg.init_ops(true);
    // reset pulse first
    assert_eq!(ops[0], PanelOp::SetReset(true));
    assert_eq!(ops[2], PanelOp::SetReset(false));
    // the MADCTL data byte follows the MADCTL command
    let madctl_at = ops
        .iter()
        .position(|op| *op == PanelOp::Cmd(CMD_MADCTL))
        .expect("MADCTL missing");
    assert_eq!(ops[madctl_at + 1], PanelOp::Data(0x48));
    // this panel wants inverted colours
    assert!(ops.contains(&PanelOp::Cmd(CMD_INVON)));
}

#[test]
fn init_sequence_without_reset_pin_starts_with_soft_reset() {
    let mut cfg = St7789Config::square_240();
    cfg.invert_colors = false;
    let ops = cfg.init_ops(false);
    assert_eq!(ops[0], PanelOp::Cmd(0x01));
    assert!(!ops.contains(&PanelOp::Cmd(CMD_INVON)));
    assert!(ops.contains(&PanelOp::Cmd(0x20)));
}

#[test]
fn window_sequence_applies_offsets_big_endian() {
    // 135x240 panel offset by (52, 40) inside the controller RAM
    let cfg = St7789Config::t_display();
    let ops = cfg.window_ops(0, 0, 134, 239);
    assert_eq!(ops.len(), 11);
    assert_eq!(ops[0], PanelOp::Cmd(CMD_CASET));
    // columns 52..=186
    assert_eq!(ops[1], PanelOp::Data(0));
    assert_eq!(ops[2], PanelOp::Data(52));
    assert_eq!(ops[3], PanelOp::Data(0));
    assert_eq!(ops[4], PanelOp::Data(186));
    assert_eq!(ops[5], PanelOp::Cmd(CMD_RASET));
    // rows 40..=279: 279 = 0x0117
    assert_eq!(ops[6], PanelOp::Data(0));
    assert_eq!(ops[7], PanelOp::Data(40));
    assert_eq!(ops[8], PanelOp::Data(0x01));
    assert_eq!(ops[9], PanelOp::Data(0x17));
    assert_eq!(ops[10], PanelOp::Cmd(CMD_RAMWR));
}

#[test]
fn landscape_swaps_offsets_and_dimensions() {
    let mut cfg = St7789Config::t_display();
    cfg.orientation = Orientation::Landscape;
    assert_eq!(cfg.effective_width(), 240);
    assert_eq!(cfg.effective_height(), 135);
    let ops = cfg.window_ops(1, 2, 3, 4);
    // columns take the row offset (40), rows take the column offset (52)
    assert_eq!(ops[2], PanelOp::Data(41));
    assert_eq!(ops[7], PanelOp::Data(54));
}

#[test]
fn big_endian_bytes() {
    assert_eq!(be_hi(0x0117), 0x01);
    assert_eq!(be_lo(0x0117), 0x17);
    assert_eq!(be_hi(0xFFFF), 0xFF);
    assert_eq!(be_lo(0xFF00), 0x00);
}

#[test]
fn chunks_never_exceed_limit_and_concatenate_to_the_input() {
    let data: Vec<u8> = (0..10000u32).map(|i| (i % 251) as u8).collect();
    let chunks = chunk_pixels(&data, CHUNK_SIZE);
    assert_eq!(chunks.len(), 3);
    assert_eq!(chunks[0].len(), 4096);
    assert_eq!(chunks[1].len(), 4096);
    assert_eq!(chunks[2].len(), 1808);
    for c in &chunks {
        assert!(c.len() <= CHUNK_SIZE);
        assert!(!c.is_empty());
    }
    let joined: Vec<u8> = chunks.concat();
    assert_eq!(joined, data);
}

#[test]
fn chunking_an_exact_multiple_leaves_no_tail() {
    let data = vec![7u8; 8192];
    let chunks = chunk_pixels(&data, 4096);
    assert_eq!(chunks.len(), 2);
    assert!(chunks.iter().all(|c| c.len() == 4096));
    assert_eq!(chunks.concat(), data);
}

#[test]
fn chunking_empty_data_gives_no_chunks() {
    let data: Vec<u8> = Vec::new();
    let chunks = chunk_pixels(&data, 16);
    assert!(chunks.is_empty());
}

#[test]
fn flush_plan_windows_then_chunks() {
    let cfg = St7789Config::square_240();
    let data = vec![0xA5u8; 5000];
    let (window, chunks) = cfg.flush_ops(0, 0, 49, 24, &data);
    assert_eq!(window[0], PanelOp::Cmd(CMD_CASET));
    assert_eq!(window[10], PanelOp::Cmd(CMD_RAMWR));
    assert_eq!(chunks.len(), 2);
    assert_eq!(chunks.concat(), data);
}

#[test]
fn fill_bytes_alternate_colour_halves() {
    let bytes = fill_pixel_bytes(3, 0x1234);
    assert_eq!(bytes, vec![0x12, 0x34, 0x12, 0x34, 0x12, 0x34]);
}

#[test]
fn clear_streams_one_line_per_row() {
    let cfg = St7789Config::t_display();
    let (window, rows) = cfg.clear_ops(0xF800);
    assert_eq!(window[0], PanelOp::Cmd(CMD_CASET));
    assert_eq!(rows.len(), 240);
    for row in &rows {
        assert_eq!(row.len(), 135 * 2);
        assert_eq!(row[0], 0xF8);
        assert_eq!(row[1], 0x00);
    }
}

#[test]
fn fill_rect_chunks_are_bounded_and_account_for_every_pixel() {
    let cfg = St7789Config::square_240();
    let (_, chunks) = cfg.fill_rect_ops(10, 10, 50, 41, 0x07E0);
    // 2050 pixels: two full 1024-pixel chunks and a 2-pixel tail
    assert_eq!(chunks.len(), 3);
    assert_eq!(chunks[0].len(), 2048);
    assert_eq!(chunks[1].len(), 2048);
    assert_eq!(chunks[2].len(), 4);
    let total: usize = chunks.iter().map(|c| c.len()).sum();
    assert_eq!(total, 50 * 41 * 2);
}

#[test]
fn set_orientation_reprograms_madctl() {
    let mut cfg = St7789Config::square_240();
    let ops = cfg.set_orientation(Orientation::LandscapeInverted);
    assert_eq!(cfg.orientation, Orientation::LandscapeInverted);
    assert_eq!(ops, vec![PanelOp::Cmd(CMD_MADCTL), PanelOp::Data(0xE8)]);
}

#[test]
fn power_sequences() {
    assert_eq!(display_on_ops(), vec![PanelOp::Cmd(CMD_DISPON)]);
    assert_eq!(display_off_ops(), vec![PanelOp::Cmd(CMD_DISPOFF)]);
    assert_eq!(
        sleep_ops(),
        vec![PanelOp::Cmd(CMD_SLPIN), PanelOp::DelayMs(5)]
    );
    assert_eq!(
        wake_ops(),
        vec![PanelOp::Cmd(CMD_SLPOUT), PanelOp::DelayMs(120)]
    );
}

#[test]
fn rgb565_packs_the_documented_bits() {
    assert_eq!(rgb565(255, 0, 0), COLOR_RED);
    assert_eq!(rgb565(0, 255, 0), COLOR_GREEN);
    assert_eq!(rgb565(0, 0, 255), COLOR_BLUE);
    assert_eq!(rgb565(255, 255, 0), COLOR_YELLOW);
    assert_eq!(rgb565(255, 0, 255), COLOR_MAGENTA);
    assert_eq!(rgb565(0, 0, 0), 0x0000);
    assert_eq!(rgb565(255, 255, 255), 0xFFFF);
    assert_eq!(rgb565(255, 165, 0), 0xFD20);
    assert_eq!(rgb565(128, 128, 128), 0x8410);
}
