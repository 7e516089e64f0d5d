use lvgl::framebuf::Framebuffer;

#[test]
fn starts_black() {
    let fb = Framebuffer::new(8, 4);
    assert_eq!(fb.width(), 8);
    assert_eq!(fb.height(), 4);
    for y in 0..4 {
        for x in 0..8 {
            assert_eq!(fb.pixel(x, y), 0);
        }
    }
}

#[test]
fn fill_paints_every_pixel() {
    let mut fb = Framebuffer::new(5, 3);
    fb.fill(0xF800);
    for y in 0..3 {
        for x in 0..5 {
            assert_eq!(fb.pixel(x, y), 0xF800);
        }
    }
}

#[test]
fn blit_lands_pixels_and_leaves_the_rest() {
    let mut fb = Framebuffer::new(6, 4);
    fb.fill(0x1111);
    // a 2x2 rectangle at (1, 1): pixels 0xAABB 0xCCDD / 0xEEFF 0x0102
    let data = [0xAA, 0xBB, 0xCC, 0xDD, 0xEE, 0xFF, 0x01, 0x02];
    fb.blit(1, 1, 2, 2, &data);
    assert_eq!(fb.pixel(1, 1), 0xAABB);
    assert_eq!(fb.pixel(2, 1), 0xCCDD);
    assert_eq!(fb.pixel(1, 2), 0xEEFF);
    assert_eq!(fb.pixel(2, 2), 0x0102);
    // everything outside the rectangle keeps the fill colour
    for y in 0..4 {
        for x in 0..6 {
            if (1..=2).contains(&x) && (1..=2).contains(&y) {
                continue;
            }
            assert_eq!(fb.pixel(x, y), 0x1111, "pixel ({x},{y}) moved");
        }
    }
}

#[test]
fn blit_full_frame() {
    let mut fb = Framebuffer::new(2, 2);
    let data = [0x00, 0x01, 0x00, 0x02, 0x00, 0x03, 0x00, 0x04];
    fb.blit(0, 0, 2, 2, &data);
    assert_eq!(fb.pixel(0, 0), 1);
    assert_eq!(fb.pixel(1, 0), 2);
    assert_eq!(fb.pixel(0, 1), 3);
    assert_eq!(fb.pixel(1, 1), 4);
}
