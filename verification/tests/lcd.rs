use gbemu::lcd::{LcdControllerMode, Pixel, LCD};

#[test]
fn scanline_timing() {
    // From OamAccess(0), 80 + 172 ticks reach HorizontalBlank(0) with the
    // scanline rendered; 204 more advance the scanline back to
    // OamAccess(0).
    let mut lcd = LCD::new();
    assert!(lcd.drawing_state == LcdControllerMode::OamAccess(0));
    for _ in 0..(80 + 172) {
        lcd.tick_update();
    }
    assert!(lcd.drawing_state == LcdControllerMode::HorizontalBlank(0));
    assert_eq!(lcd.curline(), 0);
    for _ in 0..204 {
        lcd.tick_update();
    }
    assert!(lcd.drawing_state == LcdControllerMode::OamAccess(0));
    assert_eq!(lcd.curline(), 1);
}

#[test]
fn render_writes_one_scanline() {
    // A fresh framebuffer is fully transparent; rendering scanline 0
    // makes exactly its 160 pixels opaque.
    let mut lcd = LCD::new();
    for _ in 0..(80 + 172) {
        lcd.tick_update();
    }
    assert_eq!(
        lcd.lcd_display[0],
        Pixel { r: 0, g: 0, b: 0, a: 255 }
    );
    assert_eq!(
        lcd.lcd_display[159],
        Pixel { r: 0, g: 0, b: 0, a: 255 }
    );
    assert_eq!(
        lcd.lcd_display[160],
        Pixel { r: 0, g: 0, b: 0, a: 0 }
    );
}

#[test]
fn rendered_pixels_follow_tile_data() {
    // Pattern table at 0x8000 (LCDC bit 4), map at 0x9800; tile 0's
    // first two pattern bytes make pixel value 3 in column 0.
    let mut lcd = LCD::new();
    lcd.write8(0xFF40, 0b0001_0000);
    lcd.write8(0x8000, 0x80);
    lcd.write8(0x8001, 0x80);
    for _ in 0..(80 + 172) {
        lcd.tick_update();
    }
    // 3 * 100 wraps to 44 in a byte.
    assert_eq!(lcd.lcd_display[0], Pixel { r: 44, g: 44, b: 44, a: 255 });
    assert_eq!(lcd.lcd_display[1], Pixel { r: 0, g: 0, b: 0, a: 255 });
}

#[test]
fn tile_rows_decode_separately() {
    // Pattern table at 0x8000; tile 0's row 0 stays blank while its row
    // 1 byte pair lights column 0, so scanline 0 renders dark and
    // scanline 1 renders the lit pixel from the second row.
    let mut lcd = LCD::new();
    lcd.write8(0xFF40, 0b0001_0000);
    lcd.write8(0x8002, 0x80);
    lcd.write8(0x8003, 0x80);
    for _ in 0..456 {
        lcd.tick_update();
    }
    assert_eq!(lcd.curline(), 1);
    for _ in 0..(80 + 172) {
        lcd.tick_update();
    }
    assert_eq!(lcd.lcd_display[0], Pixel { r: 0, g: 0, b: 0, a: 255 });
    assert_eq!(lcd.lcd_display[160], Pixel { r: 44, g: 44, b: 44, a: 255 });
}

#[test]
fn vblank_reached_at_line_144() {
    // Lines 0..143 each take 456 ticks; at line 144 the controller
    // enters the vertical blank instead of rendering.
    let mut lcd = LCD::new();
    for _ in 0..144 * 456 {
        lcd.tick_update();
    }
    assert_eq!(lcd.curline(), 144);
    for _ in 0..(80 + 172) {
        lcd.tick_update();
    }
    assert!(lcd.drawing_state == LcdControllerMode::VerticalBlank(0));
    // The full vertical blank returns to the OAM phase of scanline 0.
    for _ in 0..4560 {
        lcd.tick_update();
    }
    assert!(lcd.drawing_state == LcdControllerMode::OamAccess(0));
    assert_eq!(lcd.curline(), 0);
}

#[test]
fn lcdstat_follows_mode() {
    let mut lcd = LCD::new();
    assert_eq!(lcd.lcdstat(), 2);
    assert_eq!(lcd.read8(0xFF41), 2);
    for _ in 0..80 {
        lcd.tick_update();
    }
    assert_eq!(lcd.lcdstat(), 3);
    for _ in 0..172 {
        lcd.tick_update();
    }
    assert_eq!(lcd.lcdstat(), 0);
    // Writes to the synthesized LCDSTAT are dropped.
    lcd.write8(0xFF41, 0xFF);
    assert_eq!(lcd.read8(0xFF41), 0);
}

#[test]
fn control_register_accessors() {
    let mut lcd = LCD::new();
    lcd.write8(0xFF40, 0b1001_1001);
    assert!(lcd.lcd_operation());
    assert_eq!(lcd.window_tile_table_base_addr(), 0x9800);
    assert!(!lcd.window_display());
    assert_eq!(lcd.tile_pattern_table_base_addr(), 0x8000);
    assert_eq!(lcd.background_tile_table_base_addr(), 0x9C00);
    assert!(lcd.background_display());
    lcd.write8(0xFF42, 7);
    lcd.write8(0xFF43, 9);
    assert_eq!(lcd.scrolly(), 7);
    assert_eq!(lcd.scrollx(), 9);
    lcd.write8(0xFF45, 3);
    assert_eq!(lcd.cmpline(), 3);
    lcd.write8(0xFF47, 0xE4);
    assert_eq!(lcd.bgrdpal(), 0xE4);
    lcd.write8(0xFF48, 0x12);
    lcd.write8(0xFF49, 0x34);
    assert_eq!(lcd.obj0pal(), 0x12);
    assert_eq!(lcd.obj1pal(), 0x34);
    lcd.write8(0xFF4A, 0x56);
    lcd.write8(0xFF4B, 0x78);
    assert_eq!(lcd.wndposy(), 0x56);
    assert_eq!(lcd.wndposx(), 0x78);
}

#[test]
fn vram_and_oam_round_trip() {
    let mut lcd = LCD::new();
    lcd.write8(0x8123, 0xAB);
    assert_eq!(lcd.read8(0x8123), 0xAB);
    lcd.write8(0xFE9F, 0xCD);
    assert_eq!(lcd.read8(0xFE9F), 0xCD);
}
