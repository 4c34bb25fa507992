use lcd1602_gpio::{
    data_levels, high_or_low, init_frames, pad_text, text_frames, Frame, LCDController, LcdCommand, LcdError,
    LcdLine, LcdMode, PinConfig, ROW_WIDTH,
};

fn char_frame(c: char) -> Frame {
    Frame { value: c as u8, mode: LcdMode::Character }
}

#[test]
fn line_addresses() {
    assert_eq!(LcdLine::Line1.address(), 0x80);
    assert_eq!(LcdLine::Line2.address(), 0xC0);
}

#[test]
fn command_codes() {
    assert_eq!(LcdCommand::Initialize.code(), 0x33);
    assert_eq!(LcdCommand::ClearScreen.code(), 0x01);
    assert_eq!(LcdCommand::SetCursorMoveDirrection.code(), 0x06);
    assert_eq!(LcdCommand::Set4BitMode.code(), 0x32);
    assert_eq!(LcdCommand::SetCursorOff.code(), 0x0C);
    assert_eq!(LcdCommand::Set2LineDisplay.code(), 0x28);
}

#[test]
fn nibble_levels_of_a_byte() {
    let b: u8 = 0xA5;
    // high nibble 0xA = 1010: bit 4 low, bit 5 high, bit 6 low, bit 7 high
    assert_eq!(data_levels(b >> 4), [false, true, false, true]);
    // low nibble 0x5 = 0101
    assert_eq!(data_levels(b & 0x0F), [true, false, true, false]);
    assert_eq!(data_levels(0), [false, false, false, false]);
    assert_eq!(data_levels(0x0F), [true, true, true, true]);
}

#[test]
fn nibble_levels_every_nibble() {
    for n in 0u8..16 {
        let l = data_levels(n);
        let back = (l[0] as u8) | (l[1] as u8) << 1 | (l[2] as u8) << 2 | (l[3] as u8) << 3;
        assert_eq!(back, n);
    }
}

#[test]
fn init_sequence_order() {
    let values: Vec<u8> = init_frames().iter().map(|f| f.value).collect();
    assert_eq!(values, vec![0x33, 0x32, 0x06, 0x0C, 0x28, 0x01]);
    assert!(init_frames().iter().all(|f| f.mode == LcdMode::Command));
    let clears = init_frames().iter().filter(|f| f.value == 0x01).count();
    assert_eq!(clears, 1);
}

#[test]
fn pad_text_fills_to_width() {
    assert_eq!(pad_text("ab", 4, " "), "ab  ");
    assert_eq!(pad_text("", 3, " "), "   ");
    assert_eq!(pad_text("abc", 3, " "), "abc");
    assert_eq!(pad_text("abcdef", 3, " "), "abcdef");
    assert_eq!(pad_text("x", 3, "-"), "x--");
    assert_eq!(pad_text("Hello World!", 16, " "), "Hello World!    ");
}

#[test]
fn text_frames_pads_short_text() {
    let frames = text_frames("Hi", LcdLine::Line1).unwrap();
    assert_eq!(frames.len(), ROW_WIDTH + 1);
    assert_eq!(frames[0], Frame { value: 0x80, mode: LcdMode::Command });
    assert_eq!(frames[1], char_frame('H'));
    assert_eq!(frames[2], char_frame('i'));
    for f in &frames[3..] {
        assert_eq!(*f, char_frame(' '));
    }
    let chars = frames.iter().filter(|f| f.mode == LcdMode::Character).count();
    assert_eq!(chars, 16);
}

#[test]
fn text_frames_second_line_address() {
    let frames = text_frames("Hello Rustaceans", LcdLine::Line2).unwrap();
    assert_eq!(frames[0], Frame { value: 0xC0, mode: LcdMode::Command });
    let text: Vec<u8> = frames[1..].iter().map(|f| f.value).collect();
    assert_eq!(text, b"Hello Rustaceans".to_vec());
}

#[test]
fn text_frames_empty_text_is_all_spaces() {
    let frames = text_frames("", LcdLine::Line2).unwrap();
    assert_eq!(frames.len(), 17);
    assert!(frames[1..].iter().all(|f| *f == char_frame(' ')));
}

#[test]
fn text_frames_refuses_overlong_text() {
    assert!(text_frames("Hello Rustaceans!", LcdLine::Line1).is_none());
    assert!(text_frames("This is far too long for a row", LcdLine::Line2).is_none());
}

#[test]
fn default_wiring_pins() {
    let cfg = PinConfig::default_wiring();
    assert_eq!(cfg, PinConfig { rs: 7, e: 8, d4: 25, d5: 24, d6: 23, d7: 18 });
    assert_eq!(cfg.shared_pin(), None);
}

#[test]
fn shared_pin_is_found() {
    let cfg = PinConfig { rs: 7, e: 8, d4: 25, d5: 24, d6: 23, d7: 7 };
    assert_eq!(cfg.shared_pin(), Some(7));
    let cfg = PinConfig { rs: 1, e: 2, d4: 3, d5: 3, d6: 4, d7: 5 };
    assert_eq!(cfg.shared_pin(), Some(3));
}

#[test]
fn construction_with_shared_pin_fails() {
    let r = LCDController::new(7, 8, 25, 24, 23, 8);
    assert!(matches!(r, Err(LcdError::SharedPin(8))));
}

#[test]
fn level_words() {
    assert_eq!(high_or_low(true), "low");
    assert_eq!(high_or_low(false), "high");
}
