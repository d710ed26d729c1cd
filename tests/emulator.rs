use chip8::display::Display;
use chip8::emulator::Emulator;
use chip8::keyboard::{Key, Keyboard};

#[test]
fn test_cls() {
    let mut emulator = Emulator::new(&[0x00, 0xE0]);
    let mut display = Display::new(&[(0, 0)]);
    let keyboard = Keyboard::default();

    emulator.tick(&mut display, &keyboard).unwrap();

    assert_eq!(emulator.program_counter, 0x202);
    assert_eq!(display.get_pixel(0, 0), false);
}

#[test]
fn test_ret() {
    let mut emulator = Emulator::new(&[0x00, 0xEE]);
    emulator.stack.push(0x400);
    let mut display = Display::default();
    let keyboard = Keyboard::default();

    emulator.tick(&mut display, &keyboard).unwrap();

    assert_eq!(emulator.program_counter, 0x402);
    assert_eq!(emulator.stack, vec![]);
}

#[test]
fn test_jp() {
    let mut emulator = Emulator::new(&[0x12, 0x34]);
    let mut display = Display::default();
    let keyboard = Keyboard::default();

    emulator.tick(&mut display, &keyboard).unwrap();

    assert_eq!(emulator.program_counter, 0x234);
    assert_eq!(emulator.stack, vec![]);
}

#[test]
fn test_call() {
    let mut emulator = Emulator::new(&[0x23, 0x45]);
    let mut display = Display::default();
    let keyboard = Keyboard::default();

    emulator.tick(&mut display, &keyboard).unwrap();

    assert_eq!(emulator.program_counter, 0x345);
    assert_eq!(emulator.stack, vec![0x200]);
}

#[test]
fn test_se_v_equal() {
    let mut emulator = Emulator::new(&[0x34, 0x56]);
    emulator.registers[0x4] = 0x56;
    let mut display = Display::default();
    let keyboard = Keyboard::default();

    emulator.tick(&mut display, &keyboard).unwrap();

    assert_eq!(emulator.program_counter, 0x204);
}

#[test]
fn test_se_v_not_equal() {
    let mut emulator = Emulator::new(&[0x34, 0x56]);
    emulator.registers[0x4] = 0x65;
    let mut display = Display::default();
    let keyboard = Keyboard::default();

    emulator.tick(&mut display, &keyboard).unwrap();

    assert_eq!(emulator.program_counter, 0x202);
}

#[test]
fn test_sne_v_equal() {
    let mut emulator = Emulator::new(&[0x45, 0x67]);
    emulator.registers[0x5] = 0x67;
    let mut display = Display::default();
    let keyboard = Keyboard::default();

    emulator.tick(&mut display, &keyboard).unwrap();

    assert_eq!(emulator.program_counter, 0x202);
}

#[test]
fn test_sne_v_not_equal() {
    let mut emulator = Emulator::new(&[0x45, 0x67]);
    emulator.registers[0x5] = 0x76;
    let mut display = Display::default();
    let keyboard = Keyboard::default();

    emulator.tick(&mut display, &keyboard).unwrap();

    assert_eq!(emulator.program_counter, 0x204);
}

#[test]
fn test_se_v_v_equal() {
    let mut emulator = Emulator::new(&[0x56, 0x70]);
    emulator.registers[0x6] = 0x78;
    emulator.registers[0x7] = 0x78;
    let mut display = Display::default();
    let keyboard = Keyboard::default();

    emulator.tick(&mut display, &keyboard).unwrap();

    assert_eq!(emulator.program_counter, 0x204);
}

#[test]
fn test_se_v_v_not_equal() {
    let mut emulator = Emulator::new(&[0x56, 0x70]);
    emulator.registers[0x6] = 0x78;
    emulator.registers[0x7] = 0x89;
    let mut display = Display::default();
    let keyboard = Keyboard::default();

    emulator.tick(&mut display, &keyboard).unwrap();

    assert_eq!(emulator.program_counter, 0x202);
}

#[test]
fn test_ld_v() {
    let mut emulator = Emulator::new(&[0x67, 0x89]);
    let mut display = Display::default();
    let keyboard = Keyboard::default();

    emulator.tick(&mut display, &keyboard).unwrap();

    assert_eq!(emulator.program_counter, 0x202);
    assert_eq!(emulator.registers[0x7], 0x89);
}

#[test]
fn test_add_v() {
    let mut emulator = Emulator::new(&[0x78, 0x9A, 0x78, 0x9A]);
    let mut display = Display::default();
    let keyboard = Keyboard::default();

    emulator.tick(&mut display, &keyboard).unwrap();

    assert_eq!(emulator.program_counter, 0x202);
    assert_eq!(emulator.registers[0x8], 0x9A);

    emulator.tick(&mut display, &keyboard).unwrap();

    assert_eq!(emulator.program_counter, 0x204);
    assert_eq!(emulator.registers[0x8], 0x34);
}

#[test]
fn test_ld_v_v() {
    let mut emulator = Emulator::new(&[0x89, 0xA0]);
    emulator.registers[0x9] = 0x20;
    emulator.registers[0xA] = 0x40;
    let mut display = Display::default();
    let keyboard = Keyboard::default();

    emulator.tick(&mut display, &keyboard).unwrap();

    assert_eq!(emulator.program_counter, 0x202);
    assert_eq!(emulator.registers[0x9], 0x40);
}

#[test]
fn test_or_v_v() {
    let mut emulator = Emulator::new(&[0x89, 0xA1]);
    emulator.registers[0x9] = 0b11110000;
    emulator.registers[0xA] = 0b11001100;
    let mut display = Display::default();
    let keyboard = Keyboard::default();

    emulator.tick(&mut display, &keyboard).unwrap();

    assert_eq!(emulator.program_counter, 0x202);
    assert_eq!(emulator.registers[0x9], 0b11111100);
}

#[test]
fn test_and_v_v() {
    let mut emulator = Emulator::new(&[0x89, 0xA2]);
    emulator.registers[0x9] = 0b11110000;
    emulator.registers[0xA] = 0b11001100;
    let mut display = Display::default();
    let keyboard = Keyboard::default();

    emulator.tick(&mut display, &keyboard).unwrap();

    assert_eq!(emulator.program_counter, 0x202);
    assert_eq!(emulator.registers[0x9], 0b11000000);
}

#[test]
fn test_xor_v_v() {
    let mut emulator = Emulator::new(&[0x89, 0xA3]);
    emulator.registers[0x9] = 0b11110000;
    emulator.registers[0xA] = 0b11001100;
    let mut display = Display::default();
    let keyboard = Keyboard::default();

    emulator.tick(&mut display, &keyboard).unwrap();

    assert_eq!(emulator.program_counter, 0x202);
    assert_eq!(emulator.registers[0x9], 0b00111100);
}

#[test]
fn test_add_v_v() {
    let mut emulator = Emulator::new(&[0x89, 0xA4, 0x89, 0xA4]);
    emulator.registers[0x9] = 0x78;
    emulator.registers[0xA] = 0x78;
    let mut display = Display::default();
    let keyboard = Keyboard::default();

    emulator.tick(&mut display, &keyboard).unwrap();

    assert_eq!(emulator.program_counter, 0x202);
    assert_eq!(emulator.registers[0x9], 0xF0);
    assert_eq!(emulator.registers[0xF], 0);

    emulator.tick(&mut display, &keyboard).unwrap();

    assert_eq!(emulator.program_counter, 0x204);
    assert_eq!(emulator.registers[0x9], 0x68);
    assert_eq!(emulator.registers[0xF], 1);
}

#[test]
fn test_sub_v_v() {
    let mut emulator = Emulator::new(&[0x89, 0xA5, 0x89, 0xA5]);
    emulator.registers[0x9] = 0x78;
    emulator.registers[0xA] = 0x78;
    let mut display = Display::default();
    let keyboard = Keyboard::default();

    emulator.tick(&mut display, &keyboard).unwrap();

    assert_eq!(emulator.program_counter, 0x202);
    assert_eq!(emulator.registers[0x9], 0x0);
    assert_eq!(emulator.registers[0xF], 1);

    emulator.tick(&mut display, &keyboard).unwrap();

    assert_eq!(emulator.program_counter, 0x204);
    assert_eq!(emulator.registers[0x9], 0x88);
    assert_eq!(emulator.registers[0xF], 0);
}

#[test]
fn test_shr_v_v() {
    let mut emulator = Emulator::new(&[0x89, 0xA6, 0x89, 0xA6]);
    emulator.registers[0x9] = 0b00000101;
    let mut display = Display::default();
    let keyboard = Keyboard::default();

    emulator.tick(&mut display, &keyboard).unwrap();

    assert_eq!(emulator.program_counter, 0x202);
    assert_eq!(emulator.registers[0x9], 0b00000010);
    assert_eq!(emulator.registers[0xF], 1);

    emulator.tick(&mut display, &keyboard).unwrap();

    assert_eq!(emulator.program_counter, 0x204);
    assert_eq!(emulator.registers[0x9], 0b00000001);
    assert_eq!(emulator.registers[0xF], 0);
}

#[test]
fn test_subn_v_v() {
    let mut emulator = Emulator::new(&[0x89, 0xA7, 0x89, 0xA7]);
    emulator.registers[0x9] = 0x78;
    emulator.registers[0xA] = 0x78;
    let mut display = Display::default();
    let keyboard = Keyboard::default();

    emulator.tick(&mut display, &keyboard).unwrap();

    assert_eq!(emulator.program_counter, 0x202);
    assert_eq!(emulator.registers[0x9], 0x0);
    assert_eq!(emulator.registers[0xF], 1);

    emulator.tick(&mut display, &keyboard).unwrap();

    assert_eq!(emulator.program_counter, 0x204);
    assert_eq!(emulator.registers[0x9], 0x78);
    assert_eq!(emulator.registers[0xF], 1);
}

#[test]
fn test_shl_v_v() {
    let mut emulator = Emulator::new(&[0x89, 0xAE, 0x89, 0xAE]);
    emulator.registers[0x9] = 0b10100000;
    let mut display = Display::default();
    let keyboard = Keyboard::default();

    emulator.tick(&mut display, &keyboard).unwrap();

    assert_eq!(emulator.program_counter, 0x202);
    assert_eq!(emulator.registers[0x9], 0b01000000);
    assert_eq!(emulator.registers[0xF], 1);

    emulator.tick(&mut display, &keyboard).unwrap();

    assert_eq!(emulator.program_counter, 0x204);
    assert_eq!(emulator.registers[0x9], 0b10000000);
    assert_eq!(emulator.registers[0xF], 0);
}

#[test]
fn test_sne_v_v_not_equal() {
    let mut emulator = Emulator::new(&[0x9A, 0xB0]);
    emulator.registers[0xA] = 0xC;
    emulator.registers[0xB] = 0xD;
    let mut display = Display::default();
    let keyboard = Keyboard::default();

    emulator.tick(&mut display, &keyboard).unwrap();

    assert_eq!(emulator.program_counter, 0x204);
}

#[test]
fn test_sne_v_v_equal() {
    let mut emulator = Emulator::new(&[0x9A, 0xB0]);
    emulator.registers[0xA] = 0xC;
    emulator.registers[0xB] = 0xC;
    let mut display = Display::default();
    let keyboard = Keyboard::default();

    emulator.tick(&mut display, &keyboard).unwrap();

    assert_eq!(emulator.program_counter, 0x202);
}

#[test]
fn test_ld_i() {
    let mut emulator = Emulator::new(&[0xAB, 0xCD]);
    let mut display = Display::default();
    let keyboard = Keyboard::default();

    emulator.tick(&mut display, &keyboard).unwrap();

    assert_eq!(emulator.i, 0xBCD);
    assert_eq!(emulator.program_counter, 0x202);
}

#[test]
fn test_jp_v() {
    let mut emulator = Emulator::new(&[0xBC, 0xDE]);
    emulator.registers[0x0] = 0x1;
    let mut display = Display::default();
    let keyboard = Keyboard::default();

    emulator.tick(&mut display, &keyboard).unwrap();

    assert_eq!(emulator.program_counter, 0xCDF);
    assert_eq!(emulator.stack, vec![]);
}

#[test]
fn test_drw() {
    let mut emulator = Emulator::new(&[0xDA, 0xB2]);
    emulator.i = 0x400;
    emulator.memory.set_byte(0x400, 0b11110000);
    emulator.memory.set_byte(0x401, 0b11001100);
    emulator.registers[0xA] = 0x3E;
    emulator.registers[0xB] = 0x2;
    let mut display = Display::default();
    let keyboard = Keyboard::default();

    emulator.tick(&mut display, &keyboard).unwrap();

    assert_eq!(display.get_pixel(0x3E, 0x2), true);
    assert_eq!(display.get_pixel(0x3F, 0x2), true);
    assert_eq!(display.get_pixel(0x0, 0x2), true);
    assert_eq!(display.get_pixel(0x1, 0x2), true);
    assert_eq!(display.get_pixel(0x2, 0x2), false);
    assert_eq!(display.get_pixel(0x3, 0x2), false);
    assert_eq!(display.get_pixel(0x4, 0x2), false);
    assert_eq!(display.get_pixel(0x5, 0x2), false);

    assert_eq!(display.get_pixel(0x3E, 0x3), true);
    assert_eq!(display.get_pixel(0x3F, 0x3), true);
    assert_eq!(display.get_pixel(0x0, 0x3), false);
    assert_eq!(display.get_pixel(0x1, 0x3), false);
    assert_eq!(display.get_pixel(0x2, 0x3), true);
    assert_eq!(display.get_pixel(0x3, 0x3), true);
    assert_eq!(display.get_pixel(0x4, 0x3), false);
    assert_eq!(display.get_pixel(0x5, 0x3), false);

    assert_eq!(emulator.program_counter, 0x202);
}

#[test]
fn test_skp_v_pressed() {
    let mut emulator = Emulator::new(&[0xE0, 0x9E]);
    emulator.registers[0x0] = 0x5;
    let mut display = Display::default();
    let mut keyboard = Keyboard::default();
    keyboard.press(&Key::Num5);

    emulator.tick(&mut display, &keyboard).unwrap();

    assert_eq!(emulator.program_counter, 0x204);
}

#[test]
fn test_skp_v_not_pressed() {
    let mut emulator = Emulator::new(&[0xE0, 0x9E]);
    emulator.registers[0x0] = 0x5;
    let mut display = Display::default();
    let mut keyboard = Keyboard::default();
    keyboard.release(&Key::Num5);

    emulator.tick(&mut display, &keyboard).unwrap();

    assert_eq!(emulator.program_counter, 0x202);
}

#[test]
fn test_sknp_v_pressed() {
    let mut emulator = Emulator::new(&[0xE0, 0xA1]);
    emulator.registers[0x0] = 0x5;
    let mut display = Display::default();
    let mut keyboard = Keyboard::default();
    keyboard.press(&Key::Num5);

    emulator.tick(&mut display, &keyboard).unwrap();

    assert_eq!(emulator.program_counter, 0x202);
}

#[test]
fn test_sknp_v_not_pressed() {
    let mut emulator = Emulator::new(&[0xE0, 0xA1]);
    emulator.registers[0x0] = 0x5;
    let mut display = Display::default();
    let mut keyboard = Keyboard::default();
    keyboard.release(&Key::Num5);

    emulator.tick(&mut display, &keyboard).unwrap();

    assert_eq!(emulator.program_counter, 0x204);
}

#[test]
fn test_ld_v_dt() {
    let mut emulator = Emulator::new(&[0xF1, 0x07]);
    emulator.delay_timer = 0x55;
    let mut display = Display::default();
    let keyboard = Keyboard::default();

    emulator.tick(&mut display, &keyboard).unwrap();

    assert_eq!(emulator.program_counter, 0x202);
    assert_eq!(emulator.registers[0x1], 0x55);
}

#[test]
fn test_ld_v_k() {
    let mut emulator = Emulator::new(&[0xF2, 0x0A]);
    let mut display = Display::default();
    let mut keyboard = Keyboard::default();

    emulator.tick(&mut display, &keyboard).unwrap();

    assert_eq!(emulator.program_counter, 0x200);
    assert_eq!(emulator.registers[0x2], 0x0);

    keyboard.press(&Key::Num2);

    emulator.tick(&mut display, &keyboard).unwrap();

    assert_eq!(emulator.program_counter, 0x202);
    assert_eq!(emulator.registers[0x2], 0x2);
}

#[test]
fn test_ld_dt_v() {
    let mut emulator = Emulator::new(&[0xF3, 0x15]);
    emulator.registers[0x3] = 3;
    let mut display = Display::default();
    let keyboard = Keyboard::default();

    emulator.tick(&mut display, &keyboard).unwrap();

    assert_eq!(emulator.program_counter, 0x202);
    assert_eq!(emulator.delay_timer, 0x3);
}

#[test]
fn test_ld_st_v() {
    let mut emulator = Emulator::new(&[0xF4, 0x18]);
    emulator.registers[0x4] = 4;
    let mut display = Display::default();
    let keyboard = Keyboard::default();

    emulator.tick(&mut display, &keyboard).unwrap();

    assert_eq!(emulator.program_counter, 0x202);
    assert_eq!(emulator.sound_timer, 0x4);
}

#[test]
fn test_add_i_v() {
    let mut emulator = Emulator::new(&[0xF5, 0x1E]);
    emulator.i = 0x9A;
    emulator.registers[0x5] = 0x9A;
    let mut display = Display::default();
    let keyboard = Keyboard::default();

    emulator.tick(&mut display, &keyboard).unwrap();

    assert_eq!(emulator.i, 0x134);
    assert_eq!(emulator.program_counter, 0x202);
    assert_eq!(emulator.registers[0xF], 0);
}

#[test]
fn test_ld_f_v() {
    let mut emulator = Emulator::new(&[0xF6, 0x29]);
    emulator.registers[0x6] = 0xA;
    let mut display = Display::default();
    let keyboard = Keyboard::default();

    emulator.tick(&mut display, &keyboard).unwrap();

    assert_eq!(emulator.i, 0xA * 5);
    assert_eq!(emulator.program_counter, 0x202);
}

#[test]
fn test_ld_b_v() {
    let mut emulator = Emulator::new(&[0xF7, 0x33]);
    emulator.i = 0x400;
    emulator.registers[0x7] = 0x7B;
    let mut display = Display::default();
    let keyboard = Keyboard::default();

    emulator.tick(&mut display, &keyboard).unwrap();

    assert_eq!(emulator.memory.get_byte(0x400), 0x1);
    assert_eq!(emulator.memory.get_byte(0x401), 0x2);
    assert_eq!(emulator.memory.get_byte(0x402), 0x3);
    assert_eq!(emulator.program_counter, 0x202);
}

#[test]
fn test_ld_i_v() {
    let mut emulator = Emulator::new(&[0xF8, 0x55]);
    emulator.i = 0x400;
    emulator.registers[0x0] = 0x1;
    emulator.registers[0x4] = 0x5;
    emulator.registers[0x8] = 0x9;
    let mut display = Display::default();
    let keyboard = Keyboard::default();

    emulator.tick(&mut display, &keyboard).unwrap();

    assert_eq!(emulator.memory.get_byte(0x400), 0x1);
    assert_eq!(emulator.memory.get_byte(0x404), 0x5);
    assert_eq!(emulator.memory.get_byte(0x408), 0x9);
    assert_eq!(emulator.program_counter, 0x202);
}

#[test]
fn test_ld_v_i() {
    let mut emulator = Emulator::new(&[0xF8, 0x65]);
    emulator.i = 0x400;
    emulator.memory.set_byte(0x400, 0x1);
    emulator.memory.set_byte(0x404, 0x5);
    emulator.memory.set_byte(0x408, 0x9);
    let mut display = Display::default();
    let keyboard = Keyboard::default();

    emulator.tick(&mut display, &keyboard).unwrap();

    assert_eq!(emulator.registers[0x0], 0x1);
    assert_eq!(emulator.registers[0x4], 0x5);
    assert_eq!(emulator.registers[0x8], 0x9);
    assert_eq!(emulator.program_counter, 0x202);
}
