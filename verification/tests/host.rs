use chip8::assembler::{Assembler, Token};
use chip8::device::{update_keypress, Device, Input, Keycode};
use chip8::display::{Cell, Display};
use chip8::error::{CapacityError, InterpreterError};
use chip8::events::{handle, Event, Key};
use chip8::rom::Ch8Rom;

const BLOCK: [Keycode; 16] = [
    Keycode::Num1,
    Keycode::Num2,
    Keycode::Num3,
    Keycode::Num4,
    Keycode::Q,
    Keycode::W,
    Keycode::E,
    Keycode::R,
    Keycode::A,
    Keycode::S,
    Keycode::D,
    Keycode::F,
    Keycode::Z,
    Keycode::X,
    Keycode::C,
    Keycode::V,
];

fn device(program: &[u8]) -> Device {
    let mut device = Device::new(Ch8Rom::init(program.to_vec()));
    assert_eq!(device.initialize(), Ok(()));
    device
}

fn flags(token: &Token) -> (bool, bool, bool) {
    (token.section, token.global, token.label)
}

#[test]
fn the_keypad_layout_puts_the_hex_keys_under_the_block() {
    let expected = [0x1, 0x2, 0x3, 0xC, 0x4, 0x5, 0x6, 0xD, 0x7, 0x8, 0x9, 0xE, 0xA, 0x0, 0xB, 0xF];
    for (key, index) in BLOCK.iter().zip(expected.iter()) {
        assert_eq!(update_keypress(*key), Some(*index));
    }
    assert_eq!(update_keypress(Keycode::Escape), None);
    assert_eq!(update_keypress(Keycode::Other), None);
}

#[test]
fn the_straight_layout_numbers_the_block_through() {
    for (index, key) in BLOCK.iter().enumerate() {
        assert_eq!(Device::key_index(*key), Some(index));
    }
    assert_eq!(Device::key_index(Keycode::Escape), None);
    assert_eq!(Device::key_index(Keycode::Other), None);
}

#[test]
fn a_new_device_waits_with_an_empty_machine() {
    let device = Device::new(Ch8Rom::init(vec![0x12, 0x00]));
    assert_eq!(device.vm.pc(), 0x200);
    assert_eq!(&device.vm.memory()[0x200..0x202], &[0, 0]);
    assert_eq!(device.rom.memory(), &vec![0x12, 0x00]);
}

#[test]
fn a_device_loads_its_rom() {
    let device = device(&[0x12, 0x00]);
    assert_eq!(&device.vm.memory()[0x200..0x202], &[0x12, 0x00]);
    assert_eq!(device.vm.memory()[0], 0xF0);
}

#[test]
fn a_device_refuses_a_rom_that_does_not_fit() {
    let mut device = Device::new(Ch8Rom::init(vec![0xFF; 3585]));
    assert_eq!(device.initialize(), Err(CapacityError));
    assert!(device.vm.memory()[0x200..].iter().all(|byte| *byte == 0));
}

#[test]
fn keys_go_down_and_come_up() {
    let mut device = device(&[]);
    assert!(device.handle(Input::KeyDown(Keycode::Q)));
    assert!(device.handle(Input::KeyDown(Keycode::V)));
    let mut expected = [false; 16];
    expected[4] = true;
    expected[15] = true;
    assert_eq!(device.vm.keyboard(), &expected);
    assert!(device.handle(Input::KeyUp(Keycode::Q)));
    expected[4] = false;
    assert_eq!(device.vm.keyboard(), &expected);
    assert!(device.handle(Input::KeyUp(Keycode::Other)));
    assert!(device.handle(Input::KeyDown(Keycode::Other)));
    assert!(device.handle(Input::Other));
    assert!(device.handle(Input::KeyUp(Keycode::Escape)));
    assert_eq!(device.vm.keyboard(), &expected);
}

#[test]
fn closing_the_window_or_escape_ends_the_run() {
    let mut device = device(&[]);
    assert!(!device.handle(Input::Quit));
    assert!(!device.handle(Input::KeyDown(Keycode::Escape)));
    assert_eq!(device.vm.keyboard(), &[false; 16]);
}

#[test]
fn a_frame_runs_ten_cycles_and_steps_the_timers_once() {
    let mut device = device(&[
        0x60, 0x05, 0xF0, 0x15, 0x61, 0x02, 0xF1, 0x18, 0x72, 0x01, 0x72, 0x01, 0x72, 0x01, 0x72,
        0x01, 0x72, 0x01, 0x72, 0x01, 0x12, 0x14,
    ]);
    assert_eq!(device.frame(), Ok(false));
    assert_eq!(device.vm.registers()[2], 6);
    assert_eq!(device.vm.pc(), 0x214);
    assert_eq!(device.vm.delay_timer(), 4);
    assert_eq!(device.vm.sound_timer(), 1);
    assert_eq!(device.frame(), Ok(true));
    assert_eq!(device.vm.pc(), 0x214);
    assert_eq!(device.vm.delay_timer(), 3);
    assert_eq!(device.vm.sound_timer(), 0);
    assert_eq!(device.frame(), Ok(false));
    assert_eq!(device.vm.delay_timer(), 2);
}

#[test]
fn a_frame_stops_at_the_first_cycle_that_fails() {
    let mut device = device(&[0x60, 0x05, 0xF0, 0x15, 0x61, 0x01, 0xFF, 0xFF, 0x61, 0x02]);
    assert_eq!(device.frame(), Err(InterpreterError::UnknownOpcode(0xFFFF)));
    assert_eq!(device.vm.registers()[1], 1);
    assert_eq!(device.vm.pc(), 0x208);
    assert_eq!(device.vm.delay_timer(), 5);
}

#[test]
fn the_screen_is_painted_in_squares_of_twenty() {
    let mut device = device(&[0xA0, 0x00, 0x60, 0x3C, 0x61, 0x1E, 0xD0, 0x15]);
    for _ in 0..4 {
        device.vm.tick().unwrap();
    }
    let cells = device.draw_screen();
    assert_eq!(cells.len(), 64 * 32);
    for (i, cell) in cells.iter().enumerate() {
        let (x, y) = (i % 64, i / 64);
        assert_eq!(
            *cell,
            Cell {
                x: (x * 20) as i32,
                y: (y * 20) as i32,
                width: 20,
                height: 20,
                lit: device.vm.display()[y][x],
            }
        );
    }
    assert_eq!(cells[0], Cell { x: 0, y: 0, width: 20, height: 20, lit: false });
    assert_eq!(cells[2047], Cell { x: 1260, y: 620, width: 20, height: 20, lit: true });
    assert_eq!(cells[30 * 64 + 60], Cell { x: 1200, y: 600, width: 20, height: 20, lit: true });
    assert_eq!(cells.iter().filter(|cell| cell.lit).count(), 14);
}

#[test]
fn a_display_copies_the_screen() {
    let mut screen = [[false; 64]; 32];
    screen[0][0] = true;
    screen[31][63] = true;
    screen[5][9] = true;
    let display = Display::new(&screen);
    for y in 0..32 {
        for x in 0..64 {
            assert_eq!(display.pixel(x, y), Some(screen[y][x]));
        }
    }
    assert_eq!(display.pixel(64, 0), None);
    assert_eq!(display.pixel(0, 32), None);
    assert_eq!(display.cells().iter().filter(|cell| cell.lit).count(), 3);
    assert_eq!((Display::WIDTH, Display::HEIGHT), (64, 32));
    assert_eq!((Display::SCALE, Display::TICKS_PER_FRAME), (20, 10));
}

#[test]
fn typing_q_stops_the_machine() {
    assert!(!handle(true, &Event::Input(Key::Char('q'))));
    assert!(handle(true, &Event::Input(Key::Char('Q'))));
    assert!(handle(true, &Event::Input(Key::Char('x'))));
    assert!(handle(true, &Event::Input(Key::Other)));
    assert!(handle(true, &Event::Tick));
    assert!(!handle(false, &Event::Tick));
    assert!(!handle(false, &Event::Input(Key::Char('x'))));
}

#[test]
fn reformat_cuts_the_comment_off() {
    assert_eq!(Assembler::reformat("mov a, b ; copy"), Some("mov a, b "));
    assert_eq!(Assembler::reformat("mov a, b"), Some("mov a, b"));
    assert_eq!(Assembler::reformat("ab;c;d"), Some("ab"));
    assert_eq!(Assembler::reformat("  ; only a comment"), Some("  "));
}

#[test]
fn reformat_drops_a_line_with_at_most_one_byte_of_code() {
    assert_eq!(Assembler::reformat(""), None);
    assert_eq!(Assembler::reformat(";"), None);
    assert_eq!(Assembler::reformat("; comment"), None);
    assert_eq!(Assembler::reformat("a"), None);
    assert_eq!(Assembler::reformat("a; comment"), None);
    assert_eq!(Assembler::reformat(" ;"), None);
}

#[test]
fn reformat_counts_bytes_and_not_characters() {
    assert_eq!(Assembler::reformat("é"), Some("é"));
    assert_eq!(Assembler::reformat("é;x"), Some("é"));
    assert_eq!(Assembler::reformat("\u{7f}"), None);
    assert_eq!(Assembler::reformat("\u{80}"), Some("\u{80}"));
    assert_eq!(Assembler::reformat("日本;語"), Some("日本"));
}

#[test]
fn tokenize_tells_the_three_kinds_of_line_apart() {
    assert_eq!(flags(&Assembler::tokenize("section .text")), (true, false, false));
    assert_eq!(flags(&Assembler::tokenize("section xtext")), (true, false, false));
    assert_eq!(flags(&Assembler::tokenize(" section .text")), (false, false, false));
    assert_eq!(flags(&Assembler::tokenize("    global main")), (false, true, false));
    assert_eq!(flags(&Assembler::tokenize("global main")), (false, false, false));
    assert_eq!(flags(&Assembler::tokenize("main:")), (false, false, true));
    assert_eq!(flags(&Assembler::tokenize("loop_1: jp loop_1")), (false, false, true));
    assert_eq!(flags(&Assembler::tokenize(":")), (false, false, false));
    assert_eq!(flags(&Assembler::tokenize("    ld v0, 1")), (false, false, false));
    assert_eq!(flags(&Assembler::tokenize("section text: x")), (false, false, false));
    assert_eq!(flags(&Assembler::tokenize("section:text")), (false, false, true));
    assert_eq!(flags(&Assembler::tokenize("section  text")), (true, false, false));
    assert_eq!(flags(&Assembler::tokenize("section .tex")), (false, false, false));
    assert_eq!(flags(&Assembler::tokenize("\t global")), (false, false, false));
    assert_eq!(flags(&Assembler::tokenize("\t global ")), (false, true, false));
}

#[test]
fn a_token_starts_with_empty_fields() {
    let token = Assembler::tokenize("main:");
    assert_eq!(token.line, "main:");
    assert_eq!(token.function, "");
    assert_eq!(token.args, "");
}

#[test]
fn a_token_is_built_from_what_the_patterns_said() {
    let line = || String::from("ld v0, 1");
    assert_eq!(flags(&Token::new(line(), Some(true), Some(false), None)), (true, false, false));
    assert_eq!(flags(&Token::new(line(), None, Some(true), Some(true))), (false, true, true));
    assert_eq!(flags(&Token::new(line(), Some(false), None, Some(false))), (false, false, false));
    assert_eq!(Token::new(line(), None, None, None).line, "ld v0, 1");
    assert_eq!(Token::new(line(), None, None, None).function, "");
    assert_eq!(Token::new(line(), None, None, None).args, "");
}

#[test]
fn assemble_gives_one_token_for_each_line_with_code() {
    let program =
        "section .text\n    global main ; entry\n\n; a comment\nmain:\n    ld v0, 1\nx\n    ret";
    let tokens = Assembler::assemble(program);
    let lines: Vec<&str> = tokens.iter().map(|token| token.line.as_str()).collect();
    assert_eq!(
        lines,
        vec!["section .text", "    global main ", "main:", "    ld v0, 1", "    ret"]
    );
    let kinds: Vec<(bool, bool, bool)> = tokens.iter().map(flags).collect();
    assert_eq!(
        kinds,
        vec![
            (true, false, false),
            (false, true, false),
            (false, false, true),
            (false, false, false),
            (false, false, false),
        ]
    );
}

#[test]
fn assemble_of_an_empty_text_gives_nothing() {
    assert!(Assembler::assemble("").is_empty());
    assert!(Assembler::assemble("\n\n\n").is_empty());
    assert!(Assembler::assemble("; nothing\n;\na\n").is_empty());
}

#[test]
fn assemble_takes_the_last_line_without_a_line_feed() {
    assert_eq!(Assembler::assemble("main:").len(), 1);
    assert_eq!(Assembler::assemble("main:\n").len(), 1);
    assert_eq!(Assembler::assemble("ab\ncd").len(), 2);
    assert!(Assembler::assemble("ab\nmain:")[1].label);
}

#[test]
fn assemble_cuts_lines_at_line_feeds_only() {
    let tokens = Assembler::assemble("ab\r\nmain:\r\n");
    assert_eq!(tokens.len(), 2);
    assert!(tokens[1].label);
    let tokens = Assembler::assemble("a;\nb;\n  global x");
    assert_eq!(tokens.len(), 1);
    assert!(tokens[0].global);
}
