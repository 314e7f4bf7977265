use emul8::internals::display::Display;
use emul8::internals::keyboard::Keyboard;
use emul8::internals::memory::{Memory, Registers};
use emul8::internals::processor::Processor;
use emul8::internals::text::{push_hex, push_labelled, push_prefixed_hex};

fn formatted(registers: &Registers) -> String {
    let v = registers.v;
    let mut text = String::new();
    text.push_str(&format!(
        "Special Registers: pc={:#X}, sp={:#X}, i={:#X}, dt={:#X}, st={:#X}\n",
        registers.pc, registers.sp, registers.i, registers.dt, registers.st
    ));
    text.push_str("General Purpose Registers\n");
    text.push_str(&format!(
        "V0 : {:#X},  V1: {:#X},  V2 : {:#X},  V3: {:#X}\n",
        v[0], v[1], v[2], v[3]
    ));
    text.push_str(&format!(
        "V4 : {:#X},  V5: {:#X},  V6 : {:#X},  V7: {:#X}\n",
        v[4], v[5], v[6], v[7]
    ));
    text.push_str(&format!(
        "V8 : {:#X},  V9: {:#X},  V10: {:#X}, V11: {:#X}\n",
        v[8], v[9], v[10], v[11]
    ));
    text.push_str(&format!(
        "V12: {:#X}, V13: {:#X},  V14: {:#X}, V15: {:#X}\n",
        v[12], v[13], v[14], v[15]
    ));
    text
}

#[test]
fn hexadecimal_numbers() {
    for n in [0u16, 1, 9, 10, 15, 16, 0xFF, 0x100, 0xABC, 0xFFF, 0x1000, 0xBEEF, 0xFFFF] {
        let mut upper = String::from("x");
        push_hex(&mut upper, n, true);
        assert_eq!(upper, format!("x{:X}", n));
        let mut lower = String::new();
        push_hex(&mut lower, n, false);
        assert_eq!(lower, format!("{:x}", n));
        let mut prefixed = String::from("at ");
        push_prefixed_hex(&mut prefixed, n);
        assert_eq!(prefixed, format!("at {:#X}", n));
    }
}

#[test]
fn every_number_agrees_with_the_formatter() {
    for n in 0..=0xFFFFu16 {
        let mut text = String::new();
        push_hex(&mut text, n, true);
        assert_eq!(text, format!("{:X}", n));
    }
}

#[test]
fn appending_labels() {
    let mut text = String::from("abc\n");
    push_labelled(&mut text, "pc=", 0x2A4);
    assert_eq!(text, "abc\npc=0x2A4");
    push_labelled(&mut text, "", 0);
    assert_eq!(text, "abc\npc=0x2A40x0");
}

#[test]
fn registers_as_text() {
    let registers = Registers::default();
    assert_eq!(
        registers.to_text(),
        "Special Registers: pc=0x0, sp=0xFF, i=0x0, dt=0x0, st=0x0\n\
         General Purpose Registers\n\
         V0 : 0x0,  V1: 0x0,  V2 : 0x0,  V3: 0x0\n\
         V4 : 0x0,  V5: 0x0,  V6 : 0x0,  V7: 0x0\n\
         V8 : 0x0,  V9: 0x0,  V10: 0x0, V11: 0x0\n\
         V12: 0x0, V13: 0x0,  V14: 0x0, V15: 0x0\n"
    );
    assert_eq!(registers.to_text(), formatted(&registers));
    let mut busy = Registers::default();
    busy.pc = 0x2A4;
    busy.sp = 3;
    busy.i = 0xFFF;
    busy.dt = 0x10;
    busy.st = 0xFF;
    for k in 0..16 {
        busy.v[k] = (k * 17) as u8;
    }
    assert_eq!(busy.to_text(), formatted(&busy));
    busy.sp = -128;
    assert_eq!(busy.to_text(), formatted(&busy));
    busy.sp = 127;
    assert_eq!(busy.to_text(), formatted(&busy));
}

#[test]
fn stack_as_text() {
    let mut memory = Memory::default();
    assert_eq!(memory.stack_to_text(), format!("{:x?}", memory.stack));
    memory.stack_push(0x1FF).unwrap();
    memory.stack_push(0xABC).unwrap();
    memory.stack[15] = 0xFFFF;
    assert_eq!(
        memory.stack_to_text(),
        "[1ff, abc, 0, 0, 0, 0, 0, 0, 0, 0, 0, 0, 0, 0, 0, ffff]"
    );
    assert_eq!(memory.stack_to_text(), format!("{:x?}", memory.stack));
}

#[test]
fn display_as_text() {
    let mut display = Display::new();
    let blank_row = format!("{}\n", " ".repeat(127));
    assert_eq!(display.to_text(), blank_row.repeat(32));
    display.screen[0] = true;
    display.screen[63] = true;
    display.screen[64 + 1] = true;
    display.screen[2047] = true;
    let text = display.to_text();
    let rows: Vec<&str> = text.split('\n').collect();
    assert_eq!(rows.len(), 33);
    assert_eq!(rows[32], "");
    assert_eq!(rows[0], format!("*{}*", " ".repeat(125)));
    assert_eq!(rows[1], format!("  *{}", " ".repeat(124)));
    assert_eq!(rows[2], " ".repeat(127));
    assert_eq!(rows[31], format!("{}*", " ".repeat(126)));
    assert_eq!(text.len(), 32 * 128);
}

#[test]
fn processor_dumps() {
    let mut processor = Processor::new();
    processor.memory.registers.pc = 0x200;
    processor.memory.stack[0] = 0x204;
    processor.display.screen[5] = true;
    assert_eq!(processor.dump_registers(), formatted(&processor.memory.registers));
    assert_eq!(processor.dump_stack(), format!("{:x?}", processor.memory.stack));
    assert_eq!(processor.dump_display(), processor.display.to_text());
    assert_eq!(processor.dump_display().chars().nth(10), Some('*'));
}

#[test]
fn keys_from_characters() {
    let expected = [
        ('0', 0u8), ('1', 1), ('2', 2), ('3', 3), ('4', 4), ('5', 5), ('6', 6), ('7', 7),
        ('8', 8), ('9', 9), ('a', 10), ('b', 11), ('c', 12), ('d', 13), ('e', 14), ('f', 15),
        ('A', 10), ('B', 11), ('C', 12), ('D', 13), ('E', 14), ('F', 15),
    ];
    for (c, key) in expected {
        assert_eq!(Keyboard::key_from_char(c), Some(key));
    }
    for c in ['g', 'G', ' ', '/', ':', '@', '`', 'x', '\n', 'é', '０'] {
        assert_eq!(Keyboard::key_from_char(c), None);
    }
}

#[test]
fn blanks_are_white_space() {
    for code in 0..=0x3100u32 {
        if let Some(c) = char::from_u32(code) {
            assert_eq!(Keyboard::blank(c), c.is_whitespace(), "U+{:04X}", code);
        }
    }
}

#[test]
fn keys_from_lines() {
    assert_eq!(Keyboard::key_from_line("0\n"), Some(0));
    assert_eq!(Keyboard::key_from_line("9"), Some(9));
    assert_eq!(Keyboard::key_from_line("  a \r\n"), Some(0xA));
    assert_eq!(Keyboard::key_from_line("F\n"), Some(0xF));
    assert_eq!(Keyboard::key_from_line("\t\u{a0}c\u{3000}"), Some(0xC));
    assert_eq!(Keyboard::key_from_line(""), None);
    assert_eq!(Keyboard::key_from_line("\n"), None);
    assert_eq!(Keyboard::key_from_line("g\n"), None);
    assert_eq!(Keyboard::key_from_line("10\n"), None);
    assert_eq!(Keyboard::key_from_line("1 0\n"), None);
    assert_eq!(Keyboard::key_from_line("0x1\n"), None);
    assert_eq!(Keyboard::key_from_line(" - \n"), None);
}

#[test]
fn keys_from_lines_agree_with_trimming() {
    let keys = "0123456789ABCDEF";
    for line in ["3", " 3", "3 ", "\n3\n", "33", "3 3", " ", "", "z", "é", " b\t", "B\n", "b b"] {
        let trimmed = line.trim().to_uppercase();
        let expected = if trimmed.chars().count() == 1 {
            keys.find(trimmed.as_str()).map(|k| k as u8)
        } else {
            None
        };
        assert_eq!(Keyboard::key_from_line(line), expected, "line {:?}", line);
    }
}

#[test]
fn keyboard_latch() {
    let mut keyboard = Keyboard::default();
    keyboard.do_read();
    assert_eq!(keyboard.keys, [false; 16]);
    assert_eq!(keyboard.latch, None);
    assert!(keyboard.press(0));
    assert_eq!(keyboard.latch, Some(0));
    assert!(keyboard.press(0xF));
    assert_eq!(keyboard.latch, Some(0xF));
    assert!(!keyboard.press(0x10));
    assert_eq!(keyboard.latch, Some(0xF));
    keyboard.do_read();
    assert_eq!(keyboard.latch, Some(0xF));
    assert_eq!(keyboard.keys, [false; 16]);
}

#[test]
fn every_character_names_the_key_that_its_upper_case_names() {
    let keys = "0123456789ABCDEF";
    for code in 0..=0x10FFFFu32 {
        if let Some(c) = char::from_u32(code) {
            let line = format!(" {}\n", c);
            let upper = line.trim().to_uppercase();
            let expected = if upper.chars().count() == 1 {
                keys.find(upper.as_str()).map(|k| k as u8)
            } else {
                None
            };
            assert_eq!(Keyboard::key_from_line(&line), expected, "U+{:04X}", code);
        }
    }
}
