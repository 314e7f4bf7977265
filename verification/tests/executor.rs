use emul8::assembler::{CallLabel, JmpLabel};
use emul8::internals::fault::{Fault, Step};
use emul8::internals::memory::Memory;
use emul8::internals::opcode::{
    ADDIVx, ADDVxByte, ADDVxVy, ANDVxVy, Instruction, InvalidOpcode, JPV0Offset, LDBVx, LDDTVx,
    LDFVx, LDIAddr, LDIVx, LDSTVx, LDVxByte, LDVxDT, LDVxI, LDVxK, LDVxVy, ORVxVy, Opcode,
    RNDVxByte, SEVxByte, SEVxVy, SHLVxVy, SHRVxVy, SKNPBRDVx, SKPKBRDVx, SNEVxByte, SNEVxVy,
    SUBNVxVy, SUBVxVy, XORVxVy, CALL, CLS, DRW, JMP, RET,
};
use emul8::internals::processor::Processor;

fn machine() -> Processor {
    let mut processor = Processor::new();
    processor.memory.registers.pc = 0x200;
    processor
}

#[test]
fn font_table_starts_with_glyph_zero() {
    let memory = Memory::default();
    assert_eq!(&memory.ram[0..5], &[0xF0, 0x90, 0x90, 0x90, 0xF0]);
}

#[test]
fn font_table_layout() {
    let memory = Memory::default();
    // one glyph every six bytes, the sixth byte of each stays zero
    assert_eq!(&memory.ram[6..12], &[0x20, 0x60, 0x20, 0x20, 0x70, 0x00]);
    assert_eq!(&memory.ram[12..17], &[0xF0, 0x10, 0xF0, 0x80, 0xF0]);
    assert_eq!(&memory.ram[0xF * 6..0xF * 6 + 5], &[0xF0, 0x80, 0xF0, 0x80, 0x80]);
    assert_eq!(memory.ram[5], 0);
    assert!(memory.ram[96..].iter().all(|byte| *byte == 0));
    assert_eq!(memory.registers.sp, -1);
    assert_eq!(memory.registers.pc, 0);
    assert_eq!(memory.registers.v, [0u8; 16]);
    assert_eq!(memory.stack, [0u16; 16]);
}

#[test]
fn add_with_carry() {
    let mut p = machine();
    p.memory.registers.v[0] = 0xFF;
    p.memory.registers.v[1] = 0x01;
    assert_eq!(ADDVxVy { reg_a: 0, reg_b: 1 }.execute(&mut p, 0), Ok(Step::Completed));
    assert_eq!(p.memory.registers.v[0], 0x00);
    assert_eq!(p.memory.registers.v[0xF], 1);
    assert_eq!(p.memory.registers.v[1], 0x01);
    assert_eq!(p.memory.registers.pc, 0x200);
}

#[test]
fn add_without_carry() {
    let mut p = machine();
    p.memory.registers.v[0] = 0x10;
    p.memory.registers.v[1] = 0x22;
    p.memory.registers.v[0xF] = 7;
    assert_eq!(ADDVxVy { reg_a: 0, reg_b: 1 }.execute(&mut p, 0), Ok(Step::Completed));
    assert_eq!(p.memory.registers.v[0], 0x32);
    assert_eq!(p.memory.registers.v[0xF], 0);
}

#[test]
fn add_into_the_flag_register_keeps_the_sum() {
    let mut p = machine();
    p.memory.registers.v[0xF] = 0xF0;
    p.memory.registers.v[1] = 0x20;
    assert_eq!(ADDVxVy { reg_a: 0xF, reg_b: 1 }.execute(&mut p, 0), Ok(Step::Completed));
    assert_eq!(p.memory.registers.v[0xF], 0x10);
}

#[test]
fn sub_with_borrow() {
    let mut p = machine();
    p.memory.registers.v[0] = 0x01;
    p.memory.registers.v[1] = 0x02;
    assert_eq!(SUBVxVy { reg_a: 0, reg_b: 1 }.execute(&mut p, 0), Ok(Step::Completed));
    assert_eq!(p.memory.registers.v[0], 0x00);
    assert_eq!(p.memory.registers.v[0xF], 1);
}

#[test]
fn sub_without_borrow() {
    let mut p = machine();
    p.memory.registers.v[0] = 0x09;
    p.memory.registers.v[1] = 0x02;
    p.memory.registers.v[0xF] = 1;
    assert_eq!(SUBVxVy { reg_a: 0, reg_b: 1 }.execute(&mut p, 0), Ok(Step::Completed));
    assert_eq!(p.memory.registers.v[0], 0x07);
    assert_eq!(p.memory.registers.v[0xF], 0);
}

#[test]
fn subn_sets_the_flag_when_nothing_is_borrowed() {
    let mut p = machine();
    p.memory.registers.v[0] = 0x02;
    p.memory.registers.v[1] = 0x09;
    assert_eq!(SUBNVxVy { reg_a: 0, reg_b: 1 }.execute(&mut p, 0), Ok(Step::Completed));
    assert_eq!(p.memory.registers.v[0], 0x07);
    assert_eq!(p.memory.registers.v[0xF], 1);
    p.memory.registers.v[0] = 0x09;
    p.memory.registers.v[1] = 0x02;
    assert_eq!(SUBNVxVy { reg_a: 0, reg_b: 1 }.execute(&mut p, 0), Ok(Step::Completed));
    assert_eq!(p.memory.registers.v[0], 0xF9);
    assert_eq!(p.memory.registers.v[0xF], 0);
    p.memory.registers.v[0] = 0x05;
    p.memory.registers.v[1] = 0x05;
    assert_eq!(SUBNVxVy { reg_a: 0, reg_b: 1 }.execute(&mut p, 0), Ok(Step::Completed));
    assert_eq!(p.memory.registers.v[0], 0x00);
    assert_eq!(p.memory.registers.v[0xF], 1);
}

#[test]
fn shifts() {
    let mut p = machine();
    p.memory.registers.v[2] = 0b1000_0101;
    assert_eq!(SHRVxVy { reg_a: 2, reg_b: 0 }.execute(&mut p, 0), Ok(Step::Completed));
    assert_eq!(p.memory.registers.v[2], 0b0100_0010);
    assert_eq!(p.memory.registers.v[0xF], 1);
    assert_eq!(SHRVxVy { reg_a: 2, reg_b: 0 }.execute(&mut p, 0), Ok(Step::Completed));
    assert_eq!(p.memory.registers.v[2], 0b0010_0001);
    assert_eq!(p.memory.registers.v[0xF], 0);
    p.memory.registers.v[3] = 0b1000_0101;
    assert_eq!(SHLVxVy { reg_a: 3, reg_b: 0 }.execute(&mut p, 0), Ok(Step::Completed));
    assert_eq!(p.memory.registers.v[3], 0b0000_1010);
    assert_eq!(p.memory.registers.v[0xF], 1);
    assert_eq!(SHLVxVy { reg_a: 3, reg_b: 0 }.execute(&mut p, 0), Ok(Step::Completed));
    assert_eq!(p.memory.registers.v[3], 0b0001_0100);
    assert_eq!(p.memory.registers.v[0xF], 0);
}

#[test]
fn bitwise_operations() {
    let mut p = machine();
    p.memory.registers.v[1] = 0b1100;
    p.memory.registers.v[2] = 0b1010;
    p.memory.registers.v[0xF] = 9;
    assert_eq!(ORVxVy { reg_a: 1, reg_b: 2 }.execute(&mut p, 0), Ok(Step::Completed));
    assert_eq!(p.memory.registers.v[1], 0b1110);
    p.memory.registers.v[1] = 0b1100;
    assert_eq!(ANDVxVy { reg_a: 1, reg_b: 2 }.execute(&mut p, 0), Ok(Step::Completed));
    assert_eq!(p.memory.registers.v[1], 0b1000);
    p.memory.registers.v[1] = 0b1100;
    assert_eq!(XORVxVy { reg_a: 1, reg_b: 2 }.execute(&mut p, 0), Ok(Step::Completed));
    assert_eq!(p.memory.registers.v[1], 0b0110);
    assert_eq!(p.memory.registers.v[2], 0b1010);
    assert_eq!(p.memory.registers.v[0xF], 9);
}

#[test]
fn loads_between_registers() {
    let mut p = machine();
    assert_eq!(LDVxByte { reg: 4, byte: 0x77 }.execute(&mut p, 0), Ok(Step::Completed));
    assert_eq!(p.memory.registers.v[4], 0x77);
    assert_eq!(LDVxVy { reg_a: 5, reg_b: 4 }.execute(&mut p, 0), Ok(Step::Completed));
    assert_eq!(p.memory.registers.v[5], 0x77);
    assert_eq!(ADDVxByte { reg: 5, byte: 0x90 }.execute(&mut p, 0), Ok(Step::Completed));
    assert_eq!(p.memory.registers.v[5], 0x07);
    assert_eq!(p.memory.registers.v[0xF], 0);
    assert_eq!(LDDTVx { reg: 4 }.execute(&mut p, 0), Ok(Step::Completed));
    assert_eq!(p.memory.registers.dt, 0x77);
    assert_eq!(LDSTVx { reg: 5 }.execute(&mut p, 0), Ok(Step::Completed));
    assert_eq!(p.memory.registers.st, 0x07);
    assert_eq!(LDIAddr { address: 0x345 }.execute(&mut p, 0), Ok(Step::Completed));
    assert_eq!(p.memory.registers.i, 0x345);
    assert_eq!(ADDIVx { reg: 4 }.execute(&mut p, 0), Ok(Step::Completed));
    assert_eq!(p.memory.registers.i, 0x345 + 0x77);
    p.memory.registers.i = 0xFFFF;
    assert_eq!(ADDIVx { reg: 5 }.execute(&mut p, 0), Ok(Step::Completed));
    assert_eq!(p.memory.registers.i, 0x0006);
}

#[test]
fn delay_timer_counts_down_when_read() {
    let mut p = machine();
    p.memory.registers.dt = 2;
    assert_eq!(LDVxDT { reg: 1 }.execute(&mut p, 0), Ok(Step::Completed));
    assert_eq!((p.memory.registers.dt, p.memory.registers.v[1]), (1, 1));
    assert_eq!(LDVxDT { reg: 1 }.execute(&mut p, 0), Ok(Step::Completed));
    assert_eq!((p.memory.registers.dt, p.memory.registers.v[1]), (0, 0));
    assert_eq!(LDVxDT { reg: 1 }.execute(&mut p, 0), Ok(Step::Completed));
    assert_eq!((p.memory.registers.dt, p.memory.registers.v[1]), (0, 0));
}

#[test]
fn binary_coded_decimal() {
    let mut p = machine();
    p.memory.registers.v[3] = 157;
    p.memory.registers.i = 0x300;
    assert_eq!(LDBVx { reg: 3 }.execute(&mut p, 0), Ok(Step::Completed));
    assert_eq!(&p.memory.ram[0x300..0x303], &[1, 5, 7]);
    assert_eq!(p.memory.ram[0x2FF], 0);
    assert_eq!(p.memory.ram[0x303], 0);
    p.memory.registers.v[3] = 255;
    assert_eq!(LDBVx { reg: 3 }.execute(&mut p, 0), Ok(Step::Completed));
    assert_eq!(&p.memory.ram[0x300..0x303], &[2, 5, 5]);
    p.memory.registers.v[3] = 7;
    assert_eq!(LDBVx { reg: 3 }.execute(&mut p, 0), Ok(Step::Completed));
    assert_eq!(&p.memory.ram[0x300..0x303], &[0, 0, 7]);
}

#[test]
fn binary_coded_decimal_at_the_end_of_memory() {
    let mut p = machine();
    p.memory.registers.v[3] = 123;
    p.memory.registers.i = 4093;
    assert_eq!(LDBVx { reg: 3 }.execute(&mut p, 0), Ok(Step::Completed));
    assert_eq!(&p.memory.ram[4093..4096], &[1, 2, 3]);
    p.memory.registers.i = 4094;
    let before = p.memory.ram;
    assert_eq!(
        LDBVx { reg: 3 }.execute(&mut p, 0),
        Err(Fault::OutOfBoundsAccess { address: 4096 })
    );
    assert_eq!(p.memory.ram, before);
    p.memory.registers.i = 0x2000;
    assert_eq!(
        LDBVx { reg: 3 }.execute(&mut p, 0),
        Err(Fault::OutOfBoundsAccess { address: 0x2000 })
    );
}

#[test]
fn font_address() {
    let mut p = machine();
    p.memory.registers.v[1] = 0xA;
    assert_eq!(LDFVx { reg: 1 }.execute(&mut p, 0), Ok(Step::Completed));
    assert_eq!(p.memory.registers.i, 60);
    assert_eq!(&p.memory.ram[60..65], &[0xF0, 0x90, 0xF0, 0x90, 0x90]);
    p.memory.registers.v[1] = 0x10;
    assert_eq!(LDFVx { reg: 1 }.execute(&mut p, 0), Err(Fault::OperandRange));
    assert_eq!(p.memory.registers.i, 60);
}

#[test]
fn bulk_load_and_store() {
    let mut p = machine();
    p.memory.registers.i = 0x400;
    for k in 0..16 {
        p.memory.ram[0x400 + k] = 0xA0 + k as u8;
    }
    assert_eq!(LDVxI { reg: 3 }.execute(&mut p, 0), Ok(Step::Completed));
    assert_eq!(&p.memory.registers.v[0..5], &[0xA0, 0xA1, 0xA2, 0xA3, 0x00]);
    assert_eq!(p.memory.registers.i, 0x400);
    p.memory.registers.i = 0x500;
    assert_eq!(LDIVx { reg: 2 }.execute(&mut p, 0), Ok(Step::Completed));
    assert_eq!(&p.memory.ram[0x500..0x504], &[0xA0, 0xA1, 0xA2, 0x00]);
    assert_eq!(p.memory.registers.i, 0x500);
    assert_eq!(LDVxI { reg: 0 }.execute(&mut p, 0), Ok(Step::Completed));
    assert_eq!(p.memory.registers.v[0], 0xA0);
}

#[test]
fn bulk_load_and_store_at_the_end_of_memory() {
    let mut p = machine();
    p.memory.registers.i = 4096 - 16;
    assert_eq!(LDVxI { reg: 0xF }.execute(&mut p, 0), Ok(Step::Completed));
    assert_eq!(LDIVx { reg: 0xF }.execute(&mut p, 0), Ok(Step::Completed));
    p.memory.registers.i = 4096 - 15;
    assert_eq!(
        LDVxI { reg: 0xF }.execute(&mut p, 0),
        Err(Fault::OutOfBoundsAccess { address: 4096 })
    );
    assert_eq!(
        LDIVx { reg: 0xF }.execute(&mut p, 0),
        Err(Fault::OutOfBoundsAccess { address: 4096 })
    );
    p.memory.registers.i = 5000;
    assert_eq!(
        LDVxI { reg: 0 }.execute(&mut p, 0),
        Err(Fault::OutOfBoundsAccess { address: 5000 })
    );
}

#[test]
fn jumps() {
    let mut p = machine();
    assert_eq!(JMP { address: 0x345 }.execute(&mut p, 0), Ok(Step::Completed));
    assert_eq!(p.memory.registers.pc, 0x345);
    p.memory.registers.v[0] = 0x10;
    assert_eq!(JPV0Offset { address: 0x400 }.execute(&mut p, 0), Ok(Step::Completed));
    assert_eq!(p.memory.registers.pc, 0x410);
    assert_eq!(JMP { address: 0x1000 }.execute(&mut p, 0), Err(Fault::OperandRange));
    assert_eq!(p.memory.registers.pc, 0x410);
}

#[test]
fn call_and_return() {
    let mut p = machine();
    assert_eq!(CALL { address: 0x300 }.execute(&mut p, 0), Ok(Step::Completed));
    assert_eq!(p.memory.registers.pc, 0x300);
    assert_eq!(p.memory.registers.sp, 0);
    assert_eq!(p.memory.stack[0], 0x202);
    assert_eq!(CALL { address: 0x400 }.execute(&mut p, 0), Ok(Step::Completed));
    assert_eq!(p.memory.registers.sp, 1);
    assert_eq!(p.memory.stack[1], 0x302);
    assert_eq!(RET {}.execute(&mut p, 0), Ok(Step::Completed));
    assert_eq!(p.memory.registers.pc, 0x302);
    assert_eq!(RET {}.execute(&mut p, 0), Ok(Step::Completed));
    assert_eq!(p.memory.registers.pc, 0x202);
    assert_eq!(p.memory.registers.sp, -1);
}

#[test]
fn stack_faults() {
    let mut p = machine();
    assert_eq!(RET {}.execute(&mut p, 0), Err(Fault::StackUnderflow));
    assert_eq!(p.memory.registers.pc, 0x200);
    assert_eq!(p.memory.registers.sp, -1);
    for depth in 0..16 {
        assert_eq!(CALL { address: 0x300 }.execute(&mut p, 0), Ok(Step::Completed));
        assert_eq!(p.memory.registers.sp, depth);
    }
    let stack = p.memory.stack;
    assert_eq!(CALL { address: 0x400 }.execute(&mut p, 0), Err(Fault::StackOverflow));
    assert_eq!(p.memory.registers.sp, 15);
    assert_eq!(p.memory.registers.pc, 0x300);
    assert_eq!(p.memory.stack, stack);
}

#[test]
fn memory_stack_operations() {
    let mut memory = Memory::default();
    assert_eq!(memory.stack_peek(), Err(Fault::StackUnderflow));
    assert_eq!(memory.stack_pop(), Err(Fault::StackUnderflow));
    assert_eq!(memory.stack_push(0x123), Ok(()));
    assert_eq!(memory.stack_push(0x456), Ok(()));
    assert_eq!(memory.registers.sp, 1);
    assert_eq!(memory.stack_peek(), Ok(0x456));
    assert_eq!(memory.registers.sp, 1);
    assert_eq!(memory.stack_pop(), Ok(0x456));
    assert_eq!(memory.stack_pop(), Ok(0x123));
    assert_eq!(memory.registers.sp, -1);
    for k in 0..16 {
        assert_eq!(memory.stack_push(k), Ok(()));
    }
    assert_eq!(memory.stack_push(99), Err(Fault::StackOverflow));
    assert_eq!(memory.stack_peek(), Ok(15));
    memory.registers.sp = 16;
    assert_eq!(memory.stack_peek(), Err(Fault::StackOverflow));
    assert_eq!(memory.stack_pop(), Err(Fault::StackOverflow));
    memory.registers.sp = -2;
    assert_eq!(memory.stack_push(1), Err(Fault::StackUnderflow));
}

#[test]
fn memory_reads() {
    let mut memory = Memory::default();
    assert_eq!(memory.read_u8(0), Ok(0xF0));
    assert_eq!(memory.read_u8(1), Ok(0x90));
    assert_eq!(memory.read_u8(4095), Ok(0));
    assert_eq!(memory.read_u8(4096), Err(Fault::OutOfBoundsAccess { address: 4096 }));
    assert_eq!(memory.read_two_u8(0), Ok((0xF0, 0x90)));
    assert_eq!(memory.read_two_u8(4094), Ok((0, 0)));
    assert_eq!(memory.read_two_u8(4095), Err(Fault::OutOfBoundsAccess { address: 4096 }));
    assert_eq!(memory.read_two_u8(5000), Err(Fault::OutOfBoundsAccess { address: 5000 }));
    assert_eq!(memory.read_u16(0), Ok(0xF090));
    assert_eq!(memory.read_u16(6), Ok(0x2060));
    assert_eq!(memory.read_u16(4095), Err(Fault::OutOfBoundsAccess { address: 4096 }));
}

#[test]
fn loading_an_image() {
    let mut memory = Memory::default();
    assert_eq!(memory.load(&[1, 2, 3], 0x200), Ok(()));
    assert_eq!(&memory.ram[0x1FF..0x204], &[0, 1, 2, 3, 0]);
    assert_eq!(memory.ram[0], 0xF0);
    assert_eq!(memory.load(&[9; 4], 4092), Ok(()));
    assert_eq!(&memory.ram[4092..4096], &[9, 9, 9, 9]);
    let before = memory.ram;
    assert_eq!(memory.load(&[7; 5], 4092), Err(Fault::OutOfBoundsAccess { address: 4096 }));
    assert_eq!(memory.ram, before);
    assert_eq!(memory.load(&[], 4096), Err(Fault::OutOfBoundsAccess { address: 4096 }));
    assert_eq!(memory.load(&[1], 5000), Err(Fault::OutOfBoundsAccess { address: 5000 }));
    assert_eq!(memory.load(&[], 4095), Ok(()));
    assert_eq!(memory.load(&[0xAB; 4096], 0), Ok(()));
    assert!(memory.ram.iter().all(|byte| *byte == 0xAB));
}

#[test]
fn skips() {
    let mut p = machine();
    p.memory.registers.v[1] = 5;
    p.memory.registers.v[2] = 5;
    p.memory.registers.v[3] = 6;
    assert_eq!(SEVxByte { reg: 1, byte: 5 }.execute(&mut p, 0), Ok(Step::Completed));
    assert_eq!(p.memory.registers.pc, 0x202);
    assert_eq!(SEVxByte { reg: 1, byte: 6 }.execute(&mut p, 0), Ok(Step::Completed));
    assert_eq!(p.memory.registers.pc, 0x202);
    assert_eq!(SNEVxByte { reg: 1, byte: 6 }.execute(&mut p, 0), Ok(Step::Completed));
    assert_eq!(p.memory.registers.pc, 0x204);
    assert_eq!(SNEVxByte { reg: 1, byte: 5 }.execute(&mut p, 0), Ok(Step::Completed));
    assert_eq!(p.memory.registers.pc, 0x204);
    assert_eq!(SEVxVy { reg_a: 1, reg_b: 2 }.execute(&mut p, 0), Ok(Step::Completed));
    assert_eq!(p.memory.registers.pc, 0x206);
    assert_eq!(SEVxVy { reg_a: 1, reg_b: 3 }.execute(&mut p, 0), Ok(Step::Completed));
    assert_eq!(p.memory.registers.pc, 0x206);
    assert_eq!(SNEVxVy { reg_a: 1, reg_b: 3 }.execute(&mut p, 0), Ok(Step::Completed));
    assert_eq!(p.memory.registers.pc, 0x208);
    assert_eq!(SNEVxVy { reg_a: 1, reg_b: 2 }.execute(&mut p, 0), Ok(Step::Completed));
    assert_eq!(p.memory.registers.pc, 0x208);
}

#[test]
fn skips_fault_beyond_the_last_instruction_word() {
    let mut p = machine();
    p.memory.registers.pc = 4095;
    assert_eq!(
        SEVxByte { reg: 1, byte: 0 }.execute(&mut p, 0),
        Err(Fault::OutOfBoundsAccess { address: 4095 })
    );
    assert_eq!(
        CALL { address: 0x300 }.execute(&mut p, 0),
        Err(Fault::OutOfBoundsAccess { address: 4095 })
    );
    assert_eq!(p.memory.registers.sp, -1);
    p.memory.registers.pc = 4094;
    assert_eq!(SEVxByte { reg: 1, byte: 0 }.execute(&mut p, 0), Ok(Step::Completed));
    assert_eq!(p.memory.registers.pc, 4096);
}

#[test]
fn key_skips() {
    let mut p = machine();
    p.memory.registers.v[1] = 0xB;
    assert_eq!(SKPKBRDVx { reg: 1 }.execute(&mut p, 0), Ok(Step::Completed));
    assert_eq!(p.memory.registers.pc, 0x200);
    assert_eq!(SKNPBRDVx { reg: 1 }.execute(&mut p, 0), Ok(Step::Completed));
    assert_eq!(p.memory.registers.pc, 0x202);
    p.keyboard.keys[0xB] = true;
    assert_eq!(SKPKBRDVx { reg: 1 }.execute(&mut p, 0), Ok(Step::Completed));
    assert_eq!(p.memory.registers.pc, 0x204);
    assert_eq!(SKNPBRDVx { reg: 1 }.execute(&mut p, 0), Ok(Step::Completed));
    assert_eq!(p.memory.registers.pc, 0x204);
    // a number above 0xF names no key
    p.memory.registers.v[1] = 0x1B;
    assert_eq!(SKPKBRDVx { reg: 1 }.execute(&mut p, 0), Ok(Step::Completed));
    assert_eq!(p.memory.registers.pc, 0x204);
    assert_eq!(SKNPBRDVx { reg: 1 }.execute(&mut p, 0), Ok(Step::Completed));
    assert_eq!(p.memory.registers.pc, 0x206);
}

#[test]
fn waiting_for_a_key() {
    let mut p = machine();
    assert_eq!(LDVxK { reg: 2 }.execute(&mut p, 0), Ok(Step::AwaitingKey));
    assert_eq!(p.memory.registers.v[2], 0);
    assert!(!p.keyboard.press(0x10));
    assert_eq!(p.keyboard.latch, None);
    assert!(p.keyboard.press(0xC));
    assert_eq!(p.keyboard.latch, Some(0xC));
    assert_eq!(LDVxK { reg: 2 }.execute(&mut p, 0), Ok(Step::Completed));
    assert_eq!(p.memory.registers.v[2], 0xC);
    assert_eq!(p.keyboard.latch, None);
    assert_eq!(LDVxK { reg: 2 }.execute(&mut p, 0), Ok(Step::AwaitingKey));
}

#[test]
fn random_is_masked() {
    let mut p = machine();
    assert_eq!(RNDVxByte { reg: 1, byte: 0x0F }.execute(&mut p, 0xAB), Ok(Step::Completed));
    assert_eq!(p.memory.registers.v[1], 0x0B);
    assert_eq!(RNDVxByte { reg: 1, byte: 0xF0 }.execute(&mut p, 0xAB), Ok(Step::Completed));
    assert_eq!(p.memory.registers.v[1], 0xA0);
    assert_eq!(RNDVxByte { reg: 1, byte: 0x00 }.execute(&mut p, 0xFF), Ok(Step::Completed));
    assert_eq!(p.memory.registers.v[1], 0x00);
}

#[test]
fn clear_screen() {
    let mut p = machine();
    p.display.screen[0] = true;
    p.display.screen[2047] = true;
    p.display.screen[777] = true;
    assert_eq!(CLS {}.execute(&mut p, 0), Ok(Step::Completed));
    assert!(p.display.screen.iter().all(|pixel| !*pixel));
}

#[test]
fn what_cannot_run_faults() {
    let mut p = machine();
    assert_eq!(
        InvalidOpcode { opcode: (0x01, 0x23) }.execute(&mut p, 0),
        Err(Fault::InvalidOpcode { opcode: (0x01, 0x23) })
    );
    assert_eq!(
        JmpLabel { name: String::from("a") }.execute(&mut p, 0),
        Err(Fault::UnresolvedSymbol)
    );
    assert_eq!(
        CallLabel { name: String::from("a") }.execute(&mut p, 0),
        Err(Fault::UnresolvedSymbol)
    );
    assert_eq!(LDVxByte { reg: 16, byte: 1 }.execute(&mut p, 0), Err(Fault::OperandRange));
    assert_eq!(ADDVxVy { reg_a: 1, reg_b: 16 }.execute(&mut p, 0), Err(Fault::OperandRange));
    assert_eq!(
        Instruction::LDVxK(LDVxK { reg: 200 }).execute(&mut p, 0),
        Err(Fault::OperandRange)
    );
    assert_eq!(p.memory.registers.v, [0u8; 16]);
    assert_eq!(p.memory.registers.pc, 0x200);
}

#[test]
fn sprite_is_unpacked_most_significant_bit_first() {
    let mut p = machine();
    p.memory.registers.i = 0x300;
    p.memory.ram[0x300] = 0b1010_0001;
    p.memory.ram[0x301] = 0b0000_1111;
    let sprite = DRW { reg_x: 0, reg_y: 0, size: 2 }.ld_sprite(&p).unwrap();
    assert_eq!(
        sprite,
        vec![
            true, false, true, false, false, false, false, true, false, false, false, false,
            true, true, true, true
        ]
    );
    assert_eq!(DRW { reg_x: 0, reg_y: 0, size: 0 }.ld_sprite(&p), Ok(vec![]));
    p.memory.registers.i = 4095;
    assert_eq!(
        DRW { reg_x: 0, reg_y: 0, size: 2 }.ld_sprite(&p),
        Err(Fault::OutOfBoundsAccess { address: 4096 })
    );
    assert_eq!(DRW { reg_x: 0, reg_y: 0, size: 1 }.ld_sprite(&p).unwrap().len(), 8);
}

#[test]
fn drawing_twice_erases() {
    let mut p = machine();
    p.memory.registers.v[1] = 10;
    p.memory.registers.v[2] = 5;
    p.memory.registers.v[3] = 0;
    assert_eq!(LDFVx { reg: 3 }.execute(&mut p, 0), Ok(Step::Completed));
    let draw = DRW { reg_x: 1, reg_y: 2, size: 5 };
    assert_eq!(draw.execute(&mut p, 0), Ok(Step::Completed));
    assert_eq!(p.memory.registers.v[0xF], 0);
    // glyph 0 is F0 90 90 90 F0
    let rows: [u8; 5] = [0xF0, 0x90, 0x90, 0x90, 0xF0];
    for y in 0..32 {
        for x in 0..64 {
            let lit = (5..10).contains(&y)
                && (10..18).contains(&x)
                && rows[y - 5] & (0x80 >> (x - 10)) != 0;
            assert_eq!(p.display.screen[y * 64 + x], lit, "pixel {} {}", x, y);
        }
    }
    assert_eq!(draw.execute(&mut p, 0), Ok(Step::Completed));
    assert_eq!(p.memory.registers.v[0xF], 1);
    assert!(p.display.screen.iter().all(|pixel| !*pixel));
}

#[test]
fn drawing_an_empty_sprite_never_collides() {
    let mut p = machine();
    p.memory.registers.i = 0x300;
    let draw = DRW { reg_x: 1, reg_y: 2, size: 4 };
    p.memory.registers.v[0xF] = 1;
    assert_eq!(draw.execute(&mut p, 0), Ok(Step::Completed));
    assert_eq!(p.memory.registers.v[0xF], 0);
    assert_eq!(draw.execute(&mut p, 0), Ok(Step::Completed));
    assert_eq!(p.memory.registers.v[0xF], 0);
    let none = DRW { reg_x: 1, reg_y: 2, size: 0 };
    p.memory.ram[0x300] = 0xFF;
    assert_eq!(none.execute(&mut p, 0), Ok(Step::Completed));
    assert_eq!(none.execute(&mut p, 0), Ok(Step::Completed));
    assert_eq!(p.memory.registers.v[0xF], 0);
    assert!(p.display.screen.iter().all(|pixel| !*pixel));
}

#[test]
fn drawing_wraps_around_the_edges() {
    let mut p = machine();
    p.memory.registers.i = 0x300;
    p.memory.ram[0x300] = 0xFF;
    p.memory.ram[0x301] = 0x81;
    p.memory.registers.v[1] = 60;
    p.memory.registers.v[2] = 31;
    assert_eq!(DRW { reg_x: 1, reg_y: 2, size: 2 }.execute(&mut p, 0), Ok(Step::Completed));
    let mut expected = [false; 2048];
    for x in [60, 61, 62, 63, 0, 1, 2, 3] {
        expected[31 * 64 + x] = true;
    }
    expected[60] = true;
    expected[3] = true;
    assert_eq!(p.display.screen, expected);
    assert_eq!(p.memory.registers.v[0xF], 0);
    // coordinates beyond the screen wrap as well
    let mut q = machine();
    q.memory.registers.i = 0x300;
    q.memory.ram[0x300] = 0xFF;
    q.memory.ram[0x301] = 0x81;
    q.memory.registers.v[1] = 60 + 64;
    q.memory.registers.v[2] = 31 + 32 * 3;
    assert_eq!(DRW { reg_x: 1, reg_y: 2, size: 2 }.execute(&mut q, 0), Ok(Step::Completed));
    assert_eq!(q.display.screen, expected);
}

#[test]
fn drawing_reports_collisions() {
    let mut p = machine();
    p.memory.registers.i = 0x300;
    p.memory.ram[0x300] = 0b1100_0000;
    p.display.screen[1] = true;
    p.display.screen[2] = true;
    assert_eq!(DRW { reg_x: 0, reg_y: 0, size: 1 }.execute(&mut p, 0), Ok(Step::Completed));
    assert_eq!(&p.display.screen[0..4], &[true, false, true, false]);
    assert_eq!(p.memory.registers.v[0xF], 1);
    // lit pixels beside the sprite do not collide
    let mut q = machine();
    q.memory.registers.i = 0x300;
    q.memory.ram[0x300] = 0b1000_0000;
    q.display.screen[1] = true;
    q.memory.registers.v[0xF] = 1;
    assert_eq!(DRW { reg_x: 0, reg_y: 0, size: 1 }.execute(&mut q, 0), Ok(Step::Completed));
    assert_eq!(&q.display.screen[0..4], &[true, true, false, false]);
    assert_eq!(q.memory.registers.v[0xF], 0);
}

#[test]
fn drawing_faults_on_a_sprite_outside_memory() {
    let mut p = machine();
    p.memory.registers.i = 4090;
    p.display.screen[0] = true;
    p.memory.registers.v[0xF] = 3;
    assert_eq!(
        DRW { reg_x: 0, reg_y: 0, size: 7 }.execute(&mut p, 0),
        Err(Fault::OutOfBoundsAccess { address: 4096 })
    );
    assert_eq!(p.memory.registers.v[0xF], 3);
    assert!(p.display.screen[0]);
    assert_eq!(DRW { reg_x: 0, reg_y: 0, size: 6 }.execute(&mut p, 0), Ok(Step::Completed));
    assert_eq!(
        DRW { reg_x: 0, reg_y: 0, size: 16 }.execute(&mut p, 0),
        Err(Fault::OperandRange)
    );
}
