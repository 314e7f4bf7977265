use emul8::internals::display::Display;
use emul8::internals::fault::{Fault, Step};
use emul8::internals::keyboard::Keyboard;
use emul8::internals::opcode::{Instruction, InvalidOpcode, LDVxByte, JMP};
use emul8::internals::processor::Processor;

fn loaded(program: &[u8]) -> Processor {
    let mut processor = Processor::new();
    processor.memory.load(program, 0x200).unwrap();
    processor.memory.registers.pc = 0x200;
    processor
}

#[test]
fn new_processor_is_blank() {
    let processor = Processor::new();
    assert_eq!(processor.memory.registers.pc, 0);
    assert_eq!(processor.memory.registers.sp, -1);
    assert_eq!(&processor.memory.ram[0..5], &[0xF0, 0x90, 0x90, 0x90, 0xF0]);
    assert_eq!(processor.display.screen, [false; 2048]);
    assert_eq!(processor.keyboard.keys, [false; 16]);
    assert_eq!(processor.keyboard.latch, None);
    assert_eq!(Display::new().screen, [false; 2048]);
    assert_eq!(Keyboard::default().keys, [false; 16]);
}

#[test]
fn fetch_and_decode() {
    let mut p = loaded(&[0x61, 0x2A, 0x12, 0x00]);
    assert_eq!(p.fetch_opcode(), Ok((0x61, 0x2A)));
    assert_eq!(p.memory.registers.pc, 0x200);
    assert_eq!(
        p.decode_opcode((0x61, 0x2A)),
        Instruction::LDVxByte(LDVxByte { reg: 1, byte: 0x2A })
    );
    assert_eq!(p.peek(0x202), Ok(Instruction::JMP(JMP { address: 0x200 })));
    assert_eq!(p.peek(4094), Ok(Instruction::Invalid(InvalidOpcode { opcode: (0, 0) })));
    assert_eq!(p.peek(4095), Err(Fault::OutOfBoundsAccess { address: 4096 }));
    assert_eq!(p.peek(0xFFFF), Err(Fault::OutOfBoundsAccess { address: 0xFFFF }));
    assert_eq!(p.memory.registers.pc, 0x200);
    p.memory.registers.pc = 4095;
    assert_eq!(p.fetch_opcode(), Err(Fault::OutOfBoundsAccess { address: 4096 }));
}

#[test]
fn tick_advances_after_plain_instructions() {
    let mut p = loaded(&[0x61, 0x2A, 0x71, 0x01]);
    assert_eq!(p.tick(true), Ok(Step::Completed));
    assert_eq!(p.memory.registers.pc, 0x202);
    assert_eq!(p.memory.registers.v[1], 0x2A);
    assert_eq!(p.tick(true), Ok(Step::Completed));
    assert_eq!(p.memory.registers.pc, 0x204);
    assert_eq!(p.memory.registers.v[1], 0x2B);
}

#[test]
fn tick_leaves_the_program_counter_to_control_transfers() {
    // 0x200: CALL 0x206; 0x202: JMP 0x200; 0x206: RET
    let mut p = loaded(&[0x22, 0x06, 0x12, 0x00, 0x00, 0x00, 0x00, 0xEE]);
    assert_eq!(p.tick(true), Ok(Step::Completed));
    assert_eq!(p.memory.registers.pc, 0x206);
    assert_eq!(p.memory.stack[0], 0x202);
    assert_eq!(p.tick(true), Ok(Step::Completed));
    assert_eq!(p.memory.registers.pc, 0x202);
    assert_eq!(p.memory.registers.sp, -1);
    assert_eq!(p.tick(true), Ok(Step::Completed));
    assert_eq!(p.memory.registers.pc, 0x200);
}

#[test]
fn tick_skips_the_next_instruction() {
    // SE V1, 0x00 ; LD V2, 0x11 ; LD V3, 0x22
    let mut p = loaded(&[0x31, 0x00, 0x62, 0x11, 0x63, 0x22]);
    assert_eq!(p.tick(true), Ok(Step::Completed));
    assert_eq!(p.memory.registers.pc, 0x204);
    assert_eq!(p.tick(true), Ok(Step::Completed));
    assert_eq!(p.memory.registers.v[2], 0);
    assert_eq!(p.memory.registers.v[3], 0x22);
    // SNE V1, 0x00 does not skip
    let mut q = loaded(&[0x41, 0x00, 0x62, 0x11]);
    assert_eq!(q.tick(true), Ok(Step::Completed));
    assert_eq!(q.memory.registers.pc, 0x202);
}

#[test]
fn strict_tick_stops_at_undecodable_bytes() {
    let mut p = loaded(&[0x01, 0x23, 0x61, 0x05]);
    assert_eq!(p.tick(true), Err(Fault::InvalidOpcode { opcode: (0x01, 0x23) }));
    assert_eq!(p.memory.registers.pc, 0x200);
    assert_eq!(p.step(), Err(Fault::InvalidOpcode { opcode: (0x01, 0x23) }));
    assert_eq!(p.tick(false), Ok(Step::Completed));
    assert_eq!(p.memory.registers.pc, 0x202);
    assert_eq!(p.tick(false), Ok(Step::Completed));
    assert_eq!(p.memory.registers.v[1], 5);
}

#[test]
fn tick_halts_beyond_the_last_instruction_word() {
    let mut p = Processor::new();
    p.memory.registers.pc = 4094;
    assert_eq!(p.tick(false), Ok(Step::Completed));
    assert_eq!(p.memory.registers.pc, 4096);
    assert_eq!(p.tick(false), Err(Fault::OutOfBoundsAccess { address: 4096 }));
    assert_eq!(p.memory.registers.pc, 4096);
    p.memory.registers.pc = 4095;
    assert_eq!(p.tick(true), Err(Fault::OutOfBoundsAccess { address: 4096 }));
    p.memory.registers.pc = 0xFFFF;
    assert_eq!(p.tick_with(true, 0), Err(Fault::OutOfBoundsAccess { address: 0xFFFF }));
}

#[test]
fn tick_waits_for_a_key() {
    // LD V4, K ; LD V1, 0x01
    let mut p = loaded(&[0xF4, 0x0A, 0x61, 0x01]);
    assert_eq!(p.tick(true), Ok(Step::AwaitingKey));
    assert_eq!(p.memory.registers.pc, 0x200);
    assert_eq!(p.tick(true), Ok(Step::AwaitingKey));
    assert!(p.keyboard.press(0x7));
    assert_eq!(p.tick(true), Ok(Step::Completed));
    assert_eq!(p.memory.registers.v[4], 0x7);
    assert_eq!(p.memory.registers.pc, 0x202);
    assert_eq!(p.keyboard.latch, None);
}

#[test]
fn tick_with_uses_the_given_random_byte() {
    // RND V1, 0x0F
    let mut p = loaded(&[0xC1, 0x0F]);
    assert_eq!(p.tick_with(true, 0xA5), Ok(Step::Completed));
    assert_eq!(p.memory.registers.v[1], 0x05);
    assert_eq!(p.memory.registers.pc, 0x202);
}

#[test]
fn tick_draws_random_bytes_within_the_mask() {
    let mut seen = [false; 4];
    for _ in 0..400 {
        // RND V1, 0x03
        let mut p = loaded(&[0xC1, 0x03]);
        p.memory.registers.v[1] = 0xFF;
        assert_eq!(p.tick(true), Ok(Step::Completed));
        assert!(p.memory.registers.v[1] <= 3);
        seen[p.memory.registers.v[1] as usize] = true;
    }
    // four values, a hundred draws each on average: a generator that is
    // stuck on one value would show here
    assert!(seen.iter().filter(|hit| **hit).count() >= 2);
}

#[test]
fn tick_reports_execution_faults() {
    // RET on an empty stack
    let mut p = loaded(&[0x00, 0xEE]);
    assert_eq!(p.tick(true), Err(Fault::StackUnderflow));
    assert_eq!(p.memory.registers.pc, 0x200);
    // LD F, V1 with V1 above 0xF
    let mut q = loaded(&[0xF1, 0x29]);
    q.memory.registers.v[1] = 0x33;
    assert_eq!(q.tick(true), Err(Fault::OperandRange));
    assert_eq!(q.memory.registers.pc, 0x200);
}

#[test]
fn advance_runs_a_given_instruction() {
    let mut p = loaded(&[]);
    let load = Instruction::LDVxByte(LDVxByte { reg: 2, byte: 9 });
    assert_eq!(p.advance(&load, true, 0), Ok(Step::Completed));
    assert_eq!(p.memory.registers.pc, 0x202);
    assert_eq!(p.memory.registers.v[2], 9);
    let jump = Instruction::JMP(JMP { address: 0x400 });
    assert_eq!(p.advance(&jump, true, 0), Ok(Step::Completed));
    assert_eq!(p.memory.registers.pc, 0x400);
    let invalid = Instruction::Invalid(InvalidOpcode { opcode: (0, 1) });
    assert_eq!(p.advance(&invalid, true, 0), Err(Fault::InvalidOpcode { opcode: (0, 1) }));
    assert_eq!(p.memory.registers.pc, 0x400);
    assert_eq!(p.advance(&invalid, false, 0), Ok(Step::Completed));
    assert_eq!(p.memory.registers.pc, 0x402);
}

#[test]
fn disassemble_tick_walks_through_the_program() {
    let mut p = loaded(&[0x61, 0x2A, 0x12, 0x00]);
    assert_eq!(
        p.disassemble_tick(),
        Ok(Some(Instruction::LDVxByte(LDVxByte { reg: 1, byte: 0x2A })))
    );
    assert_eq!(p.memory.registers.pc, 0x202);
    assert_eq!(p.memory.registers.v[1], 0);
    assert_eq!(p.disassemble_tick(), Ok(Some(Instruction::JMP(JMP { address: 0x200 }))));
    assert_eq!(p.disassemble_tick(), Ok(None));
    assert_eq!(p.memory.registers.pc, 0x206);
    p.memory.registers.pc = 4095;
    assert_eq!(p.disassemble_tick(), Err(Fault::OutOfBoundsAccess { address: 4096 }));
    assert_eq!(p.memory.registers.pc, 4095);
}

#[test]
fn a_small_program_runs() {
    // V0 = 3; loop: V1 += V0 twice, then SE V1, 6 skips the jump back
    // 0x200 LD V0, 3
    // 0x202 ADD V1, V0
    // 0x204 SE V1, 6
    // 0x206 JMP 0x202
    // 0x208 LD V2, 0xEE
    let mut p = loaded(&[0x60, 0x03, 0x81, 0x04, 0x31, 0x06, 0x12, 0x02, 0x62, 0xEE]);
    let mut ticks = 0;
    while p.memory.registers.v[2] != 0xEE {
        assert_eq!(p.tick(true), Ok(Step::Completed));
        ticks += 1;
        assert!(ticks < 100);
    }
    assert_eq!(ticks, 7);
    assert_eq!(p.memory.registers.v[1], 6);
    assert_eq!(p.memory.registers.pc, 0x20A);
}
