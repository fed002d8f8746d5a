use emu6502::cpu::processor::{LoadError, Processor};
use emu6502::cpu::semantics::StepOutcome;

#[test]
fn end_to_end_lda_immediate() {
    let mut processor = Processor::new();
    assert_eq!(processor.interpret(vec![0xa9, 0xc0, 0x00]), Ok(()));
    assert_eq!(processor.a, 0xc0);
    assert_eq!(processor.status & 0b0000_0010, 0);
    assert_eq!(processor.status & 0b1000_0000, 0b1000_0000);
    assert_eq!(processor.pc, 0x8003);
}

#[test]
fn end_to_end_inx_twice() {
    let mut processor = Processor::new();
    assert_eq!(processor.interpret(vec![0xa2, 0xfe, 0xe8, 0xe8, 0x00]), Ok(()));
    assert_eq!(processor.x, 0x00);
    assert_eq!(processor.status & 0b0000_0010, 0b0000_0010);
    assert_eq!(processor.pc, 0x8005);
}

#[test]
fn end_to_end_lda_zero_page_x() {
    let mut processor = Processor::new();
    processor.memory[0x45] = 0x69;
    assert_eq!(processor.interpret(vec![0xa2, 0x45, 0xb5, 0x00, 0x00]), Ok(()));
    assert_eq!(processor.a, 0x69);
    assert_eq!(processor.x, 0x45);
    assert_eq!(processor.pc, 0x8005);
}

#[test]
fn end_to_end_adc_carry() {
    let mut processor = Processor::new();
    processor.start_exec(&[0xa9, 0xff, 0x69, 0x01, 0x00]).unwrap();
    assert_eq!(processor.a, 0x00);
    assert_eq!(processor.status & 0b0000_0001, 0b0000_0001);
    assert_eq!(processor.status & 0b0000_0010, 0b0000_0010);
    assert_eq!(processor.status & 0b1000_0000, 0);
}

#[test]
fn end_to_end_zero_page_x_wraps() {
    let mut processor = Processor::new();
    processor.memory[0x0001] = 0x5a;
    processor.memory[0x0101] = 0xa5;
    processor.start_exec(&[0xa2, 0x02, 0xb5, 0xff, 0x00]).unwrap();
    assert_eq!(processor.a, 0x5a);
}

#[test]
fn end_to_end_tax() {
    let mut processor = Processor::new();
    processor.start_exec(&[0xa9, 0x80, 0xaa, 0x00]).unwrap();
    assert_eq!(processor.a, 0x80);
    assert_eq!(processor.x, 0x80);
    assert_eq!(processor.status, 0b1000_0000);
}

#[test]
fn operand_bytes_are_not_fetched_as_opcodes() {
    // LDA #$e8 must not run the operand as INX; ADC $c8aa must not run
    // its operand as INY, TAX.
    let mut processor = Processor::new();
    processor.memory[0xc8aa] = 0x03;
    processor.start_exec(&[0xa9, 0xe8, 0x6d, 0xaa, 0xc8, 0x00]).unwrap();
    assert_eq!(processor.a, 0xeb);
    assert_eq!(processor.x, 0x00);
    assert_eq!(processor.y, 0x00);
    assert_eq!(processor.pc, 0x8006);
}

#[test]
fn adc_opcodes_resolve_their_modes() {
    let mut processor = Processor::new();
    processor.memory[0x0010] = 1;
    processor.memory[0x0012] = 2;
    processor.memory[0x2000] = 4;
    processor.memory[0x2002] = 8;
    processor.memory[0x2003] = 16;
    processor.memory[0x0042] = 0x00;
    processor.memory[0x0043] = 0x30;
    processor.memory[0x3000] = 32;
    processor.memory[0x3003] = 64;
    let program = [
        0xa2, 0x02, // LDX #$02
        0xa0, 0x03, // LDY #$03
        0x69, 0x80, // ADC #$80
        0x65, 0x10, // ADC $10
        0x75, 0x10, // ADC $10,X
        0x6d, 0x00, 0x20, // ADC $2000
        0x7d, 0x00, 0x20, // ADC $2000,X
        0x79, 0x00, 0x20, // ADC $2000,Y
        0x61, 0x40, // ADC ($40,X)
        0x71, 0x42, // ADC ($42),Y
        0x00,
    ];
    processor.start_exec(&program).unwrap();
    assert_eq!(processor.a, 0xff);
    assert_eq!(processor.status, 0b1000_0000);
    assert_eq!(processor.pc, 0x8000 + 24);
}

#[test]
fn start_exec_refuses_a_program_that_is_too_large() {
    let mut processor = Processor::new();
    processor.a = 0x12;
    processor.pc = 0x0200;
    let program = vec![0x00; 0x8001];
    assert_eq!(processor.start_exec(&program), Err(LoadError::ProgramTooLarge));
    assert_eq!(processor.interpret(program), Err(LoadError::ProgramTooLarge));
    assert_eq!(processor.a, 0x12);
    assert_eq!(processor.pc, 0x0200);
    assert_eq!(processor.memory[0xfffd], 0x00);
}

#[test]
fn halt_changes_only_the_program_counter() {
    let mut processor = Processor::new();
    processor.a = 0x11;
    processor.x = 0x22;
    processor.y = 0x33;
    processor.status = 0b0100_0101;
    processor.sp = 0x44;
    processor.pc = 0x0600;
    processor.memory[0x0600] = 0x00;
    processor.memory[0x0601] = 0xa9;
    processor.run_program();
    assert_eq!(processor.a, 0x11);
    assert_eq!(processor.x, 0x22);
    assert_eq!(processor.y, 0x33);
    assert_eq!(processor.status, 0b0100_0101);
    assert_eq!(processor.sp, 0x44);
    assert_eq!(processor.pc, 0x0601);
    assert_eq!(processor.memory[0x0600], 0x00);
    assert_eq!(processor.memory[0x0601], 0xa9);
}

#[test]
fn run_program_starts_at_the_program_counter() {
    let mut processor = Processor::new();
    processor.memory[0x0300] = 0xc8; // INY
    processor.memory[0x0301] = 0xc8; // INY
    processor.memory[0x0302] = 0x00;
    processor.pc = 0x0301;
    processor.run_program();
    assert_eq!(processor.y, 1);
    assert_eq!(processor.pc, 0x0303);
}

#[test]
fn unknown_opcode_is_passed_over() {
    let mut processor = Processor::new();
    processor.start_exec(&[0xea, 0xa9, 0x07, 0xff, 0xe8, 0x00]).unwrap();
    assert_eq!(processor.a, 0x07);
    assert_eq!(processor.x, 0x01);
    assert_eq!(processor.pc, 0x8006);
}

#[test]
fn step_reports_what_happened() {
    let mut processor = Processor::new();
    processor.load_program(&[0xa9, 0x05, 0xea, 0x6d, 0x00, 0x80, 0x00]).unwrap();
    processor.reset();
    assert_eq!(processor.step(), StepOutcome::Executed(false));
    assert_eq!(processor.a, 0x05);
    assert_eq!(processor.pc, 0x8002);
    assert_eq!(processor.step(), StepOutcome::UnknownOpcode(0xea));
    assert_eq!(processor.a, 0x05);
    assert_eq!(processor.pc, 0x8003);
    assert_eq!(processor.step(), StepOutcome::Executed(false));
    assert_eq!(processor.a, 0x05 + 0xa9);
    assert_eq!(processor.pc, 0x8006);
    assert_eq!(processor.step(), StepOutcome::Halted);
    assert_eq!(processor.a, 0x05 + 0xa9);
    assert_eq!(processor.pc, 0x8007);
}

#[test]
fn step_wraps_the_program_counter() {
    let mut processor = Processor::new();
    processor.memory[0xffff] = 0xa9; // LDA #$3c, operand at 0x0000
    processor.memory[0x0000] = 0x3c;
    processor.pc = 0xffff;
    assert_eq!(processor.step(), StepOutcome::Executed(false));
    assert_eq!(processor.a, 0x3c);
    assert_eq!(processor.pc, 0x0001);
}

#[test]
fn step_reads_a_word_operand_across_the_top() {
    let mut processor = Processor::new();
    processor.memory[0xfffe] = 0x6d; // ADC $1234, operand at 0xffff and 0x0000
    processor.memory[0xffff] = 0x34;
    processor.memory[0x0000] = 0x12;
    processor.memory[0x1234] = 0x09;
    processor.pc = 0xfffe;
    assert_eq!(processor.step(), StepOutcome::Executed(false));
    assert_eq!(processor.a, 0x09);
    assert_eq!(processor.pc, 0x0001);
}

#[test]
fn will_halt_on_a_program_with_brk() {
    let mut processor = Processor::new();
    processor.load_program(&[0xa9, 0x01, 0xe8, 0x00]).unwrap();
    processor.reset();
    assert!(processor.will_halt());
    assert_eq!(processor.a, 0);
    assert_eq!(processor.pc, 0x8000);
}

#[test]
fn will_halt_is_false_without_a_reachable_brk() {
    let mut processor = Processor::new();
    processor.memory = [0xea; 65536];
    assert!(!processor.will_halt());
}

#[test]
fn will_halt_sees_operands_skipped() {
    // Every opcode is LDA #imm but for one byte, and that byte is zero:
    // started on an even address it is always an operand, and from an odd
    // address it is fetched as the halt opcode.
    let mut processor = Processor::new();
    processor.memory = [0xa9; 65536];
    processor.memory[0x0101] = 0x00;
    processor.pc = 0x0000;
    assert!(!processor.will_halt());
    processor.pc = 0x0001;
    assert!(processor.will_halt());
}

#[test]
fn will_halt_follows_the_counter_around_the_top() {
    let mut processor = Processor::new();
    processor.memory = [0xea; 65536];
    processor.memory[0x0010] = 0x00;
    processor.pc = 0x0011;
    assert!(processor.will_halt());
}

#[test]
fn run_if_halting_runs_a_halting_program() {
    let mut processor = Processor::new();
    processor.load_program(&[0xa0, 0x7f, 0xc8, 0x00]).unwrap();
    processor.reset();
    assert!(processor.run_if_halting());
    assert_eq!(processor.y, 0x80);
    assert_eq!(processor.status, 0b1000_0000);
    assert_eq!(processor.pc, 0x8004);
}

#[test]
fn run_if_halting_leaves_a_runaway_program_alone() {
    let mut processor = Processor::new();
    processor.memory = [0xe8; 65536]; // INX everywhere
    processor.pc = 0x1234;
    processor.x = 0x05;
    assert!(!processor.run_if_halting());
    assert_eq!(processor.x, 0x05);
    assert_eq!(processor.pc, 0x1234);
    assert_eq!(processor.status, 0);
    assert!(processor.memory.iter().all(|byte| *byte == 0xe8));
}
