use nes_core::bus::Memory;
use nes_core::cpu::{classify, Family, StepOutcome, CPU};

#[test]
fn every_opcode_classifies_into_exactly_one_family() {
    for op in 0..=255u8 {
        let family = classify(op);
        let jump = op & 0xDF == 0x4C;
        let special = op & 0x9F == 0x00;
        let branch = op & 0x1F == 0x10;
        let implied = op & 0x1F == 0x08;
        // the four masks are mutually exclusive
        let matches = [jump, special, branch, implied];
        assert!(matches.iter().filter(|m| **m).count() <= 1, "opcode {op:#x}");
        let expected = if jump {
            Family::Jump
        } else if special {
            Family::Special
        } else if branch {
            Family::Branch
        } else if implied {
            Family::Implied
        } else {
            Family::Common
        };
        assert_eq!(family, expected, "opcode {op:#x}");
    }
}

#[test]
fn every_opcode_executes_to_some_outcome() {
    for op in 0..=255u8 {
        let mut memory = Memory::new();
        memory.write(0x0200, op);
        let mut cpu = CPU::new();
        cpu.pc = 0x0200;
        let outcome = cpu.execute(&mut memory);
        match outcome {
            StepOutcome::Executed => {}
            StepOutcome::Illegal(o) | StepOutcome::Unimplemented(o) => {
                assert_eq!(o, op);
                // a step that reports failure mutates nothing
                assert_eq!(cpu.pc, 0x0200, "opcode {op:#x}");
                assert_eq!(cpu, CPU { pc: 0x0200, ..CPU::new() }, "opcode {op:#x}");
            }
        }
    }
}

#[test]
fn brk_and_rti_report_unimplemented() {
    for op in [0x00u8, 0x40u8] {
        let mut memory = Memory::new();
        memory.write(0x0000, op);
        let mut cpu = CPU::new();
        let outcome = cpu.execute(&mut memory);
        assert_eq!(outcome, StepOutcome::Unimplemented(op));
        assert_eq!(cpu.pc, 0);
    }
}

#[test]
fn unassigned_common_slot_reports_illegal() {
    let mut memory = Memory::new();
    memory.write(0x0000, 0x03);
    let mut cpu = CPU::new();
    cpu.a = 7;
    let outcome = cpu.execute(&mut memory);
    assert_eq!(outcome, StepOutcome::Illegal(0x03));
    assert_eq!(cpu.pc, 0);
    assert_eq!(cpu.a, 7);
}

#[test]
fn assigned_common_slot_reports_unimplemented() {
    // lda immediate: assigned in the common table, not yet implemented
    let mut memory = Memory::new();
    memory.write(0x0000, 0xA9);
    memory.write(0x0001, 0x55);
    let mut cpu = CPU::new();
    let outcome = cpu.execute(&mut memory);
    assert_eq!(outcome, StepOutcome::Unimplemented(0xA9));
    assert_eq!(cpu.a, 0);
    assert_eq!(cpu.pc, 0);
}

#[test]
fn load_word_reads_little_endian() {
    let mut memory = Memory::new();
    memory.write(0x0300, 0xCD);
    memory.write(0x0301, 0xAB);
    assert_eq!(nes_core::cpu::load_word(&memory, 0x0300), 0xABCD);
}

#[test]
fn write_word_stores_high_byte_at_the_address() {
    let mut memory = Memory::new();
    nes_core::cpu::write_word(&mut memory, 0x0300, 0xABCD);
    assert_eq!(memory.ram[0x0300], 0xAB);
    assert_eq!(memory.ram[0x0301], 0xCD);
}
