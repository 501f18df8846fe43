use nes_core::bus::Memory;
use nes_core::cpu::{StepOutcome, CPU};

#[test]
fn push_writes_at_pointer_then_moves_down() {
    let mut memory = Memory::new();
    let mut cpu = CPU::new();
    cpu.push(&mut memory, 0x42);
    assert_eq!(memory.ram[0x01FF], 0x42);
    assert_eq!(cpu.sp, 0xFE);
}

#[test]
fn pop_moves_up_then_reads() {
    let mut memory = Memory::new();
    let mut cpu = CPU::new();
    cpu.sp = 0xFE;
    memory.write(0x01FF, 0x99);
    let byte = cpu.pop(&memory);
    assert_eq!(byte, 0x99);
    assert_eq!(cpu.sp, 0xFF);
}

#[test]
fn push_word_then_pop_word_roundtrips() {
    let mut memory = Memory::new();
    let mut cpu = CPU::new();
    cpu.push_word(&mut memory, 0xABCD);
    assert_eq!(cpu.sp, 0xFD);
    let word = cpu.pop_word(&memory);
    assert_eq!(word, 0xABCD);
    assert_eq!(cpu.sp, 0xFF);
}

#[test]
fn push_word_roundtrips_with_wrapping_pointer() {
    let mut memory = Memory::new();
    let mut cpu = CPU::new();
    cpu.sp = 0x00; // the pair wraps through the bottom of the page
    cpu.push_word(&mut memory, 0x1234);
    assert_eq!(cpu.sp, 0xFE);
    let word = cpu.pop_word(&memory);
    assert_eq!(word, 0x1234);
    assert_eq!(cpu.sp, 0x00);
}

#[test]
fn push_word_stores_high_byte_first() {
    let mut memory = Memory::new();
    let mut cpu = CPU::new();
    cpu.push_word(&mut memory, 0xBEEF);
    assert_eq!(memory.ram[0x01FF], 0xBE);
    assert_eq!(memory.ram[0x01FE], 0xEF);
}

#[test]
fn jsr_redirects_and_pushes_return_address() {
    let mut memory = Memory::new();
    // jsr $0600 at P = 0x1234
    memory.write(0x1234, 0x20);
    memory.write(0x1235, 0x00);
    memory.write(0x1236, 0x06);
    let mut cpu = CPU::new();
    cpu.pc = 0x1234;
    let outcome = cpu.execute(&mut memory);
    assert_eq!(outcome, StepOutcome::Executed);
    assert_eq!(cpu.pc, 0x0600);
    assert_eq!(cpu.sp, 0xFD);
    // the two bytes pushed decode back to P + 2
    let pushed = (memory.ram[0x01FF] as u16) << 8 | memory.ram[0x01FE] as u16;
    assert_eq!(pushed, 0x1236);
}

#[test]
fn rts_resumes_one_past_the_pushed_address() {
    let mut memory = Memory::new();
    memory.write(0x1234, 0x20);
    memory.write(0x1235, 0x00);
    memory.write(0x1236, 0x06);
    memory.write(0x0600, 0x60); // rts
    let mut cpu = CPU::new();
    cpu.pc = 0x1234;
    cpu.execute(&mut memory);
    let outcome = cpu.execute(&mut memory);
    assert_eq!(outcome, StepOutcome::Executed);
    assert_eq!(cpu.pc, 0x1237);
    assert_eq!(cpu.sp, 0xFF);
}

#[test]
fn jmp_absolute_redirects() {
    let mut memory = Memory::new();
    memory.write(0x0000, 0x4C);
    memory.write(0x0001, 0xCD);
    memory.write(0x0002, 0xAB);
    let mut cpu = CPU::new();
    let outcome = cpu.execute(&mut memory);
    assert_eq!(outcome, StepOutcome::Executed);
    assert_eq!(cpu.pc, 0xABCD);
}

#[test]
fn jmp_indirect_dereferences_the_operand() {
    let mut memory = Memory::new();
    memory.write(0x0000, 0x6C);
    memory.write(0x0001, 0x00);
    memory.write(0x0002, 0x10); // pointer at 0x1000
    memory.write(0x1000, 0x34);
    memory.write(0x1001, 0x12); // real target 0x1234
    let mut cpu = CPU::new();
    cpu.execute(&mut memory);
    assert_eq!(cpu.pc, 0x1234);
}

#[test]
fn branch_taken_adds_displacement_past_the_instruction() {
    let mut memory = Memory::new();
    memory.write(0x0100, 0xD0); // bne
    memory.write(0x0101, 0x03);
    let mut cpu = CPU::new();
    cpu.pc = 0x0100;
    cpu.flags = 0; // zero clear: taken
    cpu.execute(&mut memory);
    assert_eq!(cpu.pc, 0x0105);
}

#[test]
fn branch_not_taken_falls_through() {
    let mut memory = Memory::new();
    memory.write(0x0100, 0xD0); // bne
    memory.write(0x0101, 0x03);
    let mut cpu = CPU::new();
    cpu.pc = 0x0100;
    cpu.flags = 0x02; // zero set: not taken
    cpu.execute(&mut memory);
    assert_eq!(cpu.pc, 0x0102);
}

#[test]
fn branch_negative_byte_reads_as_sign_magnitude() {
    let mut memory = Memory::new();
    memory.write(0x0010, 0x10); // bpl
    memory.write(0x0011, 0xFF); // sign-magnitude: -(0x7F) = -127
    let mut cpu = CPU::new();
    cpu.pc = 0x0010;
    cpu.flags = 0; // negative clear: taken
    cpu.execute(&mut memory);
    assert_eq!(cpu.pc, 0x0012u16.wrapping_sub(127));
}

#[test]
fn beq_taken_when_zero_set() {
    let mut memory = Memory::new();
    memory.write(0x0000, 0xF0); // beq
    memory.write(0x0001, 0x10);
    let mut cpu = CPU::new();
    cpu.flags = 0x02;
    cpu.execute(&mut memory);
    assert_eq!(cpu.pc, 0x0012);
}

#[test]
fn bcs_and_bcc_test_carry() {
    let mut memory = Memory::new();
    memory.write(0x0000, 0xB0); // bcs
    memory.write(0x0001, 0x04);
    let mut cpu = CPU::new();
    cpu.flags = 0x01;
    cpu.execute(&mut memory);
    assert_eq!(cpu.pc, 0x0006);
    memory.write(0x0006, 0x90); // bcc, carry set: not taken
    memory.write(0x0007, 0x04);
    cpu.execute(&mut memory);
    assert_eq!(cpu.pc, 0x0008);
}

#[test]
fn bmi_bvs_bvc_test_their_flags() {
    let mut memory = Memory::new();
    memory.write(0x0000, 0x30); // bmi taken on negative
    memory.write(0x0001, 0x02);
    let mut cpu = CPU::new();
    cpu.flags = 0x80;
    cpu.execute(&mut memory);
    assert_eq!(cpu.pc, 0x0004);
    memory.write(0x0004, 0x70); // bvs, overflow clear: not taken
    memory.write(0x0005, 0x02);
    cpu.execute(&mut memory);
    assert_eq!(cpu.pc, 0x0006);
    memory.write(0x0006, 0x50); // bvc, overflow clear: taken
    memory.write(0x0007, 0x02);
    cpu.execute(&mut memory);
    assert_eq!(cpu.pc, 0x000A);
}
