//! The 6502-family CPU engine: register file, stack discipline, and the
//! opcode classifier and dispatcher.
//!
//! One `execute` call consumes one instruction: it reads the opcode byte at
//! the program counter, classifies it into one of five families by bitmask,
//! and dispatches. All register arithmetic wraps (modulo 2^8 or 2^16).
//! Opcodes whose handler the hardware does not define report `Illegal`;
//! decoder slots whose behaviour this engine does not yet implement report
//! `Unimplemented`, with no state mutated in either case.

use vstd::prelude::*;

use crate::bus::Memory;
use crate::bus::MemView;

verus! {

/// Page in which the stack lives: 0x0100..=0x01FF.
pub const STACK_PAGE: u16 = 0x0100;

/// Register file. Arithmetic on 8-bit registers wraps modulo 256, on the
/// program counter modulo 2^16. Status bits not affected by an instruction
/// keep their prior value.
#[derive(Clone, Copy, PartialEq, Eq, Structural, Debug)]
pub struct CPU {
    /// Accumulator.
    pub a: u8,
    /// Index register X.
    pub x: u8,
    /// Index register Y.
    pub y: u8,
    /// Status flags: Negative(7), Overflow(6), unused(5), Break(4),
    /// Decimal(3), Interrupt-disable(2), Zero(1), Carry(0).
    pub flags: u8,
    /// Stack pointer into the stack page.
    pub sp: u8,
    /// Program counter.
    pub pc: u16,
}

pub open spec fn carry_flag(f: u8) -> bool {
    f & 0x01 != 0
}

pub open spec fn zero_flag(f: u8) -> bool {
    f & 0x02 != 0
}

pub open spec fn interrupt_flag(f: u8) -> bool {
    f & 0x04 != 0
}

pub open spec fn decimal_flag(f: u8) -> bool {
    f & 0x08 != 0
}

pub open spec fn break_flag(f: u8) -> bool {
    f & 0x10 != 0
}

pub open spec fn overflow_flag(f: u8) -> bool {
    f & 0x40 != 0
}

pub open spec fn negative_flag(f: u8) -> bool {
    f & 0x80 != 0
}

/// `f` with the bits of `mask` set when `on`, cleared when not.
pub open spec fn set_flag(f: u8, mask: u8, on: bool) -> u8 {
    if on {
        f | mask
    } else {
        f & !mask
    }
}

/// `f` with the Zero flag set iff `value` is zero and the Negative flag
/// equal to bit 7 of `value`; every other bit keeps its prior value.
pub open spec fn flags_zn(f: u8, value: u8) -> u8 {
    set_flag(set_flag(f, 0x02, value == 0), 0x80, value & 0x80 != 0)
}

/// Zero and Negative are the only bits `flags_zn` touches, and they land
/// exactly where the flag law asks: Zero iff the value is zero, Negative
/// equal to bit 7, Carry and Overflow untouched.
pub proof fn lemma_flags_zn(f: u8, value: u8)
    by (bit_vector)
    ensures
        zero_flag(flags_zn(f, value)) <==> value == 0,
        negative_flag(flags_zn(f, value)) <==> value & 0x80 != 0,
        carry_flag(flags_zn(f, value)) == carry_flag(f),
        overflow_flag(flags_zn(f, value)) == overflow_flag(f),
        flags_zn(f, value) & 0x7D == f & 0x7D,
{
}

/// Address of a stack slot: the stack page ORed with the pointer.
pub open spec fn stack_address(sp: u8) -> u16 {
    STACK_PAGE | sp as u16
}

/// The 16-bit word stored little-endian at `address`, the high byte read at
/// the wrapped successor address.
pub open spec fn word_at(ram: Seq<u8>, address: u16) -> u16 {
    (ram[address.wrapping_add(1) as int] as u16) << 8 | (ram[address as int] as u16)
}

/// `ram` after one byte is pushed with the stack pointer at `sp`.
pub open spec fn pushed(ram: Seq<u8>, sp: u8, byte: u8) -> Seq<u8> {
    ram.update(stack_address(sp) as int, byte)
}

/// `ram` after a 16-bit word is pushed: high byte first, then low byte.
pub open spec fn pushed_word(ram: Seq<u8>, sp: u8, word: u16) -> Seq<u8> {
    pushed(pushed(ram, sp, (word >> 8) as u8), sp.wrapping_sub(1), word as u8)
}

/// The word a `pop_word` started at pointer `sp` returns: low byte first,
/// then high byte.
pub open spec fn popped_word(ram: Seq<u8>, sp: u8) -> u16 {
    (ram[stack_address(sp.wrapping_add(2)) as int] as u16) << 8
        | (ram[stack_address(sp.wrapping_add(1)) as int] as u16)
}

/// The stack page sits below the PPU register window, and distinct pointer
/// values address distinct slots.
proof fn lemma_stack_page(sp: u8)
    by (bit_vector)
    ensures
        stack_address(sp) < 0x2000,
        stack_address(sp) != stack_address(sp.wrapping_sub(1)),
{
}

/// Reads the word stored little-endian at `address`.
pub fn load_word(memory: &Memory, address: u16) -> (r: u16)
    requires
        memory.wf(),
    ensures
        r == word_at(memory@.ram, address),
{
    let low = memory.load(address) as u16;
    let high = memory.load(address.wrapping_add(1)) as u16;
    high << 8 | low
}

/// Writes the high byte of `word` at `address` and the low byte at the
/// wrapped successor address.
pub fn write_word(memory: &mut Memory, address: u16, word: u16)
    requires
        old(memory).wf(),
    ensures
        final(memory).wf(),
        final(memory)@.ram == old(memory)@.ram.update(address as int, (word >> 8) as u8).update(
            address.wrapping_add(1) as int,
            word as u8,
        ),
        final(memory)@.chr == old(memory)@.chr,
        final(memory)@.load_status == old(memory)@.load_status,
        final(memory)@.read_buffer == old(memory)@.read_buffer,
{
    memory.write(address, (word >> 8) as u8);
    memory.write(address.wrapping_add(1), word as u8);
}

impl CPU {
    /// Power-on register file: registers cleared, flags 0x24 (unused and
    /// interrupt-disable set), stack pointer at the top of the page.
    pub fn new() -> (r: CPU)
        ensures
            r == (CPU { a: 0u8, x: 0u8, y: 0u8, flags: 0x24u8, sp: 0xffu8, pc: 0u16 }),
    {
        CPU { a: 0, x: 0, y: 0, flags: 0x24, sp: 0xff, pc: 0 }
    }

    /// Pop: the pointer moves up first, then the slot it lands on is read.
    pub fn pop(&mut self, memory: &Memory) -> (r: u8)
        requires
            memory.wf(),
        ensures
            *final(self) == (CPU { sp: old(self).sp.wrapping_add(1), ..*old(self) }),
            r == memory@.ram[stack_address(old(self).sp.wrapping_add(1)) as int],
    {
        self.sp = self.sp.wrapping_add(1);
        memory.load(STACK_PAGE | (self.sp as u16))
    }

    /// Push: the slot at the pointer is written first, then the pointer
    /// moves down.
    pub fn push(&mut self, memory: &mut Memory, byte: u8)
        requires
            old(memory).wf(),
        ensures
            final(memory).wf(),
            final(memory)@ == (MemView {
                ram: pushed(old(memory)@.ram, old(self).sp, byte),
                ..old(memory)@
            }),
            *final(self) == (CPU { sp: old(self).sp.wrapping_sub(1), ..*old(self) }),
    {
        proof {
            lemma_stack_page(self.sp);
        }
        memory.write(STACK_PAGE | (self.sp as u16), byte);
        self.sp = self.sp.wrapping_sub(1);
    }

    /// Pushes a word high byte first, so that `pop_word` reassembles it.
    pub fn push_word(&mut self, memory: &mut Memory, word: u16)
        requires
            old(memory).wf(),
        ensures
            final(memory).wf(),
            final(memory)@ == (MemView {
                ram: pushed_word(old(memory)@.ram, old(self).sp, word),
                ..old(memory)@
            }),
            *final(self) == (CPU { sp: old(self).sp.wrapping_sub(2), ..*old(self) }),
    {
        proof {
            let sp0 = self.sp;
            assert(sp0.wrapping_sub(1).wrapping_sub(1) == sp0.wrapping_sub(2)) by (bit_vector);
        }
        self.push(memory, (word >> 8) as u8);
        self.push(memory, word as u8);
    }

    /// Pops a word low byte first.
    pub fn pop_word(&mut self, memory: &Memory) -> (r: u16)
        requires
            memory.wf(),
        ensures
            *final(self) == (CPU { sp: old(self).sp.wrapping_add(2), ..*old(self) }),
            r == popped_word(memory@.ram, old(self).sp),
    {
        proof {
            let sp0 = self.sp;
            assert(sp0.wrapping_add(1).wrapping_add(1) == sp0.wrapping_add(2)) by (bit_vector);
        }
        let low = self.pop(memory) as u16;
        let high = self.pop(memory) as u16;
        high << 8 | low
    }
}

/// What one `execute` call reports.
#[derive(Clone, Copy, PartialEq, Eq, Structural, Debug)]
pub enum StepOutcome {
    /// The instruction was decoded and its effects were applied.
    Executed,
    /// The opcode lands in an unassigned decoder slot; nothing was mutated.
    Illegal(u8),
    /// The opcode is assigned but its behaviour is not implemented by this
    /// engine; nothing was mutated.
    Unimplemented(u8),
}

/// The five instruction families an opcode classifies into.
#[derive(Clone, Copy, PartialEq, Eq, Structural, Debug)]
pub enum Family {
    Jump,
    Special,
    Branch,
    Implied,
    Common,
}

pub open spec fn matches_jump(op: u8) -> bool {
    op & 0xDF == 0x4C
}

pub open spec fn matches_special(op: u8) -> bool {
    op & 0x9F == 0x00
}

pub open spec fn matches_branch(op: u8) -> bool {
    op & 0x1F == 0x10
}

pub open spec fn matches_implied(op: u8) -> bool {
    op & 0x1F == 0x08
}

/// Family of an opcode, the mask tests applied in precedence order.
pub open spec fn classify_spec(op: u8) -> Family {
    if matches_jump(op) {
        Family::Jump
    } else if matches_special(op) {
        Family::Special
    } else if matches_branch(op) {
        Family::Branch
    } else if matches_implied(op) {
        Family::Implied
    } else {
        Family::Common
    }
}

/// Classifies an opcode into its instruction family.
pub fn classify(op: u8) -> (family: Family)
    ensures
        family == classify_spec(op),
{
    if op & 0xDF == 0x4C {
        Family::Jump
    } else if op & 0x9F == 0x00 {
        Family::Special
    } else if op & 0x1F == 0x10 {
        Family::Branch
    } else if op & 0x1F == 0x08 {
        Family::Implied
    } else {
        Family::Common
    }
}

pub open spec fn special_index(op: u8) -> u8 {
    (op >> 5) & 0x3
}

pub open spec fn branch_index(op: u8) -> u8 {
    op >> 5
}

/// Index into the implied table: the high nibble doubled, plus opcode bit 1.
pub open spec fn implied_index(op: u8) -> u8 {
    (((op >> 3) & 0x1E) + ((op >> 1) & 1)) as u8
}

/// Index into the common table, combining two disjoint opcode bit groups.
pub open spec fn common_index(op: u8) -> u8 {
    (((op >> 3) & 0x1C) + (op & 0x3)) as u8
}

/// The 2-bit addressing-mode field a common handler receives.
pub open spec fn addressing_mode(op: u8) -> u8 {
    (op >> 2) & 0x3
}

/// Implied-table slots that hold no instruction.
pub open spec fn implied_illegal(index: u8) -> bool {
    index == 3 || index == 7 || index == 11 || index == 15 || index == 27 || index == 31
}

/// Common-table slots that hold an instruction.
pub open spec fn common_assigned(index: u8) -> bool {
    index != 0 && index != 3 && index != 7 && index != 8 && index != 11 && index != 12
        && index != 15 && index != 19 && index != 23 && index != 27 && index != 31
}

/// Each opcode matches at most one of the four family masks, so the
/// precedence order of the classifier never hides a family: every opcode
/// falls in exactly one family, with `Common` the complement of the four.
/// Each family's dispatch index stays within its table's bounds.
pub proof fn lemma_classification(op: u8)
    ensures
        (classify_spec(op) == Family::Jump) <==> matches_jump(op),
        (classify_spec(op) == Family::Special) <==> matches_special(op),
        (classify_spec(op) == Family::Branch) <==> matches_branch(op),
        (classify_spec(op) == Family::Implied) <==> matches_implied(op),
        (classify_spec(op) == Family::Common) <==> (!matches_jump(op) && !matches_special(op)
            && !matches_branch(op) && !matches_implied(op)),
        special_index(op) < 4,
        branch_index(op) < 8,
        implied_index(op) < 32,
        common_index(op) < 32,
{
    assert(op & 0xDF == 0x4C ==> !(op & 0x9F == 0x00) && !(op & 0x1F == 0x10) && !(op & 0x1F
        == 0x08)) by (bit_vector);
    assert(op & 0x9F == 0x00 ==> !(op & 0x1F == 0x10) && !(op & 0x1F == 0x08)) by (bit_vector);
    assert(special_index(op) < 4 && branch_index(op) < 8 && implied_index(op) < 32 && common_index(
        op,
    ) < 32) by (bit_vector);
}

// Semantics of the implemented instructions, on a register file whose
// program counter already points past the instruction's opcode where the
// instruction reads no operand.

pub open spec fn inx_spec(c: CPU) -> CPU {
    let v = c.x.wrapping_add(1);
    CPU { x: v, flags: flags_zn(c.flags, v), ..c }
}

pub open spec fn iny_spec(c: CPU) -> CPU {
    let v = c.y.wrapping_add(1);
    CPU { y: v, flags: flags_zn(c.flags, v), ..c }
}

pub open spec fn dex_spec(c: CPU) -> CPU {
    let v = c.x.wrapping_sub(1);
    CPU { x: v, flags: flags_zn(c.flags, v), ..c }
}

pub open spec fn dey_spec(c: CPU) -> CPU {
    let v = c.y.wrapping_sub(1);
    CPU { y: v, flags: flags_zn(c.flags, v), ..c }
}

pub open spec fn txa_spec(c: CPU) -> CPU {
    CPU { a: c.x, flags: flags_zn(c.flags, c.x), ..c }
}

pub open spec fn tya_spec(c: CPU) -> CPU {
    CPU { a: c.y, flags: flags_zn(c.flags, c.y), ..c }
}

pub open spec fn tax_spec(c: CPU) -> CPU {
    CPU { x: c.a, flags: flags_zn(c.flags, c.a), ..c }
}

pub open spec fn tay_spec(c: CPU) -> CPU {
    CPU { y: c.a, flags: flags_zn(c.flags, c.a), ..c }
}

pub open spec fn tsx_spec(c: CPU) -> CPU {
    CPU { x: c.sp, flags: flags_zn(c.flags, c.sp), ..c }
}

/// Transfer X to the stack pointer; the one transfer that touches no flag.
pub open spec fn txs_spec(c: CPU) -> CPU {
    CPU { sp: c.x, ..c }
}

pub open spec fn asl_a_spec(c: CPU) -> CPU {
    let v = c.a << 1;
    CPU { a: v, flags: set_flag(flags_zn(c.flags, v), 0x01, c.a & 0x80 != 0), ..c }
}

pub open spec fn lsr_a_spec(c: CPU) -> CPU {
    let v = c.a >> 1;
    CPU { a: v, flags: set_flag(flags_zn(c.flags, v), 0x01, c.a & 0x01 != 0), ..c }
}

pub open spec fn rol_a_spec(c: CPU) -> CPU {
    let v = (c.a << 1) | (if carry_flag(c.flags) {
        1u8
    } else {
        0u8
    });
    CPU { a: v, flags: set_flag(flags_zn(c.flags, v), 0x01, c.a & 0x80 != 0), ..c }
}

pub open spec fn ror_a_spec(c: CPU) -> CPU {
    let v = (c.a >> 1) | (if carry_flag(c.flags) {
        0x80u8
    } else {
        0u8
    });
    CPU { a: v, flags: set_flag(flags_zn(c.flags, v), 0x01, c.a & 0x01 != 0), ..c }
}

pub open spec fn php_spec(c: CPU, ram: Seq<u8>) -> (CPU, Seq<u8>) {
    (CPU { sp: c.sp.wrapping_sub(1), ..c }, pushed(ram, c.sp, c.flags))
}

pub open spec fn pha_spec(c: CPU, ram: Seq<u8>) -> (CPU, Seq<u8>) {
    (CPU { sp: c.sp.wrapping_sub(1), ..c }, pushed(ram, c.sp, c.a))
}

pub open spec fn pla_spec(c: CPU, ram: Seq<u8>) -> CPU {
    let v = ram[stack_address(c.sp.wrapping_add(1)) as int];
    CPU { a: v, flags: flags_zn(c.flags, v), sp: c.sp.wrapping_add(1), ..c }
}

pub open spec fn plp_spec(c: CPU, ram: Seq<u8>) -> CPU {
    let v = ram[stack_address(c.sp.wrapping_add(1)) as int];
    CPU { flags: v, sp: c.sp.wrapping_add(1), ..c }
}

/// Jump-to-subroutine: reads the 16-bit target after the opcode, pushes the
/// address of the last byte of the 3-byte instruction, then redirects.
pub open spec fn jsr_spec(c: CPU, ram: Seq<u8>) -> (CPU, Seq<u8>) {
    let target = word_at(ram, c.pc.wrapping_add(1));
    let ret = c.pc.wrapping_add(2);
    (CPU { pc: target, sp: c.sp.wrapping_sub(2), ..c }, pushed_word(ram, c.sp, ret))
}

/// Return-from-subroutine: pops the pushed address and resumes one past it.
pub open spec fn rts_spec(c: CPU, ram: Seq<u8>) -> CPU {
    CPU { pc: popped_word(ram, c.sp).wrapping_add(1), sp: c.sp.wrapping_add(2), ..c }
}

/// Where a jump instruction redirects: the absolute operand, dereferenced
/// once more when the indirect bit of the opcode is set.
pub open spec fn jump_target(c: CPU, ram: Seq<u8>, op: u8) -> u16 {
    let operand = word_at(ram, c.pc.wrapping_add(1));
    if op & 0x20 != 0 {
        word_at(ram, operand)
    } else {
        operand
    }
}

/// The branch displacement the engine derives from the operand byte:
/// non-negative bytes stand for themselves; for a negative byte the top bit
/// is masked off and the rest negated (sign-magnitude reading, kept exactly
/// as the hardware engine computes it).
pub open spec fn branch_offset(byte: u8) -> i8 {
    let o = byte as i8;
    if o < 0 {
        (-(o & 0x7F)) as i8
    } else {
        o
    }
}

/// Condition the 3-bit branch selector tests: sign, overflow, carry and zero
/// flags, each tested clear then set.
pub open spec fn branch_condition(index: u8, f: u8) -> bool {
    if index == 0 {
        !negative_flag(f)
    } else if index == 1 {
        negative_flag(f)
    } else if index == 2 {
        !overflow_flag(f)
    } else if index == 3 {
        overflow_flag(f)
    } else if index == 4 {
        !carry_flag(f)
    } else if index == 5 {
        carry_flag(f)
    } else if index == 6 {
        !zero_flag(f)
    } else {
        zero_flag(f)
    }
}

/// Program counter after a branch: past the 2-byte instruction, plus the
/// displacement when the condition held.
pub open spec fn branch_target(pc: u16, taken: bool, offset: i8) -> u16 {
    if taken {
        pc.wrapping_add(2).wrapping_add(offset as u16)
    } else {
        pc.wrapping_add(2)
    }
}

/// Effect of the implied instruction in slot `index` of the implied table,
/// on a register file already advanced past the opcode.
pub open spec fn implied_apply(c: CPU, ram: Seq<u8>, index: u8) -> (CPU, Seq<u8>) {
    if index == 0 {
        php_spec(c, ram)
    } else if index == 1 {
        (asl_a_spec(c), ram)
    } else if index == 2 {
        (CPU { flags: set_flag(c.flags, 0x01, false), ..c }, ram)
    } else if index == 4 {
        (plp_spec(c, ram), ram)
    } else if index == 5 {
        (rol_a_spec(c), ram)
    } else if index == 6 {
        (CPU { flags: set_flag(c.flags, 0x01, true), ..c }, ram)
    } else if index == 8 {
        pha_spec(c, ram)
    } else if index == 9 {
        (lsr_a_spec(c), ram)
    } else if index == 10 {
        (CPU { flags: set_flag(c.flags, 0x04, false), ..c }, ram)
    } else if index == 12 {
        (pla_spec(c, ram), ram)
    } else if index == 13 {
        (ror_a_spec(c), ram)
    } else if index == 14 {
        (CPU { flags: set_flag(c.flags, 0x04, true), ..c }, ram)
    } else if index == 16 {
        (dey_spec(c), ram)
    } else if index == 17 {
        (txa_spec(c), ram)
    } else if index == 18 {
        (tya_spec(c), ram)
    } else if index == 19 {
        (txs_spec(c), ram)
    } else if index == 20 {
        (tay_spec(c), ram)
    } else if index == 21 {
        (tax_spec(c), ram)
    } else if index == 22 {
        (CPU { flags: set_flag(c.flags, 0x40, false), ..c }, ram)
    } else if index == 23 {
        (tsx_spec(c), ram)
    } else if index == 24 {
        (iny_spec(c), ram)
    } else if index == 25 {
        (dex_spec(c), ram)
    } else if index == 26 {
        (CPU { flags: set_flag(c.flags, 0x08, false), ..c }, ram)
    } else if index == 28 {
        (inx_spec(c), ram)
    } else if index == 29 {
        (c, ram)
    } else {
        (CPU { flags: set_flag(c.flags, 0x08, true), ..c }, ram)
    }
}

/// Result of one CPU step: the register file, the CPU address space, and
/// what the step reported.
pub ghost struct CpuStep {
    pub cpu: CPU,
    pub ram: Seq<u8>,
    pub outcome: StepOutcome,
}

/// Semantics of one `execute` call on register file `c` over address space
/// `ram`: fetch the opcode at the program counter, classify, dispatch. On an
/// `Illegal` or `Unimplemented` outcome nothing is mutated.
pub open spec fn step_spec(c: CPU, ram: Seq<u8>) -> CpuStep {
    let op = ram[c.pc as int];
    if matches_jump(op) {
        CpuStep { cpu: CPU { pc: jump_target(c, ram, op), ..c }, ram, outcome: StepOutcome::Executed }
    } else if matches_special(op) {
        if op == 0x20 {
            CpuStep { cpu: jsr_spec(c, ram).0, ram: jsr_spec(c, ram).1, outcome: StepOutcome::Executed }
        } else if special_index(op) == 3 {
            CpuStep { cpu: rts_spec(c, ram), ram, outcome: StepOutcome::Executed }
        } else if special_index(op) == 1 {
            CpuStep { cpu: c, ram, outcome: StepOutcome::Illegal(op) }
        } else {
            CpuStep { cpu: c, ram, outcome: StepOutcome::Unimplemented(op) }
        }
    } else if matches_branch(op) {
        let offset = branch_offset(ram[c.pc.wrapping_add(1) as int]);
        let taken = branch_condition(branch_index(op), c.flags);
        CpuStep {
            cpu: CPU { pc: branch_target(c.pc, taken, offset), ..c },
            ram,
            outcome: StepOutcome::Executed,
        }
    } else if matches_implied(op) {
        if implied_illegal(implied_index(op)) {
            CpuStep { cpu: c, ram, outcome: StepOutcome::Illegal(op) }
        } else {
            let applied = implied_apply(
                CPU { pc: c.pc.wrapping_add(1), ..c },
                ram,
                implied_index(op),
            );
            CpuStep { cpu: applied.0, ram: applied.1, outcome: StepOutcome::Executed }
        }
    } else {
        if common_assigned(common_index(op)) {
            CpuStep { cpu: c, ram, outcome: StepOutcome::Unimplemented(op) }
        } else {
            CpuStep { cpu: c, ram, outcome: StepOutcome::Illegal(op) }
        }
    }
}

/// Incrementing X or Y wraps modulo 256 (so 255 becomes 0); afterwards the
/// Zero flag is set iff the result is 0, the Negative flag equals bit 7 of
/// the result, the Carry and Overflow flags are untouched, and so are every
/// other flag bit (mask 0x7D) and every other register.
pub proof fn lemma_increment_wraps_and_flags(c: CPU)
    ensures
        inx_spec(c).x == (c.x + 1) % 256,
        c.x == 255 ==> inx_spec(c).x == 0,
        zero_flag(inx_spec(c).flags) <==> inx_spec(c).x == 0,
        negative_flag(inx_spec(c).flags) <==> inx_spec(c).x >> 7 == 1,
        carry_flag(inx_spec(c).flags) == carry_flag(c.flags),
        overflow_flag(inx_spec(c).flags) == overflow_flag(c.flags),
        inx_spec(c).flags & 0x7D == c.flags & 0x7D,
        inx_spec(c) == (CPU { x: inx_spec(c).x, flags: inx_spec(c).flags, ..c }),
        iny_spec(c).y == (c.y + 1) % 256,
        c.y == 255 ==> iny_spec(c).y == 0,
        zero_flag(iny_spec(c).flags) <==> iny_spec(c).y == 0,
        negative_flag(iny_spec(c).flags) <==> iny_spec(c).y >> 7 == 1,
        carry_flag(iny_spec(c).flags) == carry_flag(c.flags),
        overflow_flag(iny_spec(c).flags) == overflow_flag(c.flags),
        iny_spec(c).flags & 0x7D == c.flags & 0x7D,
        iny_spec(c) == (CPU { y: iny_spec(c).y, flags: iny_spec(c).flags, ..c }),
{
    lemma_flags_zn(c.flags, c.x.wrapping_add(1));
    lemma_flags_zn(c.flags, c.y.wrapping_add(1));
    let vx = c.x;
    let vy = c.y;
    assert((vx.wrapping_add(1) & 0x80 != 0) <==> (vx.wrapping_add(1) >> 7 == 1)) by (bit_vector);
    assert((vy.wrapping_add(1) & 0x80 != 0) <==> (vy.wrapping_add(1) >> 7 == 1)) by (bit_vector);
}

/// A full step whose opcode is an X or Y increment applies exactly that
/// increment to the register file with the program counter advanced past the
/// single-byte instruction, leaves memory untouched, and reports success.
pub proof fn lemma_increment_step(c: CPU, ram: Seq<u8>)
    ensures
        ram[c.pc as int] == 0xE8 ==> step_spec(c, ram) == (CpuStep {
            cpu: inx_spec(CPU { pc: c.pc.wrapping_add(1), ..c }),
            ram,
            outcome: StepOutcome::Executed,
        }),
        ram[c.pc as int] == 0xC8 ==> step_spec(c, ram) == (CpuStep {
            cpu: iny_spec(CPU { pc: c.pc.wrapping_add(1), ..c }),
            ram,
            outcome: StepOutcome::Executed,
        }),
{
    assert(0xE8u8 & 0xDF != 0x4C && 0xE8u8 & 0x9F != 0 && 0xE8u8 & 0x1F != 0x10 && 0xE8u8 & 0x1F
        == 0x08 && implied_index(0xE8) == 28) by (bit_vector);
    assert(0xC8u8 & 0xDF != 0x4C && 0xC8u8 & 0x9F != 0 && 0xC8u8 & 0x1F != 0x10 && 0xC8u8 & 0x1F
        == 0x08 && implied_index(0xC8) == 24) by (bit_vector);
}

/// After a jump-to-subroutine at program counter P the program counter
/// equals the absolute target, and the two bytes pushed onto the stack
/// decode back to P + 2, with the stack pointer two below its prior value,
/// so that popping the word restores the pointer.
pub proof fn lemma_jsr_return_address(c: CPU, ram: Seq<u8>)
    requires
        ram.len() == 0x10000,
    ensures
        jsr_spec(c, ram).0.pc == word_at(ram, c.pc.wrapping_add(1)),
        jsr_spec(c, ram).0.sp == c.sp.wrapping_sub(2),
        popped_word(jsr_spec(c, ram).1, jsr_spec(c, ram).0.sp) == c.pc.wrapping_add(2),
        jsr_spec(c, ram).0.sp.wrapping_add(2) == c.sp,
{
    lemma_push_pop_word_roundtrip(ram, c.sp, c.pc.wrapping_add(2));
}

/// `f` with the bits of `mask` set when `on`, cleared when not.
fn apply_flag(f: u8, mask: u8, on: bool) -> (r: u8)
    ensures
        r == set_flag(f, mask, on),
{
    if on {
        f | mask
    } else {
        f & !mask
    }
}

/// Recomputes the Zero and Negative flags from `value`, leaving the rest.
fn flags_with_zn(f: u8, value: u8) -> (r: u8)
    ensures
        r == flags_zn(f, value),
{
    apply_flag(apply_flag(f, 0x02, value == 0), 0x80, value & 0x80 != 0)
}

// Instruction handlers. Each one's contract is the spec function of the same
// name; stack instructions run on a register file already advanced past
// their single-byte opcode.

impl CPU {
    fn jmp(&mut self, address: u16)
        ensures
            *final(self) == (CPU { pc: address, ..*old(self) }),
    {
        self.pc = address;
    }

    fn jsr(&mut self, memory: &mut Memory)
        requires
            old(memory).wf(),
        ensures
            final(memory).wf(),
            *final(self) == jsr_spec(*old(self), old(memory)@.ram).0,
            final(memory)@ == (MemView {
                ram: jsr_spec(*old(self), old(memory)@.ram).1,
                ..old(memory)@
            }),
    {
        let target = load_word(memory, self.pc.wrapping_add(1));
        let ret = self.pc.wrapping_add(2);
        self.push_word(memory, ret);
        self.pc = target;
    }

    fn rts(&mut self, memory: &Memory)
        requires
            memory.wf(),
        ensures
            *final(self) == rts_spec(*old(self), memory@.ram),
    {
        let value = self.pop_word(memory);
        self.pc = value.wrapping_add(1);
    }

    /// Redirects past the 2-byte branch instruction, plus the displacement
    /// when `taken`.
    fn branch_to(&mut self, taken: bool, offset: i8)
        ensures
            *final(self) == (CPU {
                pc: branch_target(old(self).pc, taken, offset),
                ..*old(self)
            }),
    {
        if taken {
            self.pc = self.pc.wrapping_add(2).wrapping_add(offset as u16);
        } else {
            self.pc = self.pc.wrapping_add(2);
        }
    }

    fn bpl(&mut self, offset: i8)
        ensures
            *final(self) == (CPU {
                pc: branch_target(old(self).pc, !negative_flag(old(self).flags), offset),
                ..*old(self)
            }),
    {
        let taken = self.flags & 0x80 == 0;
        self.branch_to(taken, offset);
    }

    fn bmi(&mut self, offset: i8)
        ensures
            *final(self) == (CPU {
                pc: branch_target(old(self).pc, negative_flag(old(self).flags), offset),
                ..*old(self)
            }),
    {
        let taken = self.flags & 0x80 != 0;
        self.branch_to(taken, offset);
    }

    fn bvc(&mut self, offset: i8)
        ensures
            *final(self) == (CPU {
                pc: branch_target(old(self).pc, !overflow_flag(old(self).flags), offset),
                ..*old(self)
            }),
    {
        let taken = self.flags & 0x40 == 0;
        self.branch_to(taken, offset);
    }

    fn bvs(&mut self, offset: i8)
        ensures
            *final(self) == (CPU {
                pc: branch_target(old(self).pc, overflow_flag(old(self).flags), offset),
                ..*old(self)
            }),
    {
        let taken = self.flags & 0x40 != 0;
        self.branch_to(taken, offset);
    }

    fn bcc(&mut self, offset: i8)
        ensures
            *final(self) == (CPU {
                pc: branch_target(old(self).pc, !carry_flag(old(self).flags), offset),
                ..*old(self)
            }),
    {
        let taken = self.flags & 0x01 == 0;
        self.branch_to(taken, offset);
    }

    fn bcs(&mut self, offset: i8)
        ensures
            *final(self) == (CPU {
                pc: branch_target(old(self).pc, carry_flag(old(self).flags), offset),
                ..*old(self)
            }),
    {
        let taken = self.flags & 0x01 != 0;
        self.branch_to(taken, offset);
    }

    fn bne(&mut self, offset: i8)
        ensures
            *final(self) == (CPU {
                pc: branch_target(old(self).pc, !zero_flag(old(self).flags), offset),
                ..*old(self)
            }),
    {
        let taken = self.flags & 0x02 == 0;
        self.branch_to(taken, offset);
    }

    fn beq(&mut self, offset: i8)
        ensures
            *final(self) == (CPU {
                pc: branch_target(old(self).pc, zero_flag(old(self).flags), offset),
                ..*old(self)
            }),
    {
        let taken = self.flags & 0x02 != 0;
        self.branch_to(taken, offset);
    }

    fn php(&mut self, memory: &mut Memory)
        requires
            old(memory).wf(),
        ensures
            final(memory).wf(),
            *final(self) == php_spec(*old(self), old(memory)@.ram).0,
            final(memory)@ == (MemView {
                ram: php_spec(*old(self), old(memory)@.ram).1,
                ..old(memory)@
            }),
    {
        let flags = self.flags;
        self.push(memory, flags);
    }

    fn pha(&mut self, memory: &mut Memory)
        requires
            old(memory).wf(),
        ensures
            final(memory).wf(),
            *final(self) == pha_spec(*old(self), old(memory)@.ram).0,
            final(memory)@ == (MemView {
                ram: pha_spec(*old(self), old(memory)@.ram).1,
                ..old(memory)@
            }),
    {
        let a = self.a;
        self.push(memory, a);
    }

    fn pla(&mut self, memory: &Memory)
        requires
            memory.wf(),
        ensures
            *final(self) == pla_spec(*old(self), memory@.ram),
    {
        let v = self.pop(memory);
        self.a = v;
        self.flags = flags_with_zn(self.flags, v);
    }

    fn plp(&mut self, memory: &Memory)
        requires
            memory.wf(),
        ensures
            *final(self) == plp_spec(*old(self), memory@.ram),
    {
        let v = self.pop(memory);
        self.flags = v;
    }

    fn asl_a(&mut self)
        ensures
            *final(self) == asl_a_spec(*old(self)),
    {
        let carry_out = self.a & 0x80 != 0;
        let v = self.a << 1u8;
        self.a = v;
        self.flags = apply_flag(flags_with_zn(self.flags, v), 0x01, carry_out);
    }

    fn lsr_a(&mut self)
        ensures
            *final(self) == lsr_a_spec(*old(self)),
    {
        let carry_out = self.a & 0x01 != 0;
        let v = self.a >> 1u8;
        self.a = v;
        self.flags = apply_flag(flags_with_zn(self.flags, v), 0x01, carry_out);
    }

    fn rol_a(&mut self)
        ensures
            *final(self) == rol_a_spec(*old(self)),
    {
        let carry_out = self.a & 0x80 != 0;
        let carry_in: u8 = if self.flags & 0x01 != 0 {
            1
        } else {
            0
        };
        let v = (self.a << 1u8) | carry_in;
        self.a = v;
        self.flags = apply_flag(flags_with_zn(self.flags, v), 0x01, carry_out);
    }

    fn ror_a(&mut self)
        ensures
            *final(self) == ror_a_spec(*old(self)),
    {
        let carry_out = self.a & 0x01 != 0;
        let carry_in: u8 = if self.flags & 0x01 != 0 {
            0x80
        } else {
            0
        };
        let v = (self.a >> 1u8) | carry_in;
        self.a = v;
        self.flags = apply_flag(flags_with_zn(self.flags, v), 0x01, carry_out);
    }

    fn clc(&mut self)
        ensures
            *final(self) == (CPU { flags: set_flag(old(self).flags, 0x01, false), ..*old(self) }),
    {
        self.flags = apply_flag(self.flags, 0x01, false);
    }

    fn sec(&mut self)
        ensures
            *final(self) == (CPU { flags: set_flag(old(self).flags, 0x01, true), ..*old(self) }),
    {
        self.flags = apply_flag(self.flags, 0x01, true);
    }

    fn cli(&mut self)
        ensures
            *final(self) == (CPU { flags: set_flag(old(self).flags, 0x04, false), ..*old(self) }),
    {
        self.flags = apply_flag(self.flags, 0x04, false);
    }

    fn sei(&mut self)
        ensures
            *final(self) == (CPU { flags: set_flag(old(self).flags, 0x04, true), ..*old(self) }),
    {
        self.flags = apply_flag(self.flags, 0x04, true);
    }

    fn clv(&mut self)
        ensures
            *final(self) == (CPU { flags: set_flag(old(self).flags, 0x40, false), ..*old(self) }),
    {
        self.flags = apply_flag(self.flags, 0x40, false);
    }

    fn cld(&mut self)
        ensures
            *final(self) == (CPU { flags: set_flag(old(self).flags, 0x08, false), ..*old(self) }),
    {
        self.flags = apply_flag(self.flags, 0x08, false);
    }

    fn sed(&mut self)
        ensures
            *final(self) == (CPU { flags: set_flag(old(self).flags, 0x08, true), ..*old(self) }),
    {
        self.flags = apply_flag(self.flags, 0x08, true);
    }

    fn dey(&mut self)
        ensures
            *final(self) == dey_spec(*old(self)),
    {
        let v = self.y.wrapping_sub(1);
        self.y = v;
        self.flags = flags_with_zn(self.flags, v);
    }

    fn txa(&mut self)
        ensures
            *final(self) == txa_spec(*old(self)),
    {
        let v = self.x;
        self.a = v;
        self.flags = flags_with_zn(self.flags, v);
    }

    fn tya(&mut self)
        ensures
            *final(self) == tya_spec(*old(self)),
    {
        let v = self.y;
        self.a = v;
        self.flags = flags_with_zn(self.flags, v);
    }

    fn txs(&mut self)
        ensures
            *final(self) == txs_spec(*old(self)),
    {
        self.sp = self.x;
    }

    fn tay(&mut self)
        ensures
            *final(self) == tay_spec(*old(self)),
    {
        let v = self.a;
        self.y = v;
        self.flags = flags_with_zn(self.flags, v);
    }

    fn tax(&mut self)
        ensures
            *final(self) == tax_spec(*old(self)),
    {
        let v = self.a;
        self.x = v;
        self.flags = flags_with_zn(self.flags, v);
    }

    fn tsx(&mut self)
        ensures
            *final(self) == tsx_spec(*old(self)),
    {
        let v = self.sp;
        self.x = v;
        self.flags = flags_with_zn(self.flags, v);
    }

    fn iny(&mut self)
        ensures
            *final(self) == iny_spec(*old(self)),
    {
        let v = self.y.wrapping_add(1);
        self.y = v;
        self.flags = flags_with_zn(self.flags, v);
    }

    fn dex(&mut self)
        ensures
            *final(self) == dex_spec(*old(self)),
    {
        let v = self.x.wrapping_sub(1);
        self.x = v;
        self.flags = flags_with_zn(self.flags, v);
    }

    fn inx(&mut self)
        ensures
            *final(self) == inx_spec(*old(self)),
    {
        let v = self.x.wrapping_add(1);
        self.x = v;
        self.flags = flags_with_zn(self.flags, v);
    }

    fn nop(&mut self)
        ensures
            *final(self) == *old(self),
    {
    }

    /// Consumes exactly one instruction: fetches the opcode at the program
    /// counter, classifies it, dispatches, and applies the instruction's
    /// register, flag and memory effects, per `step_spec`. When it reports
    /// `Illegal` or `Unimplemented`, the register file and the bus are left
    /// exactly as they were.
    pub fn execute(&mut self, memory: &mut Memory) -> (r: StepOutcome)
        requires
            old(memory).wf(),
        ensures
            final(memory).wf(),
            *final(self) == step_spec(*old(self), old(memory)@.ram).cpu,
            final(memory)@ == (MemView {
                ram: step_spec(*old(self), old(memory)@.ram).ram,
                ..old(memory)@
            }),
            r == step_spec(*old(self), old(memory)@.ram).outcome,
    {
        let opcode = memory.load(self.pc);
        match classify(opcode) {
            Family::Jump => {
                let operand = load_word(memory, self.pc.wrapping_add(1));
                let address = if opcode & 0x20 != 0 {
                    load_word(memory, operand)
                } else {
                    operand
                };
                self.jmp(address);
                StepOutcome::Executed
            },
            Family::Special => {
                if opcode == 0x20 {
                    self.jsr(memory);
                    StepOutcome::Executed
                } else {
                    let index = (opcode >> 5u8) & 0x3;
                    if index == 3 {
                        self.rts(memory);
                        StepOutcome::Executed
                    } else if index == 1 {
                        StepOutcome::Illegal(opcode)
                    } else {
                        StepOutcome::Unimplemented(opcode)
                    }
                }
            },
            Family::Branch => {
                let byte = memory.load(self.pc.wrapping_add(1));
                let mut offset = byte as i8;
                proof {
                    assert((byte as i8) & 0x7F >= 0) by (bit_vector);
                }
                if offset < 0 {
                    offset = -(offset & 0x7F);
                }
                let index = opcode >> 5u8;
                proof {
                    assert(opcode >> 5u8 < 8) by (bit_vector);
                }
                if index == 0 {
                    self.bpl(offset);
                } else if index == 1 {
                    self.bmi(offset);
                } else if index == 2 {
                    self.bvc(offset);
                } else if index == 3 {
                    self.bvs(offset);
                } else if index == 4 {
                    self.bcc(offset);
                } else if index == 5 {
                    self.bcs(offset);
                } else if index == 6 {
                    self.bne(offset);
                } else {
                    self.beq(offset);
                }
                StepOutcome::Executed
            },
            Family::Implied => {
                proof {
                    assert(((opcode >> 3u8) & 0x1E) + ((opcode >> 1u8) & 1) < 32) by (bit_vector);
                }
                let index = ((opcode >> 3u8) & 0x1E) + ((opcode >> 1u8) & 1);
                if index == 3 || index == 7 || index == 11 || index == 15 || index == 27 || index
                    == 31 {
                    StepOutcome::Illegal(opcode)
                } else {
                    self.pc = self.pc.wrapping_add(1);
                    if index == 0 {
                        self.php(memory);
                    } else if index == 1 {
                        self.asl_a();
                    } else if index == 2 {
                        self.clc();
                    } else if index == 4 {
                        self.plp(memory);
                    } else if index == 5 {
                        self.rol_a();
                    } else if index == 6 {
                        self.sec();
                    } else if index == 8 {
                        self.pha(memory);
                    } else if index == 9 {
                        self.lsr_a();
                    } else if index == 10 {
                        self.cli();
                    } else if index == 12 {
                        self.pla(memory);
                    } else if index == 13 {
                        self.ror_a();
                    } else if index == 14 {
                        self.sei();
                    } else if index == 16 {
                        self.dey();
                    } else if index == 17 {
                        self.txa();
                    } else if index == 18 {
                        self.tya();
                    } else if index == 19 {
                        self.txs();
                    } else if index == 20 {
                        self.tay();
                    } else if index == 21 {
                        self.tax();
                    } else if index == 22 {
                        self.clv();
                    } else if index == 23 {
                        self.tsx();
                    } else if index == 24 {
                        self.iny();
                    } else if index == 25 {
                        self.dex();
                    } else if index == 26 {
                        self.cld();
                    } else if index == 28 {
                        self.inx();
                    } else if index == 29 {
                        self.nop();
                    } else {
                        self.sed();
                    }
                    StepOutcome::Executed
                }
            },
            Family::Common => {
                proof {
                    assert(((opcode >> 3u8) & 0x1C) + (opcode & 0x3) < 32) by (bit_vector);
                }
                let index = ((opcode >> 3u8) & 0x1C) + (opcode & 0x3);
                if index == 0 || index == 3 || index == 7 || index == 8 || index == 11 || index
                    == 12 || index == 15 || index == 19 || index == 23 || index == 27 || index
                    == 31 {
                    StepOutcome::Illegal(opcode)
                } else {
                    StepOutcome::Unimplemented(opcode)
                }
            },
        }
    }
}

/// A word pushed with `push_word` and immediately retrieved with `pop_word`
/// comes back unchanged, and the stack pointer after the pair equals its
/// value before the pair.
pub proof fn lemma_push_pop_word_roundtrip(ram: Seq<u8>, sp: u8, word: u16)
    requires
        ram.len() == 0x10000,
    ensures
        popped_word(pushed_word(ram, sp, word), sp.wrapping_sub(2)) == word,
        sp.wrapping_sub(2).wrapping_add(2) == sp,
{
    assert(sp.wrapping_sub(2).wrapping_add(2) == sp && sp.wrapping_sub(2).wrapping_add(1)
        == sp.wrapping_sub(1) && stack_address(sp) != stack_address(sp.wrapping_sub(1))
        && stack_address(sp) < 0x10000 && stack_address(sp.wrapping_sub(1)) < 0x10000)
        by (bit_vector);
    let ram2 = pushed_word(ram, sp, word);
    assert(ram2[stack_address(sp) as int] == (word >> 8) as u8);
    assert(ram2[stack_address(sp.wrapping_sub(1)) as int] == word as u8);
    assert(((word >> 8) as u8 as u16) << 8 | (word as u8 as u16) == word) by (bit_vector);
}

} // verus!

