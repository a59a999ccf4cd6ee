//! Instruction-set constants and the decoder: opcode extraction, operand
//! fields, and sign extension of the 5/6/9/11-bit offsets.

use vstd::prelude::*;

verus! {

/// Condition flag: the last flag-updating write was positive.
pub const FL_POS: u16 = 1;
/// Condition flag: the last flag-updating write was zero.
pub const FL_ZRO: u16 = 2;
/// Condition flag: the last flag-updating write was negative (bit 15 set).
pub const FL_NEG: u16 = 4;

/// Address of the memory-mapped keyboard status register.
pub const KBSR: u16 = 0xFE00;
/// Address of the memory-mapped keyboard data register.
pub const KBDR: u16 = 0xFE02;

/// Entry address: the program counter starts here.
pub const PC_START: u16 = 0x3000;

/// Number of addressable memory words.
pub const MEM_SIZE: usize = 0x10000;

/// Trap vector: read one byte into R0, no echo.
pub const TRAP_GETC: u16 = 0x20;
/// Trap vector: write the low byte of R0 to the output.
pub const TRAP_OUT: u16 = 0x21;
/// Trap vector: write a zero-terminated string, one character per word.
pub const TRAP_PUTS: u16 = 0x22;
/// Trap vector: prompt, read one byte into R0, echo it.
pub const TRAP_IN: u16 = 0x23;
/// Trap vector: write a zero-terminated string, two characters per word.
pub const TRAP_PUTSP: u16 = 0x24;
/// Trap vector: stop the machine.
pub const TRAP_HALT: u16 = 0x25;

/// The operation selected by bits 15-12 of an instruction word.
#[derive(Clone, Copy, Debug, PartialEq, Eq, Structural)]
pub enum Opcode {
    Br,
    Add,
    Ld,
    St,
    Jsr,
    And,
    Ldr,
    Str,
    Rti,
    Not,
    Ldi,
    Sti,
    Jmp,
    Res,
    Lea,
    Trap,
}

/// The opcode encoded in bits 15-12 of `instr`.
pub open spec fn spec_opcode(instr: u16) -> Opcode {
    let bits = instr >> 12;
    if bits == 0 {
        Opcode::Br
    } else if bits == 1 {
        Opcode::Add
    } else if bits == 2 {
        Opcode::Ld
    } else if bits == 3 {
        Opcode::St
    } else if bits == 4 {
        Opcode::Jsr
    } else if bits == 5 {
        Opcode::And
    } else if bits == 6 {
        Opcode::Ldr
    } else if bits == 7 {
        Opcode::Str
    } else if bits == 8 {
        Opcode::Rti
    } else if bits == 9 {
        Opcode::Not
    } else if bits == 10 {
        Opcode::Ldi
    } else if bits == 11 {
        Opcode::Sti
    } else if bits == 12 {
        Opcode::Jmp
    } else if bits == 13 {
        Opcode::Res
    } else if bits == 14 {
        Opcode::Lea
    } else {
        Opcode::Trap
    }
}

/// Extracts the opcode from bits 15-12 of an instruction word.
pub fn opcode(instr: u16) -> (op: Opcode)
    ensures
        op == spec_opcode(instr),
{
    let bits = instr >> 12;
    match bits {
        0 => Opcode::Br,
        1 => Opcode::Add,
        2 => Opcode::Ld,
        3 => Opcode::St,
        4 => Opcode::Jsr,
        5 => Opcode::And,
        6 => Opcode::Ldr,
        7 => Opcode::Str,
        8 => Opcode::Rti,
        9 => Opcode::Not,
        10 => Opcode::Ldi,
        11 => Opcode::Sti,
        12 => Opcode::Jmp,
        13 => Opcode::Res,
        14 => Opcode::Lea,
        _ => Opcode::Trap,
    }
}

/// Destination register field, bits 11-9.
pub open spec fn spec_dr(instr: u16) -> u16 {
    (instr >> 9) & 0x7
}

/// Extracts the destination register index from bits 11-9.
pub fn dr(instr: u16) -> (r: u16)
    ensures
        r == spec_dr(instr),
        r < 8,
{
    proof {
        assert(((instr >> 9) & 0x7) < 8) by (bit_vector);
    }
    (instr >> 9) & 0x7
}

/// First source register field, bits 8-6; also the base register field.
pub open spec fn spec_sr1(instr: u16) -> u16 {
    (instr >> 6) & 0x7
}

/// Extracts the first source (or base) register index from bits 8-6.
pub fn sr1(instr: u16) -> (r: u16)
    ensures
        r == spec_sr1(instr),
        r < 8,
{
    proof {
        assert(((instr >> 6) & 0x7) < 8) by (bit_vector);
    }
    (instr >> 6) & 0x7
}

/// Second source register field, bits 2-0.
pub open spec fn spec_sr2(instr: u16) -> u16 {
    instr & 0x7
}

/// Extracts the second source register index from bits 2-0.
pub fn sr2(instr: u16) -> (r: u16)
    ensures
        r == spec_sr2(instr),
        r < 8,
{
    proof {
        assert((instr & 0x7) < 8) by (bit_vector);
    }
    instr & 0x7
}

/// Immediate-mode flag, bit 5.
pub open spec fn spec_imm_flag(instr: u16) -> bool {
    (instr >> 5) & 1 == 1
}

/// True when bit 5 selects the immediate operand form.
pub fn imm_flag(instr: u16) -> (b: bool)
    ensures
        b == spec_imm_flag(instr),
{
    (instr >> 5) & 1 == 1
}

/// Long-jump flag of JSR, bit 11: offset form when set, register form when
/// clear.
pub open spec fn spec_jsr_long(instr: u16) -> bool {
    (instr >> 11) & 1 == 1
}

/// True when bit 11 selects the PC-relative form of JSR.
pub fn jsr_long(instr: u16) -> (b: bool)
    ensures
        b == spec_jsr_long(instr),
{
    (instr >> 11) & 1 == 1
}

/// Trap vector, the low 8 bits of a TRAP instruction.
pub open spec fn spec_trap_vector(instr: u16) -> u16 {
    instr & 0xFF
}

/// Extracts the trap vector from the low 8 bits.
pub fn trap_vector(instr: u16) -> (v: u16)
    ensures
        v == spec_trap_vector(instr),
        v < 256,
{
    proof {
        assert((instr & 0xFF) < 256) by (bit_vector);
    }
    instr & 0xFF
}

/// Widens the low `bit_count` bits of `x` to a 16-bit two's-complement
/// value: when the highest of those bits is set, all bits above it are set.
pub open spec fn spec_sign_extend(x: u16, bit_count: u16) -> u16 {
    if (x >> (bit_count - 1) as u16) & 1 == 1 {
        x | (0xFFFFu16 << bit_count)
    } else {
        x
    }
}

/// Sign-extends a `bit_count`-bit field to 16 bits, with truncating 16-bit
/// arithmetic throughout.
pub fn sign_extend(x: u16, bit_count: u16) -> (r: u16)
    requires
        1 <= bit_count <= 15,
    ensures
        r == spec_sign_extend(x, bit_count),
{
    if (x >> (bit_count - 1)) & 1 == 1 {
        x | (0xFFFFu16 << bit_count)
    } else {
        x
    }
}

/// A field whose highest significant bit is clear is unchanged by sign
/// extension.
pub proof fn lemma_sign_extend_nonnegative(x: u16, bit_count: u16)
    requires
        1 <= bit_count <= 15,
        (x >> (bit_count - 1) as u16) & 1 == 0,
    ensures
        spec_sign_extend(x, bit_count) == x,
{
}

/// The 5-bit immediate of ADD and AND, sign-extended.
pub open spec fn spec_imm5(instr: u16) -> u16 {
    spec_sign_extend(instr & 0x1F, 5)
}

/// Extracts and sign-extends the 5-bit immediate field.
pub fn imm5(instr: u16) -> (r: u16)
    ensures
        r == spec_imm5(instr),
{
    sign_extend(instr & 0x1F, 5)
}

/// The 6-bit offset of LDR and STR, sign-extended.
pub open spec fn spec_offset6(instr: u16) -> u16 {
    spec_sign_extend(instr & 0x3F, 6)
}

/// Extracts and sign-extends the 6-bit offset field.
pub fn offset6(instr: u16) -> (r: u16)
    ensures
        r == spec_offset6(instr),
{
    sign_extend(instr & 0x3F, 6)
}

/// The 9-bit PC-relative offset, sign-extended.
pub open spec fn spec_pc_offset9(instr: u16) -> u16 {
    spec_sign_extend(instr & 0x1FF, 9)
}

/// Extracts and sign-extends the 9-bit PC-relative offset field.
pub fn pc_offset9(instr: u16) -> (r: u16)
    ensures
        r == spec_pc_offset9(instr),
{
    sign_extend(instr & 0x1FF, 9)
}

/// The 11-bit PC-relative offset of JSR, sign-extended.
pub open spec fn spec_pc_offset11(instr: u16) -> u16 {
    spec_sign_extend(instr & 0x7FF, 11)
}

/// Extracts and sign-extends the 11-bit offset field.
pub fn pc_offset11(instr: u16) -> (r: u16)
    ensures
        r == spec_pc_offset11(instr),
{
    sign_extend(instr & 0x7FF, 11)
}

} // verus!
