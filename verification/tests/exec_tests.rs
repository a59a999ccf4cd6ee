use lc3vm::isa::{FL_NEG, FL_POS, FL_ZRO, PC_START};
use lc3vm::vm::{Outcome, StopCause, Vm};

#[test]
fn add_immediate_wraps_at_sixteen_bits() {
    // R1 = 5; ADD R0, R1, #-3: 5 + (-3) wraps to exactly 2.
    let mut vm = Vm::new();
    vm.regs.set(1, 5);
    let res = vm.execute(0x107D, None);
    assert_eq!(res, Outcome::Normal);
    assert_eq!(vm.regs.gpr[0], 2);
    assert_eq!(vm.regs.cond, FL_POS);
}

#[test]
fn add_register_form() {
    let mut vm = Vm::new();
    vm.regs.set(3, 0xFFFF);
    vm.regs.set(4, 2);
    // ADD R2, R3, R4: 0xFFFF + 2 wraps to 1.
    let res = vm.execute(0x14C4, None);
    assert_eq!(res, Outcome::Normal);
    assert_eq!(vm.regs.gpr[2], 1);
    assert_eq!(vm.regs.cond, FL_POS);
}

#[test]
fn and_does_not_update_flags() {
    let mut vm = Vm::new();
    vm.regs.set(1, 1);
    vm.regs.update_flags(1);
    assert_eq!(vm.regs.cond, FL_POS);
    // AND R0, R1, #0 writes 0 but deliberately leaves the flags alone.
    let res = vm.execute(0x5060, None);
    assert_eq!(res, Outcome::Normal);
    assert_eq!(vm.regs.gpr[0], 0);
    assert_eq!(vm.regs.cond, FL_POS);
}

#[test]
fn and_register_form() {
    let mut vm = Vm::new();
    vm.regs.set(3, 0xFF0F);
    vm.regs.set(4, 0x0FF0);
    // AND R2, R3, R4
    let res = vm.execute(0x54C4, None);
    assert_eq!(res, Outcome::Normal);
    assert_eq!(vm.regs.gpr[2], 0x0F00);
}

#[test]
fn not_complements_and_updates_flags() {
    let mut vm = Vm::new();
    vm.regs.set(1, 0x00FF);
    // NOT R0, R1
    let res = vm.execute(0x907F, None);
    assert_eq!(res, Outcome::Normal);
    assert_eq!(vm.regs.gpr[0], 0xFF00);
    assert_eq!(vm.regs.cond, FL_NEG);
}

#[test]
fn flags_track_zero_negative_positive() {
    let mut vm = Vm::new();
    vm.regs.set(0, 0);
    vm.regs.update_flags(0);
    assert_eq!(vm.regs.cond, FL_ZRO);
    vm.regs.set(0, 0x8000);
    vm.regs.update_flags(0);
    assert_eq!(vm.regs.cond, FL_NEG);
    vm.regs.set(0, 0x0001);
    vm.regs.update_flags(0);
    assert_eq!(vm.regs.cond, FL_POS);
}

#[test]
fn br_taken_moves_pc_by_offset() {
    let mut vm = Vm::new();
    vm.regs.set(1, 0);
    vm.regs.update_flags(1);
    assert_eq!(vm.regs.cond, FL_ZRO);
    // BRz #+5
    let res = vm.execute(0x0405, None);
    assert_eq!(res, Outcome::Normal);
    assert_eq!(vm.regs.pc, PC_START + 5);
}

#[test]
fn br_not_taken_leaves_pc() {
    let mut vm = Vm::new();
    vm.regs.set(1, 0);
    vm.regs.update_flags(1);
    // BRn #+5 while the flag is zero: no branch.
    let res = vm.execute(0x0805, None);
    assert_eq!(res, Outcome::Normal);
    assert_eq!(vm.regs.pc, PC_START);
}

#[test]
fn br_negative_offset() {
    let mut vm = Vm::new();
    vm.regs.set(1, 0x8000);
    vm.regs.update_flags(1);
    // BRn #-2: offset 0x1FE sign-extends to -2.
    let res = vm.execute(0x09FE, None);
    assert_eq!(res, Outcome::Normal);
    assert_eq!(vm.regs.pc, PC_START - 2);
}

#[test]
fn jmp_sets_pc_from_register() {
    let mut vm = Vm::new();
    vm.regs.set(3, 0x1234);
    // JMP R3
    let res = vm.execute(0xC0C0, None);
    assert_eq!(res, Outcome::Normal);
    assert_eq!(vm.regs.pc, 0x1234);
}

#[test]
fn jsr_offset_saves_return_address() {
    let mut vm = Vm::new();
    // JSR #+2
    let res = vm.execute(0x4802, None);
    assert_eq!(res, Outcome::Normal);
    assert_eq!(vm.regs.gpr[7], PC_START);
    assert_eq!(vm.regs.pc, PC_START + 2);
}

#[test]
fn jsr_register_form() {
    let mut vm = Vm::new();
    vm.regs.set(3, 0x5000);
    // JSRR R3
    let res = vm.execute(0x40C0, None);
    assert_eq!(res, Outcome::Normal);
    assert_eq!(vm.regs.gpr[7], PC_START);
    assert_eq!(vm.regs.pc, 0x5000);
}

#[test]
fn ld_loads_pc_relative() {
    let mut vm = Vm::new();
    vm.mem.mem_write(PC_START + 4, 0xBEEF);
    // LD R2, #+4
    let res = vm.execute(0x2404, None);
    assert_eq!(res, Outcome::Normal);
    assert_eq!(vm.regs.gpr[2], 0xBEEF);
    assert_eq!(vm.regs.cond, FL_NEG);
}

#[test]
fn ldi_round_trip() {
    // Memory at A holds B; memory at B holds V: LDI resolving to A loads V.
    let mut vm = Vm::new();
    let a = PC_START + 4;
    let b = 0x4321;
    let v = 0x0042;
    vm.mem.mem_write(a, b);
    vm.mem.mem_write(b, v);
    // LDI R2, #+4
    let res = vm.execute(0xA404, None);
    assert_eq!(res, Outcome::Normal);
    assert_eq!(vm.regs.gpr[2], v);
    assert_eq!(vm.regs.cond, FL_POS);
}

#[test]
fn ldr_loads_base_plus_offset() {
    let mut vm = Vm::new();
    vm.regs.set(3, 0x4000);
    vm.mem.mem_write(0x4001, 7);
    // LDR R2, R3, #+1
    let res = vm.execute(0x64C1, None);
    assert_eq!(res, Outcome::Normal);
    assert_eq!(vm.regs.gpr[2], 7);
}

#[test]
fn lea_computes_address_without_memory_access() {
    let mut vm = Vm::new();
    // LEA R2, #+4
    let res = vm.execute(0xE404, None);
    assert_eq!(res, Outcome::Normal);
    assert_eq!(vm.regs.gpr[2], PC_START + 4);
    assert_eq!(vm.regs.cond, FL_POS);
}

#[test]
fn st_stores_pc_relative() {
    let mut vm = Vm::new();
    vm.regs.set(2, 0xABCD);
    // ST R2, #+4
    let res = vm.execute(0x3404, None);
    assert_eq!(res, Outcome::Normal);
    assert_eq!(vm.mem.read_raw(PC_START + 4), 0xABCD);
}

#[test]
fn sti_stores_indirect() {
    let mut vm = Vm::new();
    vm.regs.set(2, 0x7777);
    vm.mem.mem_write(PC_START + 4, 0x4500);
    // STI R2, #+4
    let res = vm.execute(0xB404, None);
    assert_eq!(res, Outcome::Normal);
    assert_eq!(vm.mem.read_raw(0x4500), 0x7777);
}

#[test]
fn str_stores_base_plus_offset() {
    let mut vm = Vm::new();
    vm.regs.set(2, 0x1111);
    vm.regs.set(3, 0x4000);
    // STR R2, R3, #+1
    let res = vm.execute(0x74C1, None);
    assert_eq!(res, Outcome::Normal);
    assert_eq!(vm.mem.read_raw(0x4001), 0x1111);
}

#[test]
fn rti_stops_the_machine() {
    let mut vm = Vm::new();
    let res = vm.execute(0x8000, None);
    assert_eq!(res, Outcome::Stopped(StopCause::Rti));
    assert!(!vm.running);
}

#[test]
fn reserved_opcode_stops_the_machine() {
    let mut vm = Vm::new();
    let res = vm.execute(0xD000, None);
    assert_eq!(res, Outcome::Stopped(StopCause::Res));
    assert!(!vm.running);
}

#[test]
fn jsr_register_form_with_r7_base() {
    // R7 is written with the return address before the base register is
    // read, so JSRR R7 jumps to the return address itself.
    let mut vm = Vm::new();
    vm.regs.set(7, 0x5000);
    let res = vm.execute(0x41C0, None);
    assert_eq!(res, Outcome::Normal);
    assert_eq!(vm.regs.gpr[7], PC_START);
    assert_eq!(vm.regs.pc, PC_START);
}
