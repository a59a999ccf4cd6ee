//! The machine itself: fetch, decode, execute and the trap dispatch, as one
//! state-transition function over registers, memory, the output stream and
//! the running flag.
//!
//! Host input is handed in as plain values: each `step` takes the outcome of
//! one non-blocking keyboard poll, and the two blocking traps (GETC, IN) end
//! the step asking for a character, which the host supplies through
//! `give_char`. Output bytes accumulate in `out` in emission order for the
//! host to drain.

use vstd::prelude::*;
use crate::isa::{
    Opcode, FL_ZRO, MEM_SIZE, PC_START, TRAP_GETC, TRAP_HALT, TRAP_IN, TRAP_OUT, TRAP_PUTS,
    TRAP_PUTSP,
};
use crate::isa::{
    dr, imm5, imm_flag, jsr_long, opcode, offset6, pc_offset9, pc_offset11, sr1, sr2, trap_vector,
};
use crate::isa::{
    spec_dr, spec_imm5, spec_imm_flag, spec_jsr_long, spec_offset6, spec_opcode, spec_pc_offset9,
    spec_pc_offset11, spec_sr1, spec_sr2, spec_trap_vector,
};
use crate::memory::{spec_poll, Memory};
use crate::registers::{flag_of, Registers};

verus! {

/// What the machine is waiting for between steps.
#[derive(Clone, Copy, Debug, PartialEq, Eq, Structural)]
pub enum Waiting {
    /// Nothing: the next step fetches and executes.
    No,
    /// One input character, stored without echo (GETC).
    Char,
    /// One input character, echoed to the output (IN).
    CharEcho,
}

/// Why the machine stopped.
#[derive(Clone, Copy, Debug, PartialEq, Eq, Structural)]
pub enum StopCause {
    /// The halt trap was executed.
    Halted,
    /// A trap instruction carried an unrecognized vector.
    UnknownTrap(u16),
    /// The return-from-interrupt opcode, which this machine does not
    /// implement.
    Rti,
    /// The reserved opcode.
    Res,
    /// A string trap walked one full wrap of the address space without
    /// finding a terminating zero word.
    UnterminatedString,
}

/// What one step of the machine amounted to.
#[derive(Clone, Copy, Debug, PartialEq, Eq, Structural)]
pub enum Outcome {
    /// An instruction was executed and the machine can continue.
    Normal,
    /// The step executed GETC: the host must supply a character.
    NeedChar,
    /// The step executed IN: the host must prompt and supply a character,
    /// which will be echoed.
    NeedCharEcho,
    /// The machine stopped for the given cause; the running flag is clear.
    Stopped(StopCause),
    /// Nothing happened: the machine was already stopped or waiting.
    Idle,
}

/// The mathematical state of the machine: what the contracts speak of.
pub ghost struct VmV {
    /// The 65536 memory words.
    pub mem: Seq<u16>,
    /// The eight general registers.
    pub gpr: Seq<u16>,
    /// The program counter.
    pub pc: u16,
    /// The condition flag.
    pub cond: u16,
    /// False once the machine has stopped.
    pub running: bool,
    /// What the machine is waiting for.
    pub waiting: Waiting,
    /// Every output byte emitted so far, in order.
    pub out: Seq<u8>,
}

/// The address `k` words past `a`, wrapping at the top of the 16-bit
/// address space.
pub open spec fn wrap_k(a: u16, k: nat) -> u16
    decreases k,
{
    if k == 0 {
        a
    } else {
        wrap_k(a, (k - 1) as nat).wrapping_add(1)
    }
}

/// The low byte of a word.
pub open spec fn low_byte(w: u16) -> u8 {
    (w & 0xFF) as u8
}

/// The high byte of a word.
pub open spec fn high_byte(w: u16) -> u8 {
    (w >> 8) as u8
}

/// The first `n` words of the string at `a` are nonzero and the word after
/// them is the terminating zero: `n` is where the string trap stops.
pub open spec fn stops_at(m: Seq<u16>, a: u16, n: nat) -> bool {
    &&& m[wrap_k(a, n) as int] == 0
    &&& forall|k: nat| k < n ==> m[#[trigger] wrap_k(a, k) as int] != 0
}

/// The bytes PUTS emits for the first `n` words at `a`: each word's low
/// byte, in address order.
pub open spec fn puts_bytes(m: Seq<u16>, a: u16, n: nat) -> Seq<u8>
    decreases n,
{
    if n == 0 {
        Seq::empty()
    } else {
        puts_bytes(m, a, (n - 1) as nat).push(low_byte(m[wrap_k(a, (n - 1) as nat) as int]))
    }
}

/// The bytes PUTSP emits for one packed word: the low byte, then the high
/// byte when it is nonzero.
pub open spec fn putsp_word_bytes(w: u16) -> Seq<u8> {
    if w >> 8 == 0 {
        seq![low_byte(w)]
    } else {
        seq![low_byte(w), high_byte(w)]
    }
}

/// The bytes PUTSP emits for the first `n` words at `a`.
pub open spec fn putsp_bytes(m: Seq<u16>, a: u16, n: nat) -> Seq<u8>
    decreases n,
{
    if n == 0 {
        Seq::empty()
    } else {
        putsp_bytes(m, a, (n - 1) as nat) + putsp_word_bytes(m[wrap_k(a, (n - 1) as nat) as int])
    }
}

/// PUTS emits exactly one byte per word walked: a string of `n` nonzero
/// words produces exactly `n` output bytes.
pub proof fn lemma_puts_bytes_len(m: Seq<u16>, a: u16, n: nat)
    ensures
        puts_bytes(m, a, n).len() == n,
    decreases n,
{
    if n > 0 {
        lemma_puts_bytes_len(m, a, (n - 1) as nat);
    }
}

/// A string stops at exactly one place: the terminating zero pins the
/// length, so the string traps never read past it and their output is
/// determined by memory alone.
pub proof fn lemma_stops_at_unique(m: Seq<u16>, a: u16, n1: nat, n2: nat)
    requires
        stops_at(m, a, n1),
        stops_at(m, a, n2),
    ensures
        n1 == n2,
{
    if n1 < n2 {
        assert(m[wrap_k(a, n1) as int] != 0);
    }
    if n2 < n1 {
        assert(m[wrap_k(a, n2) as int] != 0);
    }
}

/// Destination register written with `v` and the flags updated from it;
/// everything else untouched.
pub open spec fn reg_flag_upd(pre: VmV, instr: u16, v: u16) -> VmV {
    VmV { gpr: pre.gpr.update(spec_dr(instr) as int, v), cond: flag_of(v), ..pre }
}

/// The second operand of ADD and AND: the sign-extended 5-bit immediate, or
/// the second source register.
pub open spec fn spec_operand2(pre: VmV, instr: u16) -> u16 {
    if spec_imm_flag(instr) {
        spec_imm5(instr)
    } else {
        pre.gpr[spec_sr2(instr) as int]
    }
}

/// The transition of the PUTS trap: emit each word's low byte from the
/// address in R0 up to the terminating zero word. A walk that wraps the
/// whole address space without meeting one has emitted every visited low
/// byte once and stops the machine.
pub open spec fn puts_post(pre: VmV, post: VmV, res: Outcome) -> bool {
    let a0 = pre.gpr[0];
    ||| (exists|n: nat|
        n <= MEM_SIZE && #[trigger] stops_at(pre.mem, a0, n) && post == (VmV {
            out: pre.out + puts_bytes(pre.mem, a0, n),
            ..pre
        }) && res == Outcome::Normal)
    ||| ((forall|k: nat| k < MEM_SIZE ==> pre.mem[#[trigger] wrap_k(a0, k) as int] != 0) && post
        == (VmV {
        out: pre.out + puts_bytes(pre.mem, a0, MEM_SIZE as nat),
        running: false,
        ..pre
    }) && res == Outcome::Stopped(StopCause::UnterminatedString))
}

/// The transition of the PUTSP trap: like PUTS, with two packed characters
/// per word (low byte first, high byte only when nonzero).
pub open spec fn putsp_post(pre: VmV, post: VmV, res: Outcome) -> bool {
    let a0 = pre.gpr[0];
    ||| (exists|n: nat|
        n <= MEM_SIZE && #[trigger] stops_at(pre.mem, a0, n) && post == (VmV {
            out: pre.out + putsp_bytes(pre.mem, a0, n),
            ..pre
        }) && res == Outcome::Normal)
    ||| ((forall|k: nat| k < MEM_SIZE ==> pre.mem[#[trigger] wrap_k(a0, k) as int] != 0) && post
        == (VmV {
        out: pre.out + putsp_bytes(pre.mem, a0, MEM_SIZE as nat),
        running: false,
        ..pre
    }) && res == Outcome::Stopped(StopCause::UnterminatedString))
}

/// The transition of a TRAP instruction with the given vector, over the
/// state in which the program counter has already advanced.
pub open spec fn trap_post(pre: VmV, vector: u16, post: VmV, res: Outcome) -> bool {
    if vector == TRAP_GETC {
        post == (VmV { waiting: Waiting::Char, ..pre }) && res == Outcome::NeedChar
    } else if vector == TRAP_OUT {
        post == (VmV { out: pre.out.push(low_byte(pre.gpr[0])), ..pre }) && res == Outcome::Normal
    } else if vector == TRAP_PUTS {
        puts_post(pre, post, res)
    } else if vector == TRAP_IN {
        post == (VmV { waiting: Waiting::CharEcho, ..pre }) && res == Outcome::NeedCharEcho
    } else if vector == TRAP_PUTSP {
        putsp_post(pre, post, res)
    } else if vector == TRAP_HALT {
        post == (VmV { running: false, ..pre }) && res == Outcome::Stopped(StopCause::Halted)
    } else {
        post == (VmV { running: false, ..pre }) && res == Outcome::Stopped(
            StopCause::UnknownTrap(vector),
        )
    }
}

/// The halt trap always clears the running flag and touches nothing else;
/// together with the idle clause of `step`, a halted machine is never
/// stepped again.
pub proof fn lemma_halt_is_final(pre: VmV, post: VmV, res: Outcome)
    requires
        trap_post(pre, TRAP_HALT, post, res),
    ensures
        !post.running,
        res == Outcome::Stopped(StopCause::Halted),
        post.mem == pre.mem,
        post.gpr == pre.gpr,
        post.pc == pre.pc,
        post.out == pre.out,
{
}

/// The transition of one executed instruction `instr`, over the state in
/// which the program counter has already advanced past it. `kb` is the
/// outcome of the step's non-blocking keyboard poll, latched by any read of
/// the keyboard status register.
pub open spec fn exec_post(pre: VmV, instr: u16, kb: Option<u8>, post: VmV, res: Outcome) -> bool {
    match spec_opcode(instr) {
        Opcode::Add => {
            let v = pre.gpr[spec_sr1(instr) as int].wrapping_add(spec_operand2(pre, instr));
            post == reg_flag_upd(pre, instr, v) && res == Outcome::Normal
        },
        Opcode::And => {
            // Deliberate: AND writes its result without a flag update,
            // unlike the other register-writing instructions.
            let v = pre.gpr[spec_sr1(instr) as int] & spec_operand2(pre, instr);
            post == (VmV { gpr: pre.gpr.update(spec_dr(instr) as int, v), ..pre }) && res
                == Outcome::Normal
        },
        Opcode::Not => {
            let v = !pre.gpr[spec_sr1(instr) as int];
            post == reg_flag_upd(pre, instr, v) && res == Outcome::Normal
        },
        Opcode::Br => {
            let taken = spec_dr(instr) & pre.cond != 0;
            let target = pre.pc.wrapping_add(spec_pc_offset9(instr));
            post == (VmV { pc: if taken { target } else { pre.pc }, ..pre }) && res
                == Outcome::Normal
        },
        Opcode::Jmp => post == (VmV { pc: pre.gpr[spec_sr1(instr) as int], ..pre }) && res
            == Outcome::Normal,
        Opcode::Jsr => {
            let g = pre.gpr.update(7, pre.pc);
            let target = if spec_jsr_long(instr) {
                pre.pc.wrapping_add(spec_pc_offset11(instr))
            } else {
                g[spec_sr1(instr) as int]
            };
            post == (VmV { gpr: g, pc: target, ..pre }) && res == Outcome::Normal
        },
        Opcode::Ld => {
            let addr = pre.pc.wrapping_add(spec_pc_offset9(instr));
            let m1 = spec_poll(pre.mem, addr, kb);
            post == (VmV { mem: m1, ..reg_flag_upd(pre, instr, m1[addr as int]) }) && res
                == Outcome::Normal
        },
        Opcode::Ldi => {
            let a1 = pre.pc.wrapping_add(spec_pc_offset9(instr));
            let m1 = spec_poll(pre.mem, a1, kb);
            let a2 = m1[a1 as int];
            let m2 = spec_poll(m1, a2, kb);
            post == (VmV { mem: m2, ..reg_flag_upd(pre, instr, m2[a2 as int]) }) && res
                == Outcome::Normal
        },
        Opcode::Ldr => {
            let addr = pre.gpr[spec_sr1(instr) as int].wrapping_add(spec_offset6(instr));
            let m1 = spec_poll(pre.mem, addr, kb);
            post == (VmV { mem: m1, ..reg_flag_upd(pre, instr, m1[addr as int]) }) && res
                == Outcome::Normal
        },
        Opcode::Lea => {
            let v = pre.pc.wrapping_add(spec_pc_offset9(instr));
            post == reg_flag_upd(pre, instr, v) && res == Outcome::Normal
        },
        Opcode::St => {
            let addr = pre.pc.wrapping_add(spec_pc_offset9(instr));
            post == (VmV {
                mem: pre.mem.update(addr as int, pre.gpr[spec_dr(instr) as int]),
                ..pre
            }) && res == Outcome::Normal
        },
        Opcode::Sti => {
            let a1 = pre.pc.wrapping_add(spec_pc_offset9(instr));
            let m1 = spec_poll(pre.mem, a1, kb);
            let a2 = m1[a1 as int];
            post == (VmV { mem: m1.update(a2 as int, pre.gpr[spec_dr(instr) as int]), ..pre })
                && res == Outcome::Normal
        },
        Opcode::Str => {
            let addr = pre.gpr[spec_sr1(instr) as int].wrapping_add(spec_offset6(instr));
            post == (VmV {
                mem: pre.mem.update(addr as int, pre.gpr[spec_dr(instr) as int]),
                ..pre
            }) && res == Outcome::Normal
        },
        Opcode::Rti => post == (VmV { running: false, ..pre }) && res == Outcome::Stopped(
            StopCause::Rti,
        ),
        Opcode::Res => post == (VmV { running: false, ..pre }) && res == Outcome::Stopped(
            StopCause::Res,
        ),
        Opcode::Trap => trap_post(pre, spec_trap_vector(instr), post, res),
    }
}

/// The machine: memory, registers, the running flag, what it waits for,
/// and the output bytes emitted so far.
pub struct Vm {
    /// The addressable memory with the keyboard device.
    pub mem: Memory,
    /// The register file.
    pub regs: Registers,
    /// False once the machine has stopped.
    pub running: bool,
    /// What the machine is waiting for.
    pub waiting: Waiting,
    /// Output bytes in emission order, for the host to drain.
    pub out: Vec<u8>,
}

impl View for Vm {
    type V = VmV;

    open spec fn view(&self) -> VmV {
        VmV {
            mem: self.mem@,
            gpr: self.regs.gpr@,
            pc: self.regs.pc,
            cond: self.regs.cond,
            running: self.running,
            waiting: self.waiting,
            out: self.out@,
        }
    }
}

impl Vm {
    /// The machine is well formed: memory and register file are.
    pub open spec fn wf(self) -> bool {
        &&& self.mem.wf()
        &&& self.regs.wf()
    }

    /// The machine will fetch on the next step: running and not waiting
    /// for input.
    pub open spec fn ready(self) -> bool {
        &&& self.running
        &&& self.waiting == Waiting::No
    }

    /// A fresh machine: memory zeroed, registers zeroed, the program
    /// counter at the entry address, running and waiting for nothing.
    pub fn new() -> (vm: Vm)
        ensures
            vm.wf(),
            vm@ == (VmV {
                mem: Seq::new(MEM_SIZE as nat, |i: int| 0u16),
                gpr: Seq::new(8, |i: int| 0u16),
                pc: PC_START,
                cond: FL_ZRO,
                running: true,
                waiting: Waiting::No,
                out: Seq::empty(),
            }),
    {
        Vm {
            mem: Memory::new(),
            regs: Registers::new(),
            running: true,
            waiting: Waiting::No,
            out: Vec::new(),
        }
    }

    /// Executes one already-fetched instruction word against the current
    /// state; the program counter must already point past it.
    pub fn execute(&mut self, instr: u16, kb: Option<u8>) -> (res: Outcome)
        requires
            old(self).wf(),
            old(self).ready(),
        ensures
            final(self).wf(),
            exec_post(old(self)@, instr, kb, final(self)@, res),
    {
        match opcode(instr) {
            Opcode::Add => {
                let d = dr(instr);
                let a = self.regs.get(sr1(instr));
                let b = if imm_flag(instr) {
                    imm5(instr)
                } else {
                    self.regs.get(sr2(instr))
                };
                self.regs.set(d, a.wrapping_add(b));
                self.regs.update_flags(d);
                Outcome::Normal
            },
            Opcode::And => {
                let d = dr(instr);
                let a = self.regs.get(sr1(instr));
                let b = if imm_flag(instr) {
                    imm5(instr)
                } else {
                    self.regs.get(sr2(instr))
                };
                self.regs.set(d, a & b);
                Outcome::Normal
            },
            Opcode::Not => {
                let d = dr(instr);
                let a = self.regs.get(sr1(instr));
                self.regs.set(d, !a);
                self.regs.update_flags(d);
                Outcome::Normal
            },
            Opcode::Br => {
                if dr(instr) & self.regs.cond != 0 {
                    self.regs.pc = self.regs.pc.wrapping_add(pc_offset9(instr));
                }
                Outcome::Normal
            },
            Opcode::Jmp => {
                self.regs.pc = self.regs.get(sr1(instr));
                Outcome::Normal
            },
            Opcode::Jsr => {
                let pc = self.regs.pc;
                self.regs.set(7, pc);
                if jsr_long(instr) {
                    self.regs.pc = pc.wrapping_add(pc_offset11(instr));
                } else {
                    self.regs.pc = self.regs.get(sr1(instr));
                }
                Outcome::Normal
            },
            Opcode::Ld => {
                let addr = self.regs.pc.wrapping_add(pc_offset9(instr));
                let v = self.mem.mem_read(addr, kb);
                let d = dr(instr);
                self.regs.set(d, v);
                self.regs.update_flags(d);
                Outcome::Normal
            },
            Opcode::Ldi => {
                let a1 = self.regs.pc.wrapping_add(pc_offset9(instr));
                let a2 = self.mem.mem_read(a1, kb);
                let v = self.mem.mem_read(a2, kb);
                let d = dr(instr);
                self.regs.set(d, v);
                self.regs.update_flags(d);
                Outcome::Normal
            },
            Opcode::Ldr => {
                let base = self.regs.get(sr1(instr));
                let addr = base.wrapping_add(offset6(instr));
                let v = self.mem.mem_read(addr, kb);
                let d = dr(instr);
                self.regs.set(d, v);
                self.regs.update_flags(d);
                Outcome::Normal
            },
            Opcode::Lea => {
                let d = dr(instr);
                let v = self.regs.pc.wrapping_add(pc_offset9(instr));
                self.regs.set(d, v);
                self.regs.update_flags(d);
                Outcome::Normal
            },
            Opcode::St => {
                let addr = self.regs.pc.wrapping_add(pc_offset9(instr));
                let v = self.regs.get(dr(instr));
                self.mem.mem_write(addr, v);
                Outcome::Normal
            },
            Opcode::Sti => {
                let a1 = self.regs.pc.wrapping_add(pc_offset9(instr));
                let a2 = self.mem.mem_read(a1, kb);
                let v = self.regs.get(dr(instr));
                self.mem.mem_write(a2, v);
                Outcome::Normal
            },
            Opcode::Str => {
                let base = self.regs.get(sr1(instr));
                let addr = base.wrapping_add(offset6(instr));
                let v = self.regs.get(dr(instr));
                self.mem.mem_write(addr, v);
                Outcome::Normal
            },
            Opcode::Rti => {
                self.running = false;
                Outcome::Stopped(StopCause::Rti)
            },
            Opcode::Res => {
                self.running = false;
                Outcome::Stopped(StopCause::Res)
            },
            Opcode::Trap => self.trap(trap_vector(instr)),
        }
    }

    /// Dispatches a trap vector to its service routine.
    fn trap(&mut self, vector: u16) -> (res: Outcome)
        requires
            old(self).wf(),
            old(self).ready(),
        ensures
            final(self).wf(),
            trap_post(old(self)@, vector, final(self)@, res),
    {
        if vector == TRAP_GETC {
            self.waiting = Waiting::Char;
            Outcome::NeedChar
        } else if vector == TRAP_OUT {
            let w = self.regs.get(0);
            proof {
                assert(w & 0xFF < 256) by (bit_vector);
            }
            self.out.push((w & 0xFF) as u8);
            Outcome::Normal
        } else if vector == TRAP_PUTS {
            self.do_puts()
        } else if vector == TRAP_IN {
            self.waiting = Waiting::CharEcho;
            Outcome::NeedCharEcho
        } else if vector == TRAP_PUTSP {
            self.do_putsp()
        } else if vector == TRAP_HALT {
            self.running = false;
            Outcome::Stopped(StopCause::Halted)
        } else {
            self.running = false;
            Outcome::Stopped(StopCause::UnknownTrap(vector))
        }
    }

    /// The PUTS service routine: walks the string at the address in R0 and
    /// emits each word's low byte up to the terminating zero word. The walk
    /// reads stored words directly: the keyboard intercept belongs to the
    /// program-visible reads of the fetch and the load instructions.
    fn do_puts(&mut self) -> (res: Outcome)
        requires
            old(self).wf(),
            old(self).ready(),
        ensures
            final(self).wf(),
            puts_post(old(self)@, final(self)@, res),
    {
        let ghost pre = self@;
        let a0 = self.regs.get(0);
        let mut addr: u16 = a0;
        let mut k: usize = 0;
        let mut c = self.mem.read_raw(addr);
        proof {
            assert(pre.out + puts_bytes(pre.mem, a0, 0) =~= pre.out);
        }
        while c != 0 && k < MEM_SIZE
            invariant
                self.wf(),
                self.mem@ == pre.mem,
                self.regs.gpr@ == pre.gpr,
                self.regs.pc == pre.pc,
                self.regs.cond == pre.cond,
                self.running == pre.running,
                self.waiting == pre.waiting,
                a0 == pre.gpr[0],
                k <= MEM_SIZE,
                addr == wrap_k(a0, k as nat),
                c == pre.mem[addr as int],
                forall|t: nat| t < k ==> pre.mem[#[trigger] wrap_k(a0, t) as int] != 0,
                self.out@ == pre.out + puts_bytes(pre.mem, a0, k as nat),
            decreases MEM_SIZE - k,
        {
            proof {
                assert(c & 0xFF < 256) by (bit_vector);
                assert(pre.out + puts_bytes(pre.mem, a0, (k + 1) as nat) =~= (pre.out
                    + puts_bytes(pre.mem, a0, k as nat)).push(low_byte(c)));
            }
            self.out.push((c & 0xFF) as u8);
            addr = addr.wrapping_add(1);
            k = k + 1;
            c = self.mem.read_raw(addr);
        }
        if c == 0 {
            proof {
                assert(stops_at(pre.mem, a0, k as nat));
                assert(self@ == (VmV { out: pre.out + puts_bytes(pre.mem, a0, k as nat), ..pre }));
            }
            Outcome::Normal
        } else {
            self.running = false;
            proof {
                assert(self@ == (VmV {
                    out: pre.out + puts_bytes(pre.mem, a0, MEM_SIZE as nat),
                    running: false,
                    ..pre
                }));
            }
            Outcome::Stopped(StopCause::UnterminatedString)
        }
    }

    /// The PUTSP service routine: like PUTS with two packed characters per
    /// word — the low byte, then the high byte when it is nonzero.
    fn do_putsp(&mut self) -> (res: Outcome)
        requires
            old(self).wf(),
            old(self).ready(),
        ensures
            final(self).wf(),
            putsp_post(old(self)@, final(self)@, res),
    {
        let ghost pre = self@;
        let a0 = self.regs.get(0);
        let mut addr: u16 = a0;
        let mut k: usize = 0;
        let mut c = self.mem.read_raw(addr);
        proof {
            assert(pre.out + putsp_bytes(pre.mem, a0, 0) =~= pre.out);
        }
        while c != 0 && k < MEM_SIZE
            invariant
                self.wf(),
                self.mem@ == pre.mem,
                self.regs.gpr@ == pre.gpr,
                self.regs.pc == pre.pc,
                self.regs.cond == pre.cond,
                self.running == pre.running,
                self.waiting == pre.waiting,
                a0 == pre.gpr[0],
                k <= MEM_SIZE,
                addr == wrap_k(a0, k as nat),
                c == pre.mem[addr as int],
                forall|t: nat| t < k ==> pre.mem[#[trigger] wrap_k(a0, t) as int] != 0,
                self.out@ == pre.out + putsp_bytes(pre.mem, a0, k as nat),
            decreases MEM_SIZE - k,
        {
            proof {
                assert(c & 0xFF < 256) by (bit_vector);
                assert(c >> 8 < 256) by (bit_vector);
            }
            self.out.push((c & 0xFF) as u8);
            let c2 = c >> 8;
            if c2 != 0 {
                self.out.push(c2 as u8);
            }
            proof {
                assert(putsp_bytes(pre.mem, a0, (k + 1) as nat) == putsp_bytes(
                    pre.mem,
                    a0,
                    k as nat,
                ) + putsp_word_bytes(c));
                assert(self.out@ =~= pre.out + putsp_bytes(pre.mem, a0, (k + 1) as nat));
            }
            addr = addr.wrapping_add(1);
            k = k + 1;
            c = self.mem.read_raw(addr);
        }
        if c == 0 {
            proof {
                assert(stops_at(pre.mem, a0, k as nat));
                assert(self@ == (VmV { out: pre.out + putsp_bytes(pre.mem, a0, k as nat), ..pre }));
            }
            Outcome::Normal
        } else {
            self.running = false;
            proof {
                assert(self@ == (VmV {
                    out: pre.out + putsp_bytes(pre.mem, a0, MEM_SIZE as nat),
                    running: false,
                    ..pre
                }));
            }
            Outcome::Stopped(StopCause::UnterminatedString)
        }
    }

    /// Supplies the character a blocking input trap asked for: it is stored
    /// zero-extended in R0 without a flag update, echoed when the IN trap
    /// asked, and the machine waits no more.
    pub fn give_char(&mut self, c: u8)
        requires
            old(self).wf(),
            old(self)@.waiting != Waiting::No,
        ensures
            final(self).wf(),
            final(self)@ == (VmV {
                gpr: old(self)@.gpr.update(0, c as u16),
                waiting: Waiting::No,
                out: if old(self)@.waiting == Waiting::CharEcho {
                    old(self)@.out.push(c)
                } else {
                    old(self)@.out
                },
                ..old(self)@
            }),
    {
        match self.waiting {
            Waiting::CharEcho => self.out.push(c),
            _ => (),
        }
        self.regs.set(0, c as u16);
        self.waiting = Waiting::No;
    }

    /// One machine cycle: fetch the word at the program counter (latching
    /// the keyboard poll `kb` on a device read), advance the counter by one
    /// with wraparound, and execute. A machine that has stopped or is
    /// waiting for input does nothing and reports it.
    pub fn step(&mut self, kb: Option<u8>) -> (res: Outcome)
        requires
            old(self).wf(),
        ensures
            final(self).wf(),
            !old(self).ready() ==> final(self)@ == old(self)@ && res == Outcome::Idle,
            old(self).ready() ==> ({
                let m1 = spec_poll(old(self)@.mem, old(self)@.pc, kb);
                let instr = m1[old(self)@.pc as int];
                let mid = VmV { mem: m1, pc: old(self)@.pc.wrapping_add(1), ..old(self)@ };
                exec_post(mid, instr, kb, final(self)@, res)
            }),
    {
        let fetch = self.running && match self.waiting {
            Waiting::No => true,
            _ => false,
        };
        if !fetch {
            return Outcome::Idle;
        }
        let pc = self.regs.pc;
        let instr = self.mem.mem_read(pc, kb);
        self.regs.pc = pc.wrapping_add(1);
        self.execute(instr, kb)
    }
}

} // verus!
