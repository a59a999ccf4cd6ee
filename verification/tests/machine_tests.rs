use lc3vm::isa::{FL_ZRO, KBDR, KBSR, PC_START};
use lc3vm::vm::{Outcome, StopCause, Vm, Waiting};

#[test]
fn new_machine_is_zeroed_at_entry() {
    let vm = Vm::new();
    assert_eq!(vm.regs.pc, PC_START);
    assert_eq!(vm.regs.cond, FL_ZRO);
    assert_eq!(vm.regs.gpr, vec![0u16; 8]);
    assert!(vm.running);
    assert_eq!(vm.waiting, Waiting::No);
    assert!(vm.out.is_empty());
    assert_eq!(vm.mem.read_raw(0), 0);
    assert_eq!(vm.mem.read_raw(0xFFFF), 0);
}

#[test]
fn step_fetches_advances_and_executes() {
    let mut vm = Vm::new();
    vm.regs.set(1, 5);
    // ADD R0, R1, #-3 at the entry address.
    vm.mem.mem_write(PC_START, 0x107D);
    let res = vm.step(None);
    assert_eq!(res, Outcome::Normal);
    assert_eq!(vm.regs.pc, PC_START + 1);
    assert_eq!(vm.regs.gpr[0], 2);
}

#[test]
fn kbsr_poll_without_input_reads_zero_repeatedly() {
    let mut vm = Vm::new();
    assert_eq!(vm.mem.mem_read(KBSR, None), 0);
    assert_eq!(vm.mem.mem_read(KBSR, None), 0);
    assert_eq!(vm.mem.mem_read(KBSR, None), 0);
    assert_eq!(vm.mem.read_raw(KBDR), 0);
}

#[test]
fn kbsr_poll_with_input_latches_status_and_data() {
    let mut vm = Vm::new();
    assert_eq!(vm.mem.mem_read(KBSR, Some(0x41)), 0x8000);
    assert_eq!(vm.mem.read_raw(KBDR), 0x41);
    // The next poll with nothing pending clears the status again.
    assert_eq!(vm.mem.mem_read(KBSR, None), 0);
    assert_eq!(vm.mem.read_raw(KBDR), 0x41);
}

#[test]
fn poll_touches_only_device_register_reads() {
    let mut vm = Vm::new();
    vm.mem.mem_write(PC_START, 0x107D);
    // A step that fetches an ordinary address does not latch the key.
    vm.step(Some(0x41));
    assert_eq!(vm.mem.read_raw(KBSR), 0);
    assert_eq!(vm.mem.read_raw(KBDR), 0);
}

#[test]
fn ldr_through_device_registers() {
    let mut vm = Vm::new();
    vm.regs.set(3, KBSR);
    // LDR R2, R3, #0 while a key is pending: reads the ready status.
    let res = vm.execute(0x64C0, Some(0x41));
    assert_eq!(res, Outcome::Normal);
    assert_eq!(vm.regs.gpr[2], 0x8000);
    // LDR R2, R3, #2 then reads the latched data register.
    let res2 = vm.execute(0x64C2, None);
    assert_eq!(res2, Outcome::Normal);
    assert_eq!(vm.regs.gpr[2], 0x41);
}

#[test]
fn load_image_rejects_short_input() {
    let mut vm = Vm::new();
    assert!(!vm.mem.load_image(&vec![0x00]));
    assert_eq!(vm.mem.read_raw(0), 0);
}

#[test]
fn load_image_places_words_at_origin() {
    let mut vm = Vm::new();
    let image = vec![0x00, 0x30, 0x34, 0x12, 0x78, 0x56];
    assert!(vm.mem.load_image(&image));
    assert_eq!(vm.mem.read_raw(0x3000), 0x1234);
    assert_eq!(vm.mem.read_raw(0x3001), 0x5678);
    assert_eq!(vm.mem.read_raw(0x3002), 0);
}

#[test]
fn load_image_ignores_trailing_odd_byte() {
    let mut vm = Vm::new();
    let image = vec![0x00, 0x30, 0x01, 0x00, 0xFF];
    assert!(vm.mem.load_image(&image));
    assert_eq!(vm.mem.read_raw(0x3000), 1);
    assert_eq!(vm.mem.read_raw(0x3001), 0);
}

#[test]
fn load_image_is_bounded_by_top_of_memory() {
    let mut vm = Vm::new();
    let image = vec![0xFF, 0xFF, 0x01, 0x00, 0x02, 0x00];
    assert!(vm.mem.load_image(&image));
    assert_eq!(vm.mem.read_raw(0xFFFF), 1);
    // The second word would fall past the top: it is dropped, not wrapped.
    assert_eq!(vm.mem.read_raw(0x0000), 0);
}

#[test]
fn whole_program_runs_to_halt() {
    let mut vm = Vm::new();
    // LEA R0, #+2; PUTS; HALT; then the string "OK", zero-terminated.
    vm.mem.mem_write(0x3000, 0xE002);
    vm.mem.mem_write(0x3001, 0xF022);
    vm.mem.mem_write(0x3002, 0xF025);
    vm.mem.mem_write(0x3003, 'O' as u16);
    vm.mem.mem_write(0x3004, 'K' as u16);
    vm.mem.mem_write(0x3005, 0);
    let mut stopped = None;
    for _ in 0..10 {
        match vm.step(None) {
            Outcome::Normal => {},
            Outcome::Stopped(cause) => {
                stopped = Some(cause);
                break;
            },
            other => panic!("unexpected outcome {:?}", other),
        }
    }
    assert_eq!(stopped, Some(StopCause::Halted));
    assert!(!vm.running);
    assert_eq!(vm.out, b"OK".to_vec());
    // Once halted, further steps are idle and change nothing.
    assert_eq!(vm.step(None), Outcome::Idle);
    assert_eq!(vm.out, b"OK".to_vec());
}
