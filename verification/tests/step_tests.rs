use synacor_vm::outcome::{StepEvent, VmError};
use synacor_vm::vm::{operand_count_of, Vm};

fn vm_of(words: &[u16]) -> Vm {
    Vm::new(&words.to_vec())
}

#[test]
fn fresh_vm_is_zeroed_and_padded() {
    let vm = vm_of(&[5]);
    assert_eq!(vm.mem_at(0), 5);
    assert_eq!(vm.mem_at(1), 0);
    assert_eq!(vm.mem_at(32767), 0);
    for i in 0..8 {
        assert_eq!(vm.reg(i), 0);
    }
    assert_eq!(vm.pc(), 0);
    assert_eq!(vm.stack_depth(), 0);
    assert!(!vm.halted());
    assert!(!vm.trace_enabled());
    assert!(!vm.bypass_armed());
    assert!(!vm.awaiting_input());
}

#[test]
fn halt_stops_the_machine() {
    let mut vm = vm_of(&[0]);
    assert_eq!(vm.step(), Ok(StepEvent::Halted));
    assert!(vm.halted());
    assert_eq!(vm.step(), Ok(StepEvent::Halted));
}

#[test]
fn set_writes_the_resolved_value() {
    let mut vm = vm_of(&[1, 32768, 123]);
    assert_eq!(vm.step(), Ok(StepEvent::Running));
    assert_eq!(vm.reg(0), 123);
    assert_eq!(vm.pc(), 3);
}

#[test]
fn set_copies_between_registers() {
    let mut vm = vm_of(&[1, 32768, 42, 1, 32769, 32768]);
    assert_eq!(vm.step(), Ok(StepEvent::Running));
    assert_eq!(vm.step(), Ok(StepEvent::Running));
    assert_eq!(vm.reg(1), 42);
}

#[test]
fn eq_and_gt_write_flags() {
    let mut vm = vm_of(&[4, 32768, 3, 3, 5, 32769, 3, 4]);
    assert_eq!(vm.step(), Ok(StepEvent::Running));
    assert_eq!(vm.reg(0), 1);
    assert_eq!(vm.step(), Ok(StepEvent::Running));
    assert_eq!(vm.reg(1), 0);
}

#[test]
fn add_mult_mod_and_or_not_compute() {
    let mut vm = vm_of(&[
        9, 32768, 30000, 5000, // add r0 30000 5000
        10, 32769, 32767, 32767, // mult r1 32767 32767
        11, 32770, 17, 5, // mod r2 17 5
        12, 32771, 12, 10, // and r3 12 10
        13, 32772, 12, 10, // or r4 12 10
        14, 32773, 0, // not r5 0
    ]);
    for _ in 0..6 {
        assert_eq!(vm.step(), Ok(StepEvent::Running));
    }
    assert_eq!(vm.reg(0), 2232);
    assert_eq!(vm.reg(1), 1);
    assert_eq!(vm.reg(2), 2);
    assert_eq!(vm.reg(3), 8);
    assert_eq!(vm.reg(4), 14);
    assert_eq!(vm.reg(5), 32767);
}

#[test]
fn mod_by_zero_is_fatal() {
    let mut vm = vm_of(&[11, 32768, 5, 0]);
    assert_eq!(vm.step(), Err(VmError::DivisionByZero));
    assert!(vm.halted());
}

#[test]
fn jmp_sets_pc() {
    let mut vm = vm_of(&[6, 5]);
    assert_eq!(vm.step(), Ok(StepEvent::Running));
    assert_eq!(vm.pc(), 5);
}

#[test]
fn jt_jumps_only_on_nonzero() {
    let mut vm = vm_of(&[7, 1, 100]);
    assert_eq!(vm.step(), Ok(StepEvent::Running));
    assert_eq!(vm.pc(), 100);
    let mut vm2 = vm_of(&[7, 0, 100]);
    assert_eq!(vm2.step(), Ok(StepEvent::Running));
    assert_eq!(vm2.pc(), 3);
}

#[test]
fn jf_jumps_only_on_zero() {
    let mut vm = vm_of(&[8, 0, 100]);
    assert_eq!(vm.step(), Ok(StepEvent::Running));
    assert_eq!(vm.pc(), 100);
    let mut vm2 = vm_of(&[8, 1, 100]);
    assert_eq!(vm2.step(), Ok(StepEvent::Running));
    assert_eq!(vm2.pc(), 3);
}

#[test]
fn push_then_pop_returns_the_value() {
    let mut vm = vm_of(&[2, 99, 3, 32771]);
    assert_eq!(vm.step(), Ok(StepEvent::Running));
    assert_eq!(vm.stack_depth(), 1);
    assert_eq!(vm.step(), Ok(StepEvent::Running));
    assert_eq!(vm.reg(3), 99);
    assert_eq!(vm.stack_depth(), 0);
}

#[test]
fn pop_on_empty_stack_is_fatal() {
    let mut vm = vm_of(&[3, 32768]);
    assert_eq!(vm.step(), Err(VmError::StackUnderflow));
    assert!(vm.halted());
}

#[test]
fn rmem_and_wmem_move_cells() {
    let mut vm = vm_of(&[16, 100, 42, 15, 32768, 100]);
    assert_eq!(vm.step(), Ok(StepEvent::Running));
    assert_eq!(vm.mem_at(100), 42);
    assert_eq!(vm.step(), Ok(StepEvent::Running));
    assert_eq!(vm.reg(0), 42);
}

#[test]
fn call_pushes_resume_and_ret_restores_it() {
    let mut vm = vm_of(&[17, 4, 0, 0, 18]);
    assert_eq!(vm.step(), Ok(StepEvent::Running));
    assert_eq!(vm.pc(), 4);
    assert_eq!(vm.stack_depth(), 1);
    assert_eq!(vm.step(), Ok(StepEvent::Running));
    assert_eq!(vm.pc(), 2);
    assert_eq!(vm.stack_depth(), 0);
    assert_eq!(vm.step(), Ok(StepEvent::Halted));
}

#[test]
fn ret_on_empty_stack_halts_cleanly() {
    let mut vm = vm_of(&[18]);
    assert_eq!(vm.step(), Ok(StepEvent::Halted));
    assert!(vm.halted());
}

#[test]
fn unknown_opcode_is_reported_and_state_kept() {
    let mut vm = vm_of(&[22, 7, 7]);
    assert_eq!(vm.step(), Err(VmError::UnhandledOpcode(22)));
    assert!(vm.halted());
    assert_eq!(vm.pc(), 0);
    assert_eq!(vm.mem_at(0), 22);
    assert_eq!(vm.mem_at(1), 7);
    assert_eq!(vm.stack_depth(), 0);
    for i in 0..8 {
        assert_eq!(vm.reg(i), 0);
    }
}

#[test]
fn invalid_operand_word_is_fatal() {
    let mut vm = vm_of(&[6, 40000]);
    assert_eq!(vm.step(), Err(VmError::InvalidOperand(40000)));
    assert!(vm.halted());
}

#[test]
fn literal_write_target_is_fatal() {
    let mut vm = vm_of(&[1, 5, 7]);
    assert_eq!(vm.step(), Err(VmError::InvalidWriteTarget(5)));
    assert!(vm.halted());
}

#[test]
fn fetch_past_memory_is_out_of_bounds() {
    // rmem r0 <- cell 5 (holding 40000), then jmp r0: the fetch at 40000
    // fails.
    let mut vm = vm_of(&[15, 32768, 5, 6, 32768, 40000]);
    assert_eq!(vm.step(), Ok(StepEvent::Running));
    assert_eq!(vm.reg(0), 40000);
    assert_eq!(vm.step(), Ok(StepEvent::Running));
    assert_eq!(vm.pc(), 40000);
    assert_eq!(vm.step(), Err(VmError::OutOfBoundsAddress(40000)));
    assert!(vm.halted());
}

#[test]
fn wmem_to_bad_address_is_out_of_bounds() {
    let mut vm = vm_of(&[15, 32768, 6, 16, 32768, 1, 40000]);
    assert_eq!(vm.step(), Ok(StepEvent::Running));
    assert_eq!(vm.step(), Err(VmError::OutOfBoundsAddress(40000)));
    assert!(vm.halted());
}

#[test]
fn noop_only_advances() {
    let mut vm = vm_of(&[21, 0]);
    assert_eq!(vm.step(), Ok(StepEvent::Running));
    assert_eq!(vm.pc(), 1);
    assert_eq!(vm.step(), Ok(StepEvent::Halted));
}

#[test]
fn resolve_operand_reads_current_registers() {
    let mut vm = vm_of(&[1, 32771, 321]);
    assert_eq!(vm.step(), Ok(StepEvent::Running));
    assert_eq!(vm.resolve_operand(17), Ok(17));
    assert_eq!(vm.resolve_operand(32771), Ok(321));
    assert_eq!(vm.resolve_operand(32776), Err(VmError::InvalidOperand(32776)));
}

#[test]
fn peek_instruction_reads_without_advancing() {
    let vm = vm_of(&[9, 32770, 4, 5]);
    let (op, words) = vm.peek_instruction().unwrap();
    assert_eq!(op, 9);
    assert_eq!(words, vec![32770, 4, 5]);
    assert_eq!(vm.pc(), 0);
}

#[test]
fn operand_counts_match_the_table() {
    assert_eq!(operand_count_of(0), 0);
    assert_eq!(operand_count_of(1), 2);
    assert_eq!(operand_count_of(9), 3);
    assert_eq!(operand_count_of(18), 0);
    assert_eq!(operand_count_of(19), 1);
    assert_eq!(operand_count_of(21), 0);
    assert_eq!(operand_count_of(22), 0);
}
