use synacor_vm::io::out_char;
use synacor_vm::loader::decode_image;
use synacor_vm::outcome::{InputResponse, StepEvent};
use synacor_vm::stack::Stack;
use synacor_vm::vm::Vm;

fn vm_of(words: &[u16]) -> Vm {
    Vm::new(&words.to_vec())
}

#[test]
fn out_char_maps_code_points_and_surrogates() {
    assert_eq!(out_char(65), 'A');
    assert_eq!(out_char(10), '\n');
    assert_eq!(out_char(0xd7ff), '\u{d7ff}');
    assert_eq!(out_char(0xd800), '?');
    assert_eq!(out_char(0xdfff), '?');
    assert_eq!(out_char(0xe000), '\u{e000}');
}

#[test]
fn stack_push_pop_roundtrip() {
    let mut s = Stack::new();
    s.push(17);
    let before = s.len();
    s.push(12345);
    assert_eq!(s.pop(), Some(12345));
    assert_eq!(s.len(), before);
    assert_eq!(s.pop(), Some(17));
    assert_eq!(s.pop(), None);
    assert_eq!(s.len(), 0);
}

#[test]
fn scenario_out_literal_then_halt() {
    // out 'A'; halt
    let mut vm = vm_of(&[19, 65, 0]);
    let mut printed = String::new();
    loop {
        match vm.step() {
            Ok(StepEvent::Output(v)) => printed.push(out_char(v)),
            Ok(StepEvent::Halted) => break,
            other => panic!("unexpected event {:?}", other),
        }
    }
    assert_eq!(printed, "A");
    assert!(vm.halted());
}

#[test]
fn scenario_add_registers_then_out() {
    // set r0 #4; set r1 #1; add r2 r0 r1; out r2; halt
    let mut vm = vm_of(&[1, 32768, 4, 1, 32769, 1, 9, 32770, 32768, 32769, 19, 32770, 0]);
    assert_eq!(vm.step(), Ok(StepEvent::Running));
    assert_eq!(vm.step(), Ok(StepEvent::Running));
    assert_eq!(vm.step(), Ok(StepEvent::Running));
    assert_eq!(vm.reg(2), 5);
    assert_eq!(vm.step(), Ok(StepEvent::Output(5)));
    assert_eq!(out_char(5), '\u{5}');
    assert_eq!(vm.step(), Ok(StepEvent::Halted));
}

#[test]
fn scenario_bang_command_arms_bypass_without_consuming_input() {
    // in r0; halt
    let mut vm = vm_of(&[20, 32768, 0]);
    assert_eq!(vm.step(), Ok(StepEvent::NeedInput));
    assert!(vm.awaiting_input());
    assert_eq!(vm.feed_input(b'!'), InputResponse::BypassArmed);
    assert!(vm.bypass_armed());
    assert_eq!(vm.reg(7), 25734);
    // the command byte was not delivered to the program
    assert!(vm.awaiting_input());
    assert_eq!(vm.reg(0), 0);
    assert_eq!(vm.feed_input(b'a'), InputResponse::Stored);
    assert!(!vm.awaiting_input());
    assert_eq!(vm.reg(0), 97);
    assert_eq!(vm.step(), Ok(StepEvent::Halted));
}

#[test]
fn trace_command_toggles_and_keeps_waiting() {
    let mut vm = vm_of(&[20, 32768, 0]);
    assert_eq!(vm.step(), Ok(StepEvent::NeedInput));
    assert!(!vm.trace_enabled());
    assert_eq!(vm.feed_input(b'x'), InputResponse::TraceToggled(true));
    assert!(vm.trace_enabled());
    assert!(vm.awaiting_input());
    assert_eq!(vm.feed_input(b'x'), InputResponse::TraceToggled(false));
    assert!(!vm.trace_enabled());
    assert_eq!(vm.feed_input(b'z'), InputResponse::Stored);
    assert_eq!(vm.reg(0), 122);
}

#[test]
fn step_while_awaiting_input_asks_again() {
    let mut vm = vm_of(&[20, 32768, 0]);
    assert_eq!(vm.step(), Ok(StepEvent::NeedInput));
    assert_eq!(vm.step(), Ok(StepEvent::NeedInput));
    assert_eq!(vm.feed_input(b'a'), InputResponse::Stored);
    assert_eq!(vm.step(), Ok(StepEvent::Halted));
}

#[test]
fn scenario_bypass_fires_at_fixed_address() {
    // push #1234; in r0; jmp 6027 -- the armed bypass intercepts address
    // 6027, forces r0 to 6 and returns through the pushed address.
    let mut vm = vm_of(&[2, 1234, 20, 32768, 6, 6027]);
    assert_eq!(vm.step(), Ok(StepEvent::Running));
    assert_eq!(vm.step(), Ok(StepEvent::NeedInput));
    assert_eq!(vm.feed_input(b'!'), InputResponse::BypassArmed);
    assert_eq!(vm.feed_input(b'a'), InputResponse::Stored);
    assert_eq!(vm.step(), Ok(StepEvent::Running));
    assert_eq!(vm.pc(), 6027);
    assert_eq!(vm.step(), Ok(StepEvent::Bypassed));
    assert_eq!(vm.reg(0), 6);
    assert_eq!(vm.pc(), 1234);
    assert_eq!(vm.stack_depth(), 0);
    assert!(!vm.halted());
}

#[test]
fn bypass_with_empty_stack_halts() {
    let mut vm = vm_of(&[20, 32768, 6, 6027]);
    assert_eq!(vm.step(), Ok(StepEvent::NeedInput));
    assert_eq!(vm.feed_input(b'!'), InputResponse::BypassArmed);
    assert_eq!(vm.feed_input(b'a'), InputResponse::Stored);
    assert_eq!(vm.step(), Ok(StepEvent::Running));
    assert_eq!(vm.step(), Ok(StepEvent::Bypassed));
    assert_eq!(vm.reg(0), 6);
    assert!(vm.halted());
}

#[test]
fn without_the_command_the_bypass_stays_dark() {
    // jmp 6027 with nothing armed: the cell there is 0, a plain halt.
    let mut vm = vm_of(&[6, 6027]);
    assert_eq!(vm.step(), Ok(StepEvent::Running));
    assert_eq!(vm.pc(), 6027);
    assert_eq!(vm.step(), Ok(StepEvent::Halted));
    assert_eq!(vm.reg(0), 0);
}

#[test]
fn decode_image_reads_little_endian_pairs() {
    let bytes: Vec<u8> = vec![0x13, 0x00, 0x41, 0x00, 0x34, 0x12];
    let words = decode_image(&bytes).unwrap();
    assert_eq!(words, vec![19, 65, 0x1234]);
}

#[test]
fn decode_image_ignores_a_trailing_odd_byte() {
    let bytes: Vec<u8> = vec![1, 2, 3];
    let words = decode_image(&bytes).unwrap();
    assert_eq!(words, vec![513]);
}

#[test]
fn decode_image_of_empty_input_is_empty() {
    let words = decode_image(&Vec::new()).unwrap();
    assert!(words.is_empty());
}

#[test]
fn decode_image_rejects_an_oversized_image() {
    let max: Vec<u8> = vec![0; 65536];
    assert_eq!(decode_image(&max).unwrap().len(), 32768);
    let over: Vec<u8> = vec![0; 65538];
    assert!(decode_image(&over).is_none());
}

#[test]
fn decoded_image_runs_in_the_machine() {
    // out 'H'; out 'i'; halt, as raw little-endian bytes
    let bytes: Vec<u8> = vec![19, 0, 72, 0, 19, 0, 105, 0, 0, 0];
    let words = decode_image(&bytes).unwrap();
    let mut vm = Vm::new(&words);
    let mut printed = String::new();
    loop {
        match vm.step() {
            Ok(StepEvent::Output(v)) => printed.push(out_char(v)),
            Ok(StepEvent::Halted) => break,
            other => panic!("unexpected event {:?}", other),
        }
    }
    assert_eq!(printed, "Hi");
}
