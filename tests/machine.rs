use synacor_vm::machine::{Halt, Machine, Step, VmError, MEMORY_SIZE};

/// Runs a program to its end, handing it the given lines whenever it asks
/// for input and an empty line once they are used up.
fn run_program(program: &[u16], lines: &[&str]) -> (Vec<u8>, Step) {
    let mut m = Machine::new(&program.to_vec()).unwrap();
    let mut out = Vec::new();
    let mut next_line = 0;
    for _ in 0..100_000 {
        match m.step() {
            Step::Continue => {}
            Step::Output(b) => out.push(b),
            Step::NeedInput => {
                let line = if next_line < lines.len() { lines[next_line] } else { "" };
                next_line += 1;
                let r = m.supply_line(line);
                if r != Step::Continue {
                    return (out, r);
                }
            }
            other => return (out, other),
        }
    }
    panic!("program did not stop");
}

#[test]
fn out_then_halt_prints_hi() {
    let (out, end) = run_program(&[19, 72, 19, 105, 0], &[]);
    assert_eq!(out, b"Hi".to_vec());
    assert_eq!(end, Step::Halted(Halt::Instruction));
}

#[test]
fn pop_on_empty_stack_is_underflow() {
    let (out, end) = run_program(&[3, 32768], &[]);
    assert!(out.is_empty());
    assert_eq!(end, Step::Fault(VmError::StackUnderflow));
}

#[test]
fn input_line_is_delivered_one_character_at_a_time() {
    let mut m = Machine::new(&vec![20, 32768, 20, 32769, 20, 32770, 0]).unwrap();
    assert_eq!(m.step(), Step::NeedInput);
    assert_eq!(m.pc(), 0);
    assert_eq!(m.supply_line("Q\n"), Step::Continue);
    assert_eq!(m.step(), Step::Continue);
    assert_eq!(m.register(0), 'Q' as u16);
    assert_eq!(m.step(), Step::Continue);
    assert_eq!(m.register(1), 10);
    assert_eq!(m.pending_input(), 0);
    assert_eq!(m.step(), Step::NeedInput);
    assert_eq!(m.pc(), 4);
}

#[test]
fn end_of_input_halts_gracefully() {
    let (out, end) = run_program(&[20, 32768, 0], &[]);
    assert!(out.is_empty());
    assert_eq!(end, Step::Halted(Halt::EndOfInput));
}

#[test]
fn input_characters_are_truncated_to_words() {
    let mut m = Machine::new(&vec![20, 32768, 0]).unwrap();
    assert_eq!(m.step(), Step::NeedInput);
    assert_eq!(m.supply_line("\u{1F600}"), Step::Continue);
    assert_eq!(m.step(), Step::Continue);
    assert_eq!(m.register(0), (0x1F600u32 & 0xffff) as u16);
}

#[test]
fn pushes_come_back_in_reverse() {
    // push 1; push 2; push 3; pop r0; pop r1; pop r2; halt
    let program = [2, 1, 2, 2, 2, 3, 3, 32768, 3, 32769, 3, 32770, 0];
    let mut m = Machine::new(&program.to_vec()).unwrap();
    for _ in 0..3 {
        assert_eq!(m.step(), Step::Continue);
    }
    assert_eq!(m.stack().clone(), vec![1, 2, 3]);
    for _ in 0..3 {
        assert_eq!(m.step(), Step::Continue);
    }
    assert_eq!((m.register(0), m.register(1), m.register(2)), (3, 2, 1));
    assert!(m.stack().is_empty());
    assert_eq!(m.step(), Step::Halted(Halt::Instruction));
}

#[test]
fn call_returns_after_its_operand() {
    // 0: call 5; 2: out 'B'; 4: halt; 5: out 'A'; 7: ret
    let program = [17, 5, 19, 66, 0, 19, 65, 18];
    let mut m = Machine::new(&program.to_vec()).unwrap();
    assert_eq!(m.step(), Step::Continue);
    assert_eq!(m.pc(), 5);
    assert_eq!(m.stack().clone(), vec![2]);
    assert_eq!(m.step(), Step::Output(b'A'));
    assert_eq!(m.step(), Step::Continue);
    assert_eq!(m.pc(), 2);
    assert!(m.stack().is_empty());
    let (out, end) = run_program(&program, &[]);
    assert_eq!(out, b"AB".to_vec());
    assert_eq!(end, Step::Halted(Halt::Instruction));
}

#[test]
fn ret_on_empty_stack_halts_gracefully() {
    let (out, end) = run_program(&[19, 120, 18, 19, 121], &[]);
    assert_eq!(out, b"x".to_vec());
    assert_eq!(end, Step::Halted(Halt::EmptyReturn));
}

#[test]
fn unknown_opcode_is_fatal() {
    assert_eq!(run_program(&[21, 22], &[]).1, Step::Fault(VmError::UnknownOpcode(22)));
}

#[test]
fn invalid_operand_is_fatal() {
    assert_eq!(run_program(&[19, 40000], &[]).1, Step::Fault(VmError::InvalidOperand(40000)));
    assert_eq!(run_program(&[1, 32776, 3], &[]).1, Step::Fault(VmError::InvalidOperand(32776)));
}

#[test]
fn division_by_zero_is_fatal() {
    assert_eq!(run_program(&[11, 32768, 5, 0], &[]).1, Step::Fault(VmError::DivisionByZero));
}

#[test]
fn jump_outside_memory_is_a_memory_fault() {
    // in r0 (gets 40000); jmp r0
    let mut m = Machine::new(&vec![20, 32768, 6, 32768]).unwrap();
    assert_eq!(m.step(), Step::NeedInput);
    m.supply_line("\u{9C40}");
    assert_eq!(m.step(), Step::Continue);
    assert_eq!(m.step(), Step::Continue);
    assert_eq!(m.pc(), 40000);
    assert_eq!(m.step(), Step::Fault(VmError::MemoryFault(40000)));
}

#[test]
fn image_larger_than_memory_is_refused() {
    let big = vec![0u16; MEMORY_SIZE + 1];
    assert_eq!(Machine::new(&big).err(), Some(VmError::ImageTooLarge(MEMORY_SIZE + 1)));
    assert!(Machine::new(&vec![0u16; MEMORY_SIZE]).is_ok());
}

#[test]
fn memory_beyond_the_image_is_zero() {
    let m = Machine::new(&vec![21]).unwrap();
    assert_eq!(m.memory_word(0), 21);
    assert_eq!(m.memory_word(MEMORY_SIZE - 1), 0);
    assert_eq!(m.register(7), 0);
}

#[test]
fn arithmetic_wraps_modulo_32768() {
    // add r0 32758 15; mult r1 200 200; mod r2 17 5; not r3 0; halt
    let program = [9, 32768, 32758, 15, 10, 32769, 200, 200, 11, 32770, 17, 5, 14, 32771, 0, 0];
    let mut m = Machine::new(&program.to_vec()).unwrap();
    for _ in 0..4 {
        assert_eq!(m.step(), Step::Continue);
    }
    assert_eq!(m.register(0), 5);
    assert_eq!(m.register(1), 7232);
    assert_eq!(m.register(2), 2);
    assert_eq!(m.register(3), 32767);
    assert_eq!(m.step(), Step::Halted(Halt::Instruction));
}

#[test]
fn comparisons_and_bitwise_operations() {
    // eq r0 3 3; gt r1 3 4; and r2 12 10; or r3 12 10
    let program = [4, 32768, 3, 3, 5, 32769, 3, 4, 12, 32770, 12, 10, 13, 32771, 12, 10, 0];
    let mut m = Machine::new(&program.to_vec()).unwrap();
    for _ in 0..4 {
        assert_eq!(m.step(), Step::Continue);
    }
    assert_eq!((m.register(0), m.register(1), m.register(2), m.register(3)), (1, 0, 8, 14));
}

#[test]
fn conditional_jumps() {
    // jt 1 6; halt...; 6: jf 0 10; 9: halt; 10: jt 0 0; 13: jf 5 0; 16: halt
    let program = [7, 1, 6, 0, 0, 0, 8, 0, 10, 0, 7, 0, 0, 8, 5, 0, 0];
    let mut m = Machine::new(&program.to_vec()).unwrap();
    assert_eq!(m.step(), Step::Continue);
    assert_eq!(m.pc(), 6);
    assert_eq!(m.step(), Step::Continue);
    assert_eq!(m.pc(), 10);
    assert_eq!(m.step(), Step::Continue);
    assert_eq!(m.pc(), 13);
    assert_eq!(m.step(), Step::Continue);
    assert_eq!(m.pc(), 16);
}

#[test]
fn literal_destination_writes_memory() {
    // set 100 7; halt
    let mut m = Machine::new(&vec![1, 100, 7, 0]).unwrap();
    assert_eq!(m.step(), Step::Continue);
    assert_eq!(m.memory_word(100), 7);
    assert_eq!(m.register(0), 0);
}

#[test]
fn rmem_and_wmem_move_raw_words() {
    // rmem r0 7; wmem 20 r0; halt; 7: 32770
    let mut m = Machine::new(&vec![15, 32768, 7, 16, 20, 32768, 0, 32770]).unwrap();
    assert_eq!(m.step(), Step::Continue);
    assert_eq!(m.register(0), 32770);
    assert_eq!(m.step(), Step::Continue);
    assert_eq!(m.memory_word(20), 32770);
    assert_eq!(m.step(), Step::Halted(Halt::Instruction));
}

#[test]
fn out_emits_the_low_byte_of_a_register() {
    // set r0 65; out r0; halt
    let (out, _) = run_program(&[1, 32768, 65, 19, 32768, 0], &[]);
    assert_eq!(out, b"A".to_vec());
}
