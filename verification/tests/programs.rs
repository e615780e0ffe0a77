use synacor::machine::Machine;
use synacor::model::{Event, Fault, Halt, Op, RunEnd};

/// Assembles a program: each word becomes two little-endian bytes.
fn image(words: &[u16]) -> Vec<u8> {
    let mut bytes = Vec::new();
    for w in words {
        bytes.push((*w & 0xFF) as u8);
        bytes.push((*w >> 8) as u8);
    }
    bytes
}

fn loaded(words: &[u16]) -> Machine {
    let mut m = Machine::new();
    m.load(&image(words));
    m
}

#[test]
fn decode_consumes_opcode_and_arguments() {
    let mut m = loaded(&[9, 32768, 1, 2, 22]);
    assert_eq!(m.decode(), Ok(Op::Add(32768, 1, 2)));
    assert_eq!(m.ip(), 4);
    assert_eq!(m.decode(), Ok(Op::Invalid(22)));
    assert_eq!(m.ip(), 5);
}

#[test]
fn out_hi_program_prints_hi_then_halts() {
    let mut m = loaded(&[19, b'H' as u16, 19, b'i' as u16, 19, b'\n' as u16, 0]);
    let (output, end) = m.run(&Vec::new(), 100);
    assert_eq!(output, b"Hi\n".to_vec());
    assert_eq!(end, RunEnd::Halted(Halt::Explicit));
}

#[test]
fn add_program_wraps_and_prints_code_3() {
    // reg0 = 4; reg0 = (reg0 + 32767) mod 32768; print reg0.
    let mut m = loaded(&[1, 32768, 4, 9, 32768, 32768, 32767, 19, 32768, 0]);
    let (output, end) = m.run(&Vec::new(), 100);
    assert_eq!(output, vec![3u8]);
    assert_eq!(end, RunEnd::Halted(Halt::Explicit));
}

#[test]
fn ret_on_empty_stack_halts_distinctly() {
    let mut m = loaded(&[18]);
    assert_eq!(m.tick(), Ok(Event::Halted(Halt::EmptyStackOnRet)));

    let mut m2 = loaded(&[18]);
    let (output, end) = m2.run(&Vec::new(), 100);
    assert_eq!(output, Vec::<u8>::new());
    assert_eq!(end, RunEnd::Halted(Halt::EmptyStackOnRet));
    assert_ne!(end, RunEnd::Halted(Halt::Explicit));
}

#[test]
fn unknown_opcode_halts_gracefully() {
    let mut m = loaded(&[22]);
    let (_, end) = m.run(&Vec::new(), 100);
    assert_eq!(end, RunEnd::Halted(Halt::UnknownOpcode(22)));
}

#[test]
fn push_pop_is_lifo_and_empties_stack() {
    // Push 10, 20, 30; pop into reg0, reg1, reg2.
    let mut m = loaded(&[2, 10, 2, 20, 2, 30, 3, 32768, 3, 32769, 3, 32770, 0]);
    let (_, end) = m.run(&Vec::new(), 100);
    assert_eq!(end, RunEnd::Halted(Halt::Explicit));
    assert_eq!(m.get_register(32768), 30);
    assert_eq!(m.get_register(32769), 20);
    assert_eq!(m.get_register(32770), 10);
    assert_eq!(m.stack_len(), 0);
}

#[test]
fn call_then_ret_returns_past_the_call() {
    // Call to address 4; the word after the call holds a halt.
    let mut m = loaded(&[17, 4, 0, 0, 18]);
    assert_eq!(m.tick(), Ok(Event::Continue));
    assert_eq!(m.ip(), 4);
    assert_eq!(m.stack_len(), 1);
    assert_eq!(m.tick(), Ok(Event::Continue));
    assert_eq!(m.ip(), 2);
    assert_eq!(m.stack_len(), 0);
    assert_eq!(m.tick(), Ok(Event::Halted(Halt::Explicit)));
}

#[test]
fn conditional_jumps_take_the_right_branch() {
    // Jt on 0 falls through; Jf on 0 jumps over an invalid opcode to halt.
    let mut m = loaded(&[7, 0, 99, 8, 0, 7, 22, 0]);
    let (_, end) = m.run(&Vec::new(), 100);
    assert_eq!(end, RunEnd::Halted(Halt::Explicit));
}

#[test]
fn jmp_is_unconditional() {
    let mut m = loaded(&[6, 3, 22, 0]);
    let (_, end) = m.run(&Vec::new(), 100);
    assert_eq!(end, RunEnd::Halted(Halt::Explicit));
}

#[test]
fn eq_and_gt_write_one_or_zero() {
    let mut m = loaded(&[
        4, 32768, 5, 5, // reg0 = (5 == 5)
        4, 32769, 5, 6, // reg1 = (5 == 6)
        5, 32770, 7, 5, // reg2 = (7 > 5)
        5, 32771, 5, 7, // reg3 = (5 > 7)
        0,
    ]);
    let (_, end) = m.run(&Vec::new(), 100);
    assert_eq!(end, RunEnd::Halted(Halt::Explicit));
    assert_eq!(m.get_register(32768), 1);
    assert_eq!(m.get_register(32769), 0);
    assert_eq!(m.get_register(32770), 1);
    assert_eq!(m.get_register(32771), 0);
}

#[test]
fn bitwise_and_or_not_and_mod() {
    let mut m = loaded(&[
        12, 32768, 12, 10, // reg0 = 12 & 10
        13, 32769, 12, 10, // reg1 = 12 | 10
        14, 32770, 0, // reg2 = !0 (15 bits)
        11, 32771, 7, 3, // reg3 = 7 mod 3
        0,
    ]);
    let (_, end) = m.run(&Vec::new(), 100);
    assert_eq!(end, RunEnd::Halted(Halt::Explicit));
    assert_eq!(m.get_register(32768), 8);
    assert_eq!(m.get_register(32769), 14);
    assert_eq!(m.get_register(32770), 32767);
    assert_eq!(m.get_register(32771), 1);
}

#[test]
fn not_applied_twice_restores_the_value() {
    // reg4 = !12345 (15 bits); reg4 = !reg4 (15 bits).
    let mut m = loaded(&[14, 32772, 12345, 14, 32772, 32772, 0]);
    let (_, end) = m.run(&Vec::new(), 100);
    assert_eq!(end, RunEnd::Halted(Halt::Explicit));
    assert_eq!(m.get_register(32772), 12345);
}

#[test]
fn wmem_and_rmem_use_resolved_addresses() {
    // Write 4660 at address 100, then read it back through reg0.
    let mut m = loaded(&[16, 100, 4660, 15, 32768, 100, 0]);
    let (_, end) = m.run(&Vec::new(), 100);
    assert_eq!(end, RunEnd::Halted(Halt::Explicit));
    assert_eq!(m.read_mem(100), 4660);
    assert_eq!(m.get_register(32768), 4660);
}

#[test]
fn out_emits_low_eight_bits() {
    let mut m = loaded(&[19, 321, 0]);
    let (output, _) = m.run(&Vec::new(), 100);
    assert_eq!(output, vec![65u8]);
}

#[test]
fn in_reads_bytes_in_order() {
    let mut m = loaded(&[20, 32768, 20, 32769, 0]);
    let input = vec![b'A', b'B'];
    let (_, end) = m.run(&input, 100);
    assert_eq!(end, RunEnd::Halted(Halt::Explicit));
    assert_eq!(m.get_register(32768), 65);
    assert_eq!(m.get_register(32769), 66);
}

#[test]
fn in_without_input_faults_exhausted() {
    let mut m = loaded(&[20, 32768, 0]);
    let (_, end) = m.run(&Vec::new(), 100);
    assert_eq!(end, RunEnd::Faulted(Fault::InputExhausted));
}

#[test]
fn pop_on_empty_stack_faults_underflow() {
    let mut m = loaded(&[3, 32768]);
    assert_eq!(m.tick(), Err(Fault::StackUnderflow));
}

#[test]
fn resolving_operand_past_registers_faults() {
    let mut m = loaded(&[19, 32776]);
    assert_eq!(m.tick(), Err(Fault::BadOperand(32776)));
}

#[test]
fn register_write_to_non_register_faults() {
    let mut m = loaded(&[1, 5, 7]);
    assert_eq!(m.tick(), Err(Fault::BadOperand(5)));
}

#[test]
fn mod_by_zero_faults() {
    let mut m = loaded(&[11, 32768, 5, 0]);
    assert_eq!(m.tick(), Err(Fault::DivisionByZero));
}

#[test]
fn fetch_past_memory_faults() {
    // Put a no-op in the last memory cell and jump to it; the fetch after
    // it runs off the end of memory.
    let mut m = loaded(&[16, 32767, 21, 6, 32767]);
    assert_eq!(m.tick(), Ok(Event::Continue));
    assert_eq!(m.tick(), Ok(Event::Continue));
    assert_eq!(m.tick(), Ok(Event::Continue));
    assert_eq!(m.ip(), 32768);
    assert_eq!(m.tick(), Err(Fault::AddressOutOfRange(32768)));
}

#[test]
fn run_reports_running_when_fuel_runs_out() {
    let mut m = loaded(&[6, 0]); // jump to 0 forever
    let (output, end) = m.run(&Vec::new(), 1000);
    assert_eq!(output, Vec::<u8>::new());
    assert_eq!(end, RunEnd::Running);
}

#[test]
fn fresh_memory_executes_halt() {
    // Memory is zeroed, and opcode 0 is an explicit halt.
    let mut m = Machine::new();
    assert_eq!(m.tick(), Ok(Event::Halted(Halt::Explicit)));
}
