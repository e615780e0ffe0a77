//! The mathematical model of the machine: its state as plain sequences of
//! words, and the meaning of every instruction as a spec-level transition
//! function. The executable code in [`crate::machine`] is verified against
//! these definitions.

use vstd::prelude::*;

verus! {

/// Number of addressable memory words.
pub const MEM_SIZE: usize = 32768;

/// Number of general registers.
pub const NUM_REGS: usize = 8;

/// Smallest raw operand value that names a register.
pub const REG_BASE: u16 = 32768;

/// Largest literal data value (15 bits).
pub const MAX_LITERAL: u16 = 32767;

/// Largest raw operand value that is valid at all (`REG_BASE` + 7).
pub const MAX_OPERAND: u16 = 32775;

/// A decoded instruction. Each variant carries its raw argument words in
/// decode order; arguments are not yet resolved to concrete values.
#[derive(Clone, Copy, Debug, PartialEq, Eq, Structural)]
pub enum Op {
    Halt,
    SetReg(u16, u16),
    Push(u16),
    Pop(u16),
    EqCmp(u16, u16, u16),
    GtCmp(u16, u16, u16),
    Jmp(u16),
    Jt(u16, u16),
    Jf(u16, u16),
    Add(u16, u16, u16),
    Mult(u16, u16, u16),
    Mod(u16, u16, u16),
    And(u16, u16, u16),
    Or(u16, u16, u16),
    Not(u16, u16),
    Rmem(u16, u16),
    Wmem(u16, u16),
    Call(u16),
    Ret,
    Out(u16),
    In(u16),
    Noop,
    Invalid(u16),
}

/// Why the machine stopped gracefully. All three are clean terminal
/// transitions of the decode/execute loop, not faults.
#[derive(Clone, Copy, Debug, PartialEq, Eq, Structural)]
pub enum Halt {
    /// An explicit halt instruction was executed.
    Explicit,
    /// A return was executed while the stack was empty.
    EmptyStackOnRet,
    /// A word outside 0..=21 was decoded as an opcode; it is carried here.
    UnknownOpcode(u16),
}

/// A fatal fault: a condition no well-formed program reaches. Execution
/// stops; the machine state at the fault is preserved for inspection.
#[derive(Clone, Copy, Debug, PartialEq, Eq, Structural)]
pub enum Fault {
    /// A raw operand above `MAX_OPERAND` was resolved, or an out-of-range
    /// raw destination was used for a register write; carries the operand.
    BadOperand(u16),
    /// An explicit pop was executed while the stack was empty.
    StackUnderflow,
    /// The input source was exhausted while an input instruction waited.
    InputExhausted,
    /// A divisor resolved to zero in a remainder instruction.
    DivisionByZero,
    /// A memory access (instruction fetch or indirect read/write) was
    /// outside 0..=`MAX_LITERAL`; carries the offending address.
    AddressOutOfRange(u16),
}

/// What a single decode/execute step asks of its surroundings.
#[derive(Clone, Copy, Debug, PartialEq, Eq, Structural)]
pub enum Event {
    /// The instruction's whole effect is internal; keep running.
    Continue,
    /// An output instruction ran: emit this byte, then keep running.
    Output(u8),
    /// An input instruction ran: supply one byte for the raw register
    /// operand carried here (via [`crate::machine::Machine::give_input`]).
    NeedInput(u16),
    /// The machine reached a graceful terminal state.
    Halted(Halt),
}

/// How a bounded run ended.
#[derive(Clone, Copy, Debug, PartialEq, Eq, Structural)]
pub enum RunEnd {
    /// A graceful terminal state was reached.
    Halted(Halt),
    /// A fatal fault stopped execution.
    Faulted(Fault),
    /// The step bound was exhausted first; the machine could keep running.
    Running,
}

/// The machine state, as mathematics: memory and registers are sequences of
/// fixed length, the stack an unbounded sequence whose last element is its
/// top, and `ip` the address of the next word to fetch.
#[verifier::ext_equal]
pub ghost struct MState {
    pub memory: Seq<u16>,
    pub registers: Seq<u16>,
    pub stack: Seq<u16>,
    pub ip: u16,
}

/// Well-formedness: the two fixed-size arrays have their declared lengths.
pub open spec fn st_wf(s: MState) -> bool {
    &&& s.memory.len() == MEM_SIZE
    &&& s.registers.len() == NUM_REGS
}

/// The state every machine starts from: all words zero, empty stack, ip 0.
pub open spec fn init_state() -> MState {
    MState {
        memory: Seq::new(MEM_SIZE as nat, |i: int| 0u16),
        registers: Seq::new(NUM_REGS as nat, |i: int| 0u16),
        stack: Seq::empty(),
        ip: 0u16,
    }
}

/// A raw operand that is a literal data value.
pub open spec fn is_literal(v: u16) -> bool {
    v <= MAX_LITERAL
}

/// A raw operand that names a register.
pub open spec fn is_reg(v: u16) -> bool {
    REG_BASE <= v <= MAX_OPERAND
}

/// A raw operand that resolution accepts at all.
pub open spec fn valid_operand(v: u16) -> bool {
    v <= MAX_OPERAND
}

/// Addressing-mode resolution: a literal is itself; a register operand is
/// the register's contents. Meaningful only for valid operands.
pub open spec fn resolve(s: MState, v: u16) -> u16
    recommends
        valid_operand(v),
        st_wf(s),
{
    if v <= MAX_LITERAL {
        v
    } else {
        s.registers[v - REG_BASE]
    }
}

/// What resolving a raw operand returns: the concrete value, or the fault
/// for an operand above `MAX_OPERAND`.
pub open spec fn spec_value(s: MState, v: u16) -> Result<u16, Fault> {
    if v <= MAX_OPERAND {
        Ok(resolve(s, v))
    } else {
        Err(Fault::BadOperand(v))
    }
}

/// The state after writing `val` to the register named by raw operand `reg`.
pub open spec fn write_reg(s: MState, reg: u16, val: u16) -> MState
    recommends
        is_reg(reg),
{
    MState { registers: s.registers.update(reg - REG_BASE, val), ..s }
}

/// Addition reduced modulo 32768.
pub open spec fn add_mod(a: u16, b: u16) -> u16 {
    ((a + b) % (MEM_SIZE as int)) as u16
}

/// Multiplication reduced modulo 32768.
pub open spec fn mul_mod(a: u16, b: u16) -> u16 {
    ((a * b) % (MEM_SIZE as int)) as u16
}

/// Ordinary integer remainder; meaningful only for a nonzero divisor.
pub open spec fn mod_val(a: u16, b: u16) -> u16
    recommends
        b != 0,
{
    (a as int % b as int) as u16
}

/// Bitwise complement masked to 15 bits.
pub open spec fn not15(v: u16) -> u16 {
    (!v) & MAX_LITERAL
}

/// How many argument words each opcode consumes after the opcode word.
pub open spec fn op_arity(code: u16) -> nat {
    if code == 0 || code == 18 || code == 21 || code > 21 {
        0
    } else if code == 2 || code == 3 || code == 6 || code == 17 || code == 19 || code == 20 {
        1
    } else if code == 1 || code == 7 || code == 8 || code == 14 || code == 15 || code == 16 {
        2
    } else {
        3
    }
}

/// The instruction denoted by an opcode word and its argument words (of
/// which only the first `op_arity(code)` are meaningful).
pub open spec fn build_op(code: u16, a: u16, b: u16, c: u16) -> Op {
    if code == 0 {
        Op::Halt
    } else if code == 1 {
        Op::SetReg(a, b)
    } else if code == 2 {
        Op::Push(a)
    } else if code == 3 {
        Op::Pop(a)
    } else if code == 4 {
        Op::EqCmp(a, b, c)
    } else if code == 5 {
        Op::GtCmp(a, b, c)
    } else if code == 6 {
        Op::Jmp(a)
    } else if code == 7 {
        Op::Jt(a, b)
    } else if code == 8 {
        Op::Jf(a, b)
    } else if code == 9 {
        Op::Add(a, b, c)
    } else if code == 10 {
        Op::Mult(a, b, c)
    } else if code == 11 {
        Op::Mod(a, b, c)
    } else if code == 12 {
        Op::And(a, b, c)
    } else if code == 13 {
        Op::Or(a, b, c)
    } else if code == 14 {
        Op::Not(a, b)
    } else if code == 15 {
        Op::Rmem(a, b)
    } else if code == 16 {
        Op::Wmem(a, b)
    } else if code == 17 {
        Op::Call(a)
    } else if code == 18 {
        Op::Ret
    } else if code == 19 {
        Op::Out(a)
    } else if code == 20 {
        Op::In(a)
    } else if code == 21 {
        Op::Noop
    } else {
        Op::Invalid(code)
    }
}

/// Decoding one instruction: fetch the opcode at `ip`, advance past it,
/// then consume exactly `op_arity` further words. A fetch outside memory
/// faults, with `ip` left past the words already consumed.
pub open spec fn spec_decode(s: MState) -> (MState, Result<Op, Fault>)
    recommends
        st_wf(s),
{
    if s.ip > MAX_LITERAL {
        (s, Err(Fault::AddressOutOfRange(s.ip)))
    } else {
        let code = s.memory[s.ip as int];
        let s1 = MState { ip: (s.ip + 1) as u16, ..s };
        let n = op_arity(code);
        if s1.ip + n > MEM_SIZE {
            (s1, Err(Fault::AddressOutOfRange(s1.ip)))
        } else {
            let a = if n >= 1 { s.memory[s1.ip as int] } else { 0u16 };
            let b = if n >= 2 { s.memory[s1.ip + 1] } else { 0u16 };
            let c = if n >= 3 { s.memory[s1.ip + 2] } else { 0u16 };
            (MState { ip: (s1.ip + n) as u16, ..s }, Ok(build_op(code, a, b, c)))
        }
    }
}

/// The effect of one decoded instruction on a state whose `ip` already
/// points past the encoded instruction. Returns the new state and either
/// the step's event or the fault that stopped it; on a fault the state
/// reflects the partial work done before it (mirroring execution order:
/// sources are resolved left to right before the destination is checked).
pub open spec fn spec_exec(s: MState, op: Op) -> (MState, Result<Event, Fault>)
    recommends
        st_wf(s),
{
    match op {
        Op::Halt => (s, Ok(Event::Halted(Halt::Explicit))),
        Op::SetReg(a, b) => {
            if !valid_operand(b) {
                (s, Err(Fault::BadOperand(b)))
            } else if !is_reg(a) {
                (s, Err(Fault::BadOperand(a)))
            } else {
                (write_reg(s, a, resolve(s, b)), Ok(Event::Continue))
            }
        },
        Op::Push(a) => {
            if !valid_operand(a) {
                (s, Err(Fault::BadOperand(a)))
            } else {
                (MState { stack: s.stack.push(resolve(s, a)), ..s }, Ok(Event::Continue))
            }
        },
        Op::Pop(a) => {
            if s.stack.len() == 0 {
                (s, Err(Fault::StackUnderflow))
            } else {
                let s1 = MState { stack: s.stack.drop_last(), ..s };
                if !is_reg(a) {
                    (s1, Err(Fault::BadOperand(a)))
                } else {
                    (write_reg(s1, a, s.stack.last()), Ok(Event::Continue))
                }
            }
        },
        Op::EqCmp(a, b, c) => {
            if !valid_operand(b) {
                (s, Err(Fault::BadOperand(b)))
            } else if !valid_operand(c) {
                (s, Err(Fault::BadOperand(c)))
            } else if !is_reg(a) {
                (s, Err(Fault::BadOperand(a)))
            } else {
                let v = if resolve(s, b) == resolve(s, c) { 1u16 } else { 0u16 };
                (write_reg(s, a, v), Ok(Event::Continue))
            }
        },
        Op::GtCmp(a, b, c) => {
            if !valid_operand(b) {
                (s, Err(Fault::BadOperand(b)))
            } else if !valid_operand(c) {
                (s, Err(Fault::BadOperand(c)))
            } else if !is_reg(a) {
                (s, Err(Fault::BadOperand(a)))
            } else {
                let v = if resolve(s, b) > resolve(s, c) { 1u16 } else { 0u16 };
                (write_reg(s, a, v), Ok(Event::Continue))
            }
        },
        Op::Jmp(a) => {
            if !valid_operand(a) {
                (s, Err(Fault::BadOperand(a)))
            } else {
                (MState { ip: resolve(s, a), ..s }, Ok(Event::Continue))
            }
        },
        Op::Jt(a, b) => {
            if !valid_operand(a) {
                (s, Err(Fault::BadOperand(a)))
            } else if resolve(s, a) != 0 {
                if !valid_operand(b) {
                    (s, Err(Fault::BadOperand(b)))
                } else {
                    (MState { ip: resolve(s, b), ..s }, Ok(Event::Continue))
                }
            } else {
                (s, Ok(Event::Continue))
            }
        },
        Op::Jf(a, b) => {
            if !valid_operand(a) {
                (s, Err(Fault::BadOperand(a)))
            } else if resolve(s, a) == 0 {
                if !valid_operand(b) {
                    (s, Err(Fault::BadOperand(b)))
                } else {
                    (MState { ip: resolve(s, b), ..s }, Ok(Event::Continue))
                }
            } else {
                (s, Ok(Event::Continue))
            }
        },
        Op::Add(a, b, c) => {
            if !valid_operand(b) {
                (s, Err(Fault::BadOperand(b)))
            } else if !valid_operand(c) {
                (s, Err(Fault::BadOperand(c)))
            } else if !is_reg(a) {
                (s, Err(Fault::BadOperand(a)))
            } else {
                (write_reg(s, a, add_mod(resolve(s, b), resolve(s, c))), Ok(Event::Continue))
            }
        },
        Op::Mult(a, b, c) => {
            if !valid_operand(b) {
                (s, Err(Fault::BadOperand(b)))
            } else if !valid_operand(c) {
                (s, Err(Fault::BadOperand(c)))
            } else if !is_reg(a) {
                (s, Err(Fault::BadOperand(a)))
            } else {
                (write_reg(s, a, mul_mod(resolve(s, b), resolve(s, c))), Ok(Event::Continue))
            }
        },
        Op::Mod(a, b, c) => {
            if !valid_operand(b) {
                (s, Err(Fault::BadOperand(b)))
            } else if !valid_operand(c) {
                (s, Err(Fault::BadOperand(c)))
            } else if resolve(s, c) == 0 {
                (s, Err(Fault::DivisionByZero))
            } else if !is_reg(a) {
                (s, Err(Fault::BadOperand(a)))
            } else {
                (write_reg(s, a, mod_val(resolve(s, b), resolve(s, c))), Ok(Event::Continue))
            }
        },
        Op::And(a, b, c) => {
            if !valid_operand(b) {
                (s, Err(Fault::BadOperand(b)))
            } else if !valid_operand(c) {
                (s, Err(Fault::BadOperand(c)))
            } else if !is_reg(a) {
                (s, Err(Fault::BadOperand(a)))
            } else {
                (write_reg(s, a, resolve(s, b) & resolve(s, c)), Ok(Event::Continue))
            }
        },
        Op::Or(a, b, c) => {
            if !valid_operand(b) {
                (s, Err(Fault::BadOperand(b)))
            } else if !valid_operand(c) {
                (s, Err(Fault::BadOperand(c)))
            } else if !is_reg(a) {
                (s, Err(Fault::BadOperand(a)))
            } else {
                (write_reg(s, a, resolve(s, b) | resolve(s, c)), Ok(Event::Continue))
            }
        },
        Op::Not(a, b) => {
            if !valid_operand(b) {
                (s, Err(Fault::BadOperand(b)))
            } else if !is_reg(a) {
                (s, Err(Fault::BadOperand(a)))
            } else {
                (write_reg(s, a, not15(resolve(s, b))), Ok(Event::Continue))
            }
        },
        Op::Rmem(a, b) => {
            if !valid_operand(b) {
                (s, Err(Fault::BadOperand(b)))
            } else {
                let addr = resolve(s, b);
                if addr > MAX_LITERAL {
                    (s, Err(Fault::AddressOutOfRange(addr)))
                } else if !is_reg(a) {
                    (s, Err(Fault::BadOperand(a)))
                } else {
                    (write_reg(s, a, s.memory[addr as int]), Ok(Event::Continue))
                }
            }
        },
        Op::Wmem(a, b) => {
            if !valid_operand(b) {
                (s, Err(Fault::BadOperand(b)))
            } else if !valid_operand(a) {
                (s, Err(Fault::BadOperand(a)))
            } else {
                let addr = resolve(s, a);
                if addr > MAX_LITERAL {
                    (s, Err(Fault::AddressOutOfRange(addr)))
                } else {
                    (
                        MState { memory: s.memory.update(addr as int, resolve(s, b)), ..s },
                        Ok(Event::Continue),
                    )
                }
            }
        },
        Op::Call(a) => {
            let s1 = MState { stack: s.stack.push(s.ip), ..s };
            if !valid_operand(a) {
                (s1, Err(Fault::BadOperand(a)))
            } else {
                (MState { ip: resolve(s, a), ..s1 }, Ok(Event::Continue))
            }
        },
        Op::Ret => {
            if s.stack.len() == 0 {
                (s, Ok(Event::Halted(Halt::EmptyStackOnRet)))
            } else {
                (
                    MState { ip: s.stack.last(), stack: s.stack.drop_last(), ..s },
                    Ok(Event::Continue),
                )
            }
        },
        Op::Out(a) => {
            if !valid_operand(a) {
                (s, Err(Fault::BadOperand(a)))
            } else {
                (s, Ok(Event::Output((resolve(s, a) & 0xFF) as u8)))
            }
        },
        Op::In(a) => {
            if !is_reg(a) {
                (s, Err(Fault::BadOperand(a)))
            } else {
                (s, Ok(Event::NeedInput(a)))
            }
        },
        Op::Noop => (s, Ok(Event::Continue)),
        Op::Invalid(x) => (s, Ok(Event::Halted(Halt::UnknownOpcode(x)))),
    }
}

/// One full decode/execute step: decode at `ip`, then apply the
/// instruction's effect; a decode fault stops the step there.
pub open spec fn spec_tick(s: MState) -> (MState, Result<Event, Fault>)
    recommends
        st_wf(s),
{
    let (s1, d) = spec_decode(s);
    match d {
        Err(f) => (s1, Err(f)),
        Ok(op) => spec_exec(s1, op),
    }
}

/// A machine run paired with its surroundings: the input bytes not yet
/// consumed (`inp` from position `pos`), the output emitted so far, and,
/// once the run has ended, how it ended.
#[verifier::ext_equal]
pub ghost struct RunState {
    pub m: MState,
    pub inp: Seq<u8>,
    pub pos: nat,
    pub out: Seq<u8>,
    pub done: Option<Result<Halt, Fault>>,
}

/// The run state a run begins from.
pub open spec fn run_start(m: MState, inp: Seq<u8>) -> RunState {
    RunState { m, inp, pos: 0, out: Seq::empty(), done: None }
}

/// One step of a driven run: a finished run stays as it is; otherwise the
/// machine ticks once and the step's event is played out against the input
/// and output streams. Requesting input past the end of the stream ends the
/// run with an exhausted-input fault.
pub open spec fn io_step(rs: RunState) -> RunState {
    if rs.done is Some {
        rs
    } else {
        let (m2, r) = spec_tick(rs.m);
        match r {
            Err(f) => RunState { m: m2, done: Some(Err(f)), ..rs },
            Ok(Event::Continue) => RunState { m: m2, ..rs },
            Ok(Event::Output(b)) => RunState { m: m2, out: rs.out.push(b), ..rs },
            Ok(Event::NeedInput(reg)) => {
                if rs.pos < rs.inp.len() {
                    RunState {
                        m: write_reg(m2, reg, rs.inp[rs.pos as int] as u16),
                        pos: rs.pos + 1,
                        ..rs
                    }
                } else {
                    RunState { m: m2, done: Some(Err(Fault::InputExhausted)), ..rs }
                }
            },
            Ok(Event::Halted(h)) => RunState { m: m2, done: Some(Ok(h)), ..rs },
        }
    }
}

/// The run state after `k` driven steps.
pub open spec fn run_steps(init: RunState, k: nat) -> RunState
    decreases k,
{
    if k == 0 {
        init
    } else {
        io_step(run_steps(init, (k - 1) as nat))
    }
}

/// A finished run stays finished: once `done` is set after `j` steps, any
/// number of further steps leaves the run state exactly as it is.
pub proof fn lemma_run_steps_frozen(init: RunState, j: nat, k: nat)
    requires
        j <= k,
        run_steps(init, j).done is Some,
    ensures
        run_steps(init, k) == run_steps(init, j),
    decreases k,
{
    if j < k {
        lemma_run_steps_frozen(init, j, (k - 1) as nat);
    }
}

/// How a bounded run reports the `done` field of its final run state.
pub open spec fn run_end_of(done: Option<Result<Halt, Fault>>) -> RunEnd {
    match done {
        None => RunEnd::Running,
        Some(Ok(h)) => RunEnd::Halted(h),
        Some(Err(f)) => RunEnd::Faulted(f),
    }
}

/// The word formed from two consecutive image bytes, little-endian.
pub open spec fn word_at(image: Seq<u8>, j: int) -> u16
    recommends
        0 <= j,
        2 * j + 1 < image.len(),
{
    (image[2 * j] + 256 * image[2 * j + 1]) as u16
}

/// The state after loading a program image: pairs of bytes become
/// little-endian words from address 0; an odd trailing byte is ignored;
/// memory past the image, and all other state, is unchanged.
pub open spec fn load_state(s: MState, image: Seq<u8>) -> MState
    recommends
        st_wf(s),
        image.len() <= 2 * MEM_SIZE,
{
    MState {
        memory: Seq::new(
            s.memory.len(),
            |j: int|
                if j < image.len() / 2 {
                    word_at(image, j)
                } else {
                    s.memory[j]
                },
        ),
        ..s
    }
}

} // verus!
