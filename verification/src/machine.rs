//! The executable machine. Every method is specified against the model in
//! [`crate::model`] and verified: `tick` performs exactly one step of
//! [`crate::model::spec_tick`], and `run` drives the machine against
//! in-memory input and output streams.

use vstd::pervasive::VecAdditionalExecFns;
use vstd::prelude::*;

use crate::model::{
    add_mod, init_state, io_step, is_reg, lemma_run_steps_frozen, load_state, mul_mod, op_arity,
    run_end_of, run_start, run_steps, spec_decode, spec_tick, spec_value, st_wf, word_at,
    write_reg, Event, Fault, Halt, MState, Op, RunEnd, MAX_LITERAL, MAX_OPERAND, MEM_SIZE,
    NUM_REGS, REG_BASE,
};

verus! {

/// A virtual machine: 32768 words of memory, 8 registers, an unbounded
/// word stack, and an instruction pointer.
pub struct Machine {
    memory: Vec<u16>,
    registers: Vec<u16>,
    stack: Vec<u16>,
    ip: u16,
}

impl View for Machine {
    type V = MState;

    closed spec fn view(&self) -> MState {
        MState {
            memory: self.memory@,
            registers: self.registers@,
            stack: self.stack@,
            ip: self.ip,
        }
    }
}

impl Machine {
    /// The machine's invariant: memory and register file have their fixed
    /// sizes. Established by `new` and preserved by every method.
    pub open spec fn wf(self) -> bool {
        st_wf(self@)
    }

    /// Constructs a new, pristine machine: all memory and registers zero,
    /// an empty stack, and the instruction pointer at address 0.
    pub fn new() -> (m: Machine)
        ensures
            m.wf(),
            m@ == init_state(),
    {
        let mut memory: Vec<u16> = Vec::new();
        while memory.len() < MEM_SIZE
            invariant
                memory@.len() <= MEM_SIZE,
                forall|i: int| 0 <= i < memory@.len() ==> memory@[i] == 0u16,
            decreases MEM_SIZE - memory@.len(),
        {
            memory.push(0u16);
        }
        let mut registers: Vec<u16> = Vec::new();
        while registers.len() < NUM_REGS
            invariant
                registers@.len() <= NUM_REGS,
                forall|i: int| 0 <= i < registers@.len() ==> registers@[i] == 0u16,
            decreases NUM_REGS - registers@.len(),
        {
            registers.push(0u16);
        }
        let m = Machine { memory, registers, stack: Vec::new(), ip: 0 };
        proof {
            assert(m@ =~= init_state());
        }
        m
    }

    /// Reads the word at the instruction pointer and advances it by one.
    /// The caller must know the pointer is inside memory.
    fn fetch(&mut self) -> (r: u16)
        requires
            old(self).wf(),
            old(self)@.ip <= MAX_LITERAL,
        ensures
            final(self).wf(),
            r == old(self)@.memory[old(self)@.ip as int],
            final(self)@ == (MState { ip: (old(self)@.ip + 1) as u16, ..old(self)@ }),
    {
        let w = self.memory[self.ip as usize];
        self.ip = self.ip + 1;
        w
    }

    /// Reads the word at the instruction pointer and advances past it, or
    /// reports the fetch fault when the pointer has left memory.
    pub fn next(&mut self) -> (r: Result<u16, Fault>)
        requires
            old(self).wf(),
        ensures
            final(self).wf(),
            old(self)@.ip <= MAX_LITERAL ==> r == Ok::<u16, Fault>(
                old(self)@.memory[old(self)@.ip as int],
            ) && final(self)@ == (MState { ip: (old(self)@.ip + 1) as u16, ..old(self)@ }),
            old(self)@.ip > MAX_LITERAL ==> r == Err::<u16, Fault>(
                Fault::AddressOutOfRange(old(self)@.ip),
            ) && final(self)@ == old(self)@,
    {
        if self.ip <= MAX_LITERAL {
            Ok(self.fetch())
        } else {
            Err(Fault::AddressOutOfRange(self.ip))
        }
    }

    /// The contents of the register named by raw operand `reg`.
    pub fn get_register(&self, reg: u16) -> (r: u16)
        requires
            self.wf(),
            is_reg(reg),
        ensures
            r == self@.registers[reg - REG_BASE],
    {
        self.registers[(reg - REG_BASE) as usize]
    }

    /// Writes `val` to the register named by raw operand `reg`.
    pub fn set_register(&mut self, reg: u16, val: u16)
        requires
            old(self).wf(),
            is_reg(reg),
        ensures
            final(self).wf(),
            final(self)@ == write_reg(old(self)@, reg, val),
    {
        self.registers.set((reg - REG_BASE) as usize, val);
    }

    /// Resolves a raw operand: a value up to `MAX_LITERAL` is itself, one
    /// up to `MAX_OPERAND` names a register whose contents are returned,
    /// and anything above that is a fault.
    pub fn value(&self, arg: u16) -> (r: Result<u16, Fault>)
        requires
            self.wf(),
        ensures
            r == spec_value(self@, arg),
            arg <= MAX_LITERAL ==> r == Ok::<u16, Fault>(arg),
            is_reg(arg) ==> r == Ok::<u16, Fault>(self@.registers[arg - REG_BASE]),
            arg > MAX_OPERAND ==> r == Err::<u16, Fault>(Fault::BadOperand(arg)),
    {
        if arg <= MAX_LITERAL {
            Ok(arg)
        } else if arg <= MAX_OPERAND {
            Ok(self.get_register(arg))
        } else {
            Err(Fault::BadOperand(arg))
        }
    }

    /// Adds two words modulo 32768.
    pub fn add(&self, a: u16, b: u16) -> (r: u16)
        ensures
            r == add_mod(a, b),
            r <= MAX_LITERAL,
    {
        (((a as u32) + (b as u32)) % 32768) as u16
    }

    /// Multiplies two words modulo 32768.
    pub fn mult(&self, a: u16, b: u16) -> (r: u16)
        ensures
            r == mul_mod(a, b),
            r <= MAX_LITERAL,
    {
        proof {
            assert((a as int) * (b as int) <= 65535 * 65535) by (nonlinear_arith)
                requires
                    a <= 65535,
                    b <= 65535,
            ;
            assert((a as int) * (b as int) >= 0) by (nonlinear_arith);
        }
        (((a as u32) * (b as u32)) % 32768) as u16
    }

    /// Decodes the next instruction, advancing the instruction pointer
    /// past the opcode word and exactly as many argument words as the
    /// opcode requires. A fetch outside memory is the fault case.
    pub fn decode(&mut self) -> (r: Result<Op, Fault>)
        requires
            old(self).wf(),
        ensures
            final(self).wf(),
            final(self)@ == spec_decode(old(self)@).0,
            r == spec_decode(old(self)@).1,
    {
        let code = match self.next() {
            Ok(w) => w,
            Err(f) => {
                return Err(f);
            },
        };
        let n = arity(code);
        if self.ip as usize + n > MEM_SIZE {
            return Err(Fault::AddressOutOfRange(self.ip));
        }
        let op = if code == 0 {
            Op::Halt
        } else if code == 1 {
            let a = self.fetch();
            let b = self.fetch();
            Op::SetReg(a, b)
        } else if code == 2 {
            let a = self.fetch();
            Op::Push(a)
        } else if code == 3 {
            let a = self.fetch();
            Op::Pop(a)
        } else if code == 4 {
            let a = self.fetch();
            let b = self.fetch();
            let c = self.fetch();
            Op::EqCmp(a, b, c)
        } else if code == 5 {
            let a = self.fetch();
            let b = self.fetch();
            let c = self.fetch();
            Op::GtCmp(a, b, c)
        } else if code == 6 {
            let a = self.fetch();
            Op::Jmp(a)
        } else if code == 7 {
            let a = self.fetch();
            let b = self.fetch();
            Op::Jt(a, b)
        } else if code == 8 {
            let a = self.fetch();
            let b = self.fetch();
            Op::Jf(a, b)
        } else if code == 9 {
            let a = self.fetch();
            let b = self.fetch();
            let c = self.fetch();
            Op::Add(a, b, c)
        } else if code == 10 {
            let a = self.fetch();
            let b = self.fetch();
            let c = self.fetch();
            Op::Mult(a, b, c)
        } else if code == 11 {
            let a = self.fetch();
            let b = self.fetch();
            let c = self.fetch();
            Op::Mod(a, b, c)
        } else if code == 12 {
            let a = self.fetch();
            let b = self.fetch();
            let c = self.fetch();
            Op::And(a, b, c)
        } else if code == 13 {
            let a = self.fetch();
            let b = self.fetch();
            let c = self.fetch();
            Op::Or(a, b, c)
        } else if code == 14 {
            let a = self.fetch();
            let b = self.fetch();
            Op::Not(a, b)
        } else if code == 15 {
            let a = self.fetch();
            let b = self.fetch();
            Op::Rmem(a, b)
        } else if code == 16 {
            let a = self.fetch();
            let b = self.fetch();
            Op::Wmem(a, b)
        } else if code == 17 {
            let a = self.fetch();
            Op::Call(a)
        } else if code == 18 {
            Op::Ret
        } else if code == 19 {
            let a = self.fetch();
            Op::Out(a)
        } else if code == 20 {
            let a = self.fetch();
            Op::In(a)
        } else if code == 21 {
            Op::Noop
        } else {
            Op::Invalid(code)
        };
        Ok(op)
    }

    /// Decodes and runs one instruction: one step of the machine, exactly
    /// as [`spec_tick`] describes it. The event says what the step asks of
    /// the surroundings; a fault stops execution with the state preserved.
    pub fn tick(&mut self) -> (r: Result<Event, Fault>)
        requires
            old(self).wf(),
        ensures
            final(self).wf(),
            final(self)@ == spec_tick(old(self)@).0,
            r == spec_tick(old(self)@).1,
            r matches Ok(Event::NeedInput(reg)) ==> is_reg(reg),
    {
        let op = match self.decode() {
            Ok(op) => op,
            Err(f) => {
                return Err(f);
            },
        };
        match op {
            Op::Halt => Ok(Event::Halted(Halt::Explicit)),
            Op::SetReg(a, b) => {
                let val = match self.value(b) {
                    Ok(v) => v,
                    Err(f) => {
                        return Err(f);
                    },
                };
                if !(REG_BASE <= a && a <= MAX_OPERAND) {
                    return Err(Fault::BadOperand(a));
                }
                self.set_register(a, val);
                Ok(Event::Continue)
            },
            Op::Push(a) => {
                let val = match self.value(a) {
                    Ok(v) => v,
                    Err(f) => {
                        return Err(f);
                    },
                };
                self.stack.push(val);
                Ok(Event::Continue)
            },
            Op::Pop(a) => {
                let top = match self.stack.pop() {
                    Some(t) => t,
                    None => {
                        return Err(Fault::StackUnderflow);
                    },
                };
                if !(REG_BASE <= a && a <= MAX_OPERAND) {
                    return Err(Fault::BadOperand(a));
                }
                self.set_register(a, top);
                Ok(Event::Continue)
            },
            Op::EqCmp(a, b, c) => {
                let vb = match self.value(b) {
                    Ok(v) => v,
                    Err(f) => {
                        return Err(f);
                    },
                };
                let vc = match self.value(c) {
                    Ok(v) => v,
                    Err(f) => {
                        return Err(f);
                    },
                };
                if !(REG_BASE <= a && a <= MAX_OPERAND) {
                    return Err(Fault::BadOperand(a));
                }
                self.set_register(a, if vb == vc { 1 } else { 0 });
                Ok(Event::Continue)
            },
            Op::GtCmp(a, b, c) => {
                let vb = match self.value(b) {
                    Ok(v) => v,
                    Err(f) => {
                        return Err(f);
                    },
                };
                let vc = match self.value(c) {
                    Ok(v) => v,
                    Err(f) => {
                        return Err(f);
                    },
                };
                if !(REG_BASE <= a && a <= MAX_OPERAND) {
                    return Err(Fault::BadOperand(a));
                }
                self.set_register(a, if vb > vc { 1 } else { 0 });
                Ok(Event::Continue)
            },
            Op::Jmp(a) => {
                let va = match self.value(a) {
                    Ok(v) => v,
                    Err(f) => {
                        return Err(f);
                    },
                };
                self.ip = va;
                Ok(Event::Continue)
            },
            Op::Jt(a, b) => {
                let va = match self.value(a) {
                    Ok(v) => v,
                    Err(f) => {
                        return Err(f);
                    },
                };
                if va != 0 {
                    let vb = match self.value(b) {
                        Ok(v) => v,
                        Err(f) => {
                            return Err(f);
                        },
                    };
                    self.ip = vb;
                }
                Ok(Event::Continue)
            },
            Op::Jf(a, b) => {
                let va = match self.value(a) {
                    Ok(v) => v,
                    Err(f) => {
                        return Err(f);
                    },
                };
                if va == 0 {
                    let vb = match self.value(b) {
                        Ok(v) => v,
                        Err(f) => {
                            return Err(f);
                        },
                    };
                    self.ip = vb;
                }
                Ok(Event::Continue)
            },
            Op::Add(a, b, c) => {
                let vb = match self.value(b) {
                    Ok(v) => v,
                    Err(f) => {
                        return Err(f);
                    },
                };
                let vc = match self.value(c) {
                    Ok(v) => v,
                    Err(f) => {
                        return Err(f);
                    },
                };
                if !(REG_BASE <= a && a <= MAX_OPERAND) {
                    return Err(Fault::BadOperand(a));
                }
                let sum = self.add(vb, vc);
                self.set_register(a, sum);
                Ok(Event::Continue)
            },
            Op::Mult(a, b, c) => {
                let vb = match self.value(b) {
                    Ok(v) => v,
                    Err(f) => {
                        return Err(f);
                    },
                };
                let vc = match self.value(c) {
                    Ok(v) => v,
                    Err(f) => {
                        return Err(f);
                    },
                };
                if !(REG_BASE <= a && a <= MAX_OPERAND) {
                    return Err(Fault::BadOperand(a));
                }
                let prod = self.mult(vb, vc);
                self.set_register(a, prod);
                Ok(Event::Continue)
            },
            Op::Mod(a, b, c) => {
                let vb = match self.value(b) {
                    Ok(v) => v,
                    Err(f) => {
                        return Err(f);
                    },
                };
                let vc = match self.value(c) {
                    Ok(v) => v,
                    Err(f) => {
                        return Err(f);
                    },
                };
                if vc == 0 {
                    return Err(Fault::DivisionByZero);
                }
                if !(REG_BASE <= a && a <= MAX_OPERAND) {
                    return Err(Fault::BadOperand(a));
                }
                self.set_register(a, vb % vc);
                Ok(Event::Continue)
            },
            Op::And(a, b, c) => {
                let vb = match self.value(b) {
                    Ok(v) => v,
                    Err(f) => {
                        return Err(f);
                    },
                };
                let vc = match self.value(c) {
                    Ok(v) => v,
                    Err(f) => {
                        return Err(f);
                    },
                };
                if !(REG_BASE <= a && a <= MAX_OPERAND) {
                    return Err(Fault::BadOperand(a));
                }
                self.set_register(a, vb & vc);
                Ok(Event::Continue)
            },
            Op::Or(a, b, c) => {
                let vb = match self.value(b) {
                    Ok(v) => v,
                    Err(f) => {
                        return Err(f);
                    },
                };
                let vc = match self.value(c) {
                    Ok(v) => v,
                    Err(f) => {
                        return Err(f);
                    },
                };
                if !(REG_BASE <= a && a <= MAX_OPERAND) {
                    return Err(Fault::BadOperand(a));
                }
                self.set_register(a, vb | vc);
                Ok(Event::Continue)
            },
            Op::Not(a, b) => {
                let vb = match self.value(b) {
                    Ok(v) => v,
                    Err(f) => {
                        return Err(f);
                    },
                };
                if !(REG_BASE <= a && a <= MAX_OPERAND) {
                    return Err(Fault::BadOperand(a));
                }
                self.set_register(a, (!vb) & MAX_LITERAL);
                Ok(Event::Continue)
            },
            Op::Rmem(a, b) => {
                let addr = match self.value(b) {
                    Ok(v) => v,
                    Err(f) => {
                        return Err(f);
                    },
                };
                if addr > MAX_LITERAL {
                    return Err(Fault::AddressOutOfRange(addr));
                }
                let val = self.memory[addr as usize];
                if !(REG_BASE <= a && a <= MAX_OPERAND) {
                    return Err(Fault::BadOperand(a));
                }
                self.set_register(a, val);
                Ok(Event::Continue)
            },
            Op::Wmem(a, b) => {
                let val = match self.value(b) {
                    Ok(v) => v,
                    Err(f) => {
                        return Err(f);
                    },
                };
                let addr = match self.value(a) {
                    Ok(v) => v,
                    Err(f) => {
                        return Err(f);
                    },
                };
                if addr > MAX_LITERAL {
                    return Err(Fault::AddressOutOfRange(addr));
                }
                self.memory.set(addr as usize, val);
                Ok(Event::Continue)
            },
            Op::Call(a) => {
                self.stack.push(self.ip);
                let va = match self.value(a) {
                    Ok(v) => v,
                    Err(f) => {
                        return Err(f);
                    },
                };
                self.ip = va;
                Ok(Event::Continue)
            },
            Op::Ret => {
                match self.stack.pop() {
                    Some(addr) => {
                        self.ip = addr;
                        Ok(Event::Continue)
                    },
                    None => Ok(Event::Halted(Halt::EmptyStackOnRet)),
                }
            },
            Op::Out(a) => {
                let va = match self.value(a) {
                    Ok(v) => v,
                    Err(f) => {
                        return Err(f);
                    },
                };
                proof {
                    assert(va & 0xFF < 256) by (bit_vector);
                }
                Ok(Event::Output((va & 0xFF) as u8))
            },
            Op::In(a) => {
                if !(REG_BASE <= a && a <= MAX_OPERAND) {
                    return Err(Fault::BadOperand(a));
                }
                Ok(Event::NeedInput(a))
            },
            Op::Noop => Ok(Event::Continue),
            Op::Invalid(x) => Ok(Event::Halted(Halt::UnknownOpcode(x))),
        }
    }

    /// Loads a program image into memory: consecutive byte pairs become
    /// little-endian words starting at address 0; an odd trailing byte is
    /// ignored. Registers, stack, the instruction pointer, and memory past
    /// the image keep their contents.
    pub fn load(&mut self, image: &Vec<u8>)
        requires
            old(self).wf(),
            image@.len() <= 2 * MEM_SIZE,
        ensures
            final(self).wf(),
            final(self)@ == load_state(old(self)@, image@),
    {
        let ghost s0 = self@;
        let mut i: usize = 0;
        while i + 1 < image.len()
            invariant
                st_wf(self@),
                self@.registers == s0.registers,
                self@.stack == s0.stack,
                self@.ip == s0.ip,
                image@.len() <= 2 * MEM_SIZE,
                i % 2 == 0,
                i <= image@.len(),
                forall|j: int| 0 <= j < i / 2 ==> self@.memory[j] == word_at(image@, j),
                forall|j: int| i / 2 <= j < MEM_SIZE ==> self@.memory[j] == s0.memory[j],
            decreases image@.len() - i,
        {
            let lo = image[i];
            let hi = image[i + 1];
            let w = (lo as u16) | ((hi as u16) << 8);
            proof {
                assert((lo as u16) | ((hi as u16) << 8) == (lo as u16) + 256 * (hi as u16))
                    by (bit_vector)
                    requires
                        lo as u16 <= 255,
                        hi as u16 <= 255,
                ;
            }
            self.memory.set(i / 2, w);
            i = i + 2;
        }
        proof {
            assert(i / 2 == image@.len() / 2);
            assert(self@.memory =~= load_state(s0, image@).memory);
            assert(self@ =~= load_state(s0, image@));
        }
    }

    /// Completes an input instruction: stores one input byte, zero-extended
    /// to a word, into the register named by raw operand `reg` (as handed
    /// out in [`Event::NeedInput`]).
    pub fn give_input(&mut self, reg: u16, byte: u8)
        requires
            old(self).wf(),
            is_reg(reg),
        ensures
            final(self).wf(),
            final(self)@ == write_reg(old(self)@, reg, byte as u16),
    {
        self.set_register(reg, byte as u16);
    }

    /// Runs the machine for at most `max_steps` instructions against an
    /// in-memory input stream, collecting the output bytes. Exactly the
    /// driven run the model describes: the result and final state are
    /// those of [`run_steps`] from [`run_start`] after `max_steps` steps.
    pub fn run(&mut self, input: &Vec<u8>, max_steps: u64) -> (r: (Vec<u8>, RunEnd))
        requires
            old(self).wf(),
        ensures
            final(self).wf(),
            ({
                let rs = run_steps(run_start(old(self)@, input@), max_steps as nat);
                &&& final(self)@ == rs.m
                &&& r.0@ == rs.out
                &&& r.1 == run_end_of(rs.done)
            }),
    {
        let ghost init = run_start(old(self)@, input@);
        let mut out: Vec<u8> = Vec::new();
        let mut pos: usize = 0;
        let mut steps: u64 = 0;
        while steps < max_steps
            invariant
                self.wf(),
                steps <= max_steps,
                pos <= input@.len(),
                init == run_start(old(self)@, input@),
                ({
                    let rs = run_steps(init, steps as nat);
                    &&& rs.done is None
                    &&& rs.m == self@
                    &&& rs.out == out@
                    &&& rs.pos == pos
                    &&& rs.inp == input@
                }),
            decreases max_steps - steps,
        {
            let ghost pre = run_steps(init, steps as nat);
            proof {
                assert(run_steps(init, (steps + 1) as nat) == io_step(pre));
            }
            match self.tick() {
                Err(f) => {
                    proof {
                        lemma_run_steps_frozen(init, (steps + 1) as nat, max_steps as nat);
                    }
                    return (out, RunEnd::Faulted(f));
                },
                Ok(Event::Continue) => {},
                Ok(Event::Output(b)) => {
                    out.push(b);
                },
                Ok(Event::NeedInput(reg)) => {
                    if pos < input.len() {
                        let byte = input[pos];
                        pos = pos + 1;
                        self.give_input(reg, byte);
                    } else {
                        proof {
                            lemma_run_steps_frozen(init, (steps + 1) as nat, max_steps as nat);
                        }
                        return (out, RunEnd::Faulted(Fault::InputExhausted));
                    }
                },
                Ok(Event::Halted(h)) => {
                    proof {
                        lemma_run_steps_frozen(init, (steps + 1) as nat, max_steps as nat);
                    }
                    return (out, RunEnd::Halted(h));
                },
            }
            steps = steps + 1;
        }
        (out, RunEnd::Running)
    }

    /// How many words the stack currently holds.
    pub fn stack_len(&self) -> (n: usize)
        ensures
            n == self@.stack.len(),
    {
        self.stack.len()
    }

    /// The word in memory at `addr`.
    pub fn read_mem(&self, addr: u16) -> (r: u16)
        requires
            self.wf(),
            addr <= MAX_LITERAL,
        ensures
            r == self@.memory[addr as int],
    {
        self.memory[addr as usize]
    }

    /// The address of the next word the machine will fetch.
    pub fn ip(&self) -> (r: u16)
        ensures
            r == self@.ip,
    {
        self.ip
    }
}

/// How many argument words the opcode consumes, mirroring
/// [`crate::model::op_arity`].
fn arity(code: u16) -> (n: usize)
    ensures
        n == op_arity(code),
{
    if code == 0 || code == 18 || code == 21 || code > 21 {
        0
    } else if code == 2 || code == 3 || code == 6 || code == 17 || code == 19 || code == 20 {
        1
    } else if code == 1 || code == 7 || code == 8 || code == 14 || code == 15 || code == 16 {
        2
    } else {
        3
    }
}

} // verus!
