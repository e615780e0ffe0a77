//! General properties of the machine's semantics, proved once and for all
//! over the model in [`crate::model`].

use vstd::prelude::*;

use crate::model::{
    add_mod, mul_mod, not15, resolve, spec_exec, st_wf, valid_operand, write_reg, Event, Fault,
    MState, Op, MAX_LITERAL, REG_BASE,
};

verus! {

/// Resolving a literal operand yields the operand itself, whatever the
/// machine state.
pub proof fn lemma_literal_identity(s: MState, v: u16)
    requires
        v <= MAX_LITERAL,
    ensures
        resolve(s, v) == v,
{
}

/// Writing `x` to register `r` and then resolving the raw operand that
/// names that register yields `x` back.
pub proof fn lemma_write_then_resolve(s: MState, r: u16, x: u16)
    requires
        st_wf(s),
        r < 8,
    ensures
        resolve(write_reg(s, (REG_BASE + r) as u16, x), (REG_BASE + r) as u16) == x,
{
}

/// The machine's addition and multiplication are commutative, and each is
/// the exact integer operation reduced modulo 32768.
pub proof fn lemma_arith_commutes_mod(a: u16, b: u16)
    ensures
        add_mod(a, b) == add_mod(b, a),
        mul_mod(a, b) == mul_mod(b, a),
        add_mod(a, b) == (a + b) % 32768,
        mul_mod(a, b) == (a * b) % 32768,
{
    assert((a as int) * (b as int) == (b as int) * (a as int)) by (nonlinear_arith);
}

/// The 15-bit complement is an involution: applied twice it returns the
/// original 15-bit value.
pub proof fn lemma_not_involutive(v: u16)
    requires
        v <= MAX_LITERAL,
    ensures
        not15(not15(v)) == v,
{
    assert(v <= 32767 ==> ((!((!v) & 32767)) & 32767) == v) by (bit_vector);
}

/// The values a row of pop operations takes off a stack, in the order they
/// are taken, together with the stack that remains. Each pop removes the
/// top — the sequence's last element — exactly as the pop and return
/// instructions of [`spec_exec`] do.
pub open spec fn pop_values(st: Seq<u16>, n: nat) -> (Seq<u16>, Seq<u16>)
    recommends
        n <= st.len(),
    decreases n,
{
    if n == 0 || st.len() == 0 {
        (Seq::empty(), st)
    } else {
        let (vs, rest) = pop_values(st.drop_last(), (n - 1) as nat);
        (seq![st.last()] + vs, rest)
    }
}

/// The stack is last-in, first-out: after pushing the values `vs` onto any
/// stack, popping `vs.len()` values yields exactly `vs` in reverse order
/// and leaves the stack as it was.
pub proof fn lemma_stack_lifo(base: Seq<u16>, vs: Seq<u16>)
    ensures
        pop_values(base + vs, vs.len()).0 == vs.reverse(),
        pop_values(base + vs, vs.len()).1 == base,
    decreases vs.len(),
{
    if vs.len() == 0 {
        assert(base + vs =~= base);
        assert(vs.reverse() =~= Seq::<u16>::empty());
    } else {
        let st = base + vs;
        assert(st.last() == vs.last());
        assert(st.drop_last() =~= base + vs.drop_last());
        lemma_stack_lifo(base, vs.drop_last());
        assert(seq![vs.last()] + vs.drop_last().reverse() =~= vs.reverse());
    }
}

/// A call followed immediately by a return comes back: from a state whose
/// instruction pointer is the address after the encoded call (as decoding
/// leaves it), executing the call and then a return restores that address
/// exactly, along with the stack, registers and memory.
pub proof fn lemma_call_then_ret(s: MState, target: u16)
    requires
        st_wf(s),
        valid_operand(target),
    ensures
        ({
            let (s1, r1) = spec_exec(s, Op::Call(target));
            let (s2, r2) = spec_exec(s1, Op::Ret);
            &&& r1 == Ok::<Event, Fault>(Event::Continue)
            &&& r2 == Ok::<Event, Fault>(Event::Continue)
            &&& s1.ip == resolve(s, target)
            &&& s2.ip == s.ip
            &&& s2.stack == s.stack
            &&& s2.registers == s.registers
            &&& s2.memory == s.memory
        }),
{
    let (s1, r1) = spec_exec(s, Op::Call(target));
    assert(s1.stack == s.stack.push(s.ip));
    let (s2, r2) = spec_exec(s1, Op::Ret);
    assert(s1.stack.last() == s.ip);
    assert(s2.stack =~= s.stack);
}

} // verus!
