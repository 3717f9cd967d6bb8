//! System-wide facts proved over the processor's transition model: the
//! closed machine of CPU plus flat memory, and the laws that hold of its
//! multi-cycle behaviour.

use vstd::prelude::*;

use crate::bits::{wadd16, wadd8, wsub16, wsub8};
use crate::cpu::model::{
    flag_on, s_add_with_carry, s_branch_target, s_compare, s_decode, s_sub_with_carry, s_tick,
    set_zn, stack_addr,
};
use crate::cpu::{CPUPins, Instr, ReadWrite, CPU, FLAG_C, FLAG_I, FLAG_N, FLAG_V, FLAG_Z};

verus! {

// ---------------------------------------------------------------------------
// The closed machine: CPU and a 64 KiB flat memory
// ---------------------------------------------------------------------------

/// How a flat memory resolves the pin record: a read fills the data pins,
/// a write lands in memory.
pub open spec fn s_bus(mem: Seq<u8>, p: CPUPins) -> (Seq<u8>, CPUPins)
    recommends
        mem.len() == 0x10000,
{
    match p.rw {
        ReadWrite::R => (mem, CPUPins { data: mem[p.address as int], ..p }),
        ReadWrite::W => (mem.update(p.address as int, p.data), p),
    }
}

/// One machine cycle: the CPU ticks, then the memory resolves the pins.
pub open spec fn s_step(c: CPU, p: CPUPins, mem: Seq<u8>) -> (CPU, CPUPins, Seq<u8>) {
    let (c1, p1) = s_tick(c, p);
    let (m2, p2) = s_bus(mem, p1);
    (c1, p2, m2)
}

/// The machine after `n` cycles.
pub open spec fn s_run(c: CPU, p: CPUPins, mem: Seq<u8>, n: nat) -> (CPU, CPUPins, Seq<u8>)
    decreases n,
{
    if n == 0 {
        (c, p, mem)
    } else {
        let (c1, p1, m1) = s_step(c, p, mem);
        s_run(c1, p1, m1, (n - 1) as nat)
    }
}

/// The CPU sits at an instruction boundary with no interrupt pending.
pub open spec fn fetch_ready(c: CPU) -> bool {
    &&& c.state is Fetch
    &&& c.counter.value == 0
    &&& !c.nmi_pending
    &&& !c.irq_pending
}

/// The CPU sits at an instruction boundary.
pub open spec fn complete(c: CPU) -> bool {
    c.state is Fetch && c.counter.value == 0
}

// ---------------------------------------------------------------------------
// Flag bookkeeping facts
// ---------------------------------------------------------------------------

/// The carry/zero/negative/overflow chain written by the adder isolates
/// each flag: afterwards every one of the four bits reads back exactly the
/// condition that was stored, and the remaining bits are untouched.
proof fn lemma_flag_chain_cznv(p: u8, c: bool, z: bool, n: bool, v: bool)
    by (bit_vector)
    ensures
        ({
            let p1 = if c { p | 0x01 } else { p & !0x01 };
            let p2 = if z { p1 | 0x02 } else { p1 & !0x02 };
            let p3 = if n { p2 | 0x80 } else { p2 & !0x80 };
            let p4 = if v { p3 | 0x40 } else { p3 & !0x40 };
            &&& ((p4 & 0x01) != 0) == c
            &&& ((p4 & 0x02) != 0) == z
            &&& ((p4 & 0x80) != 0) == n
            &&& ((p4 & 0x40) != 0) == v
            &&& (p4 & 0x04) == (p & 0x04)
            &&& (p4 & 0x08) == (p & 0x08)
            &&& (p4 & 0x10) == (p & 0x10)
        }),
{
}

/// Setting Z then N from a result byte isolates the two bits and leaves
/// the rest of the status byte alone.
proof fn lemma_zn_chain(p: u8, z: bool, n: bool)
    by (bit_vector)
    ensures
        ({
            let p1 = if z { p | 0x02 } else { p & !0x02 };
            let p2 = if n { p1 | 0x80 } else { p1 & !0x80 };
            &&& ((p2 & 0x02) != 0) == z
            &&& ((p2 & 0x80) != 0) == n
            &&& (p2 & 0x01) == (p & 0x01)
            &&& (p2 & 0x04) == (p & 0x04)
            &&& (p2 & 0x08) == (p & 0x08)
            &&& (p2 & 0x10) == (p & 0x10)
            &&& (p2 & 0x40) == (p & 0x40)
        }),
{
}

/// Z and N after `set_zn` read back the stored conditions.
pub proof fn lemma_set_zn(p: u8, v: u8)
    ensures
        flag_on(set_zn(p, v), FLAG_Z) == (v == 0),
        flag_on(set_zn(p, v), FLAG_N) == ((v & 0x80) != 0),
        set_zn(p, v) & FLAG_C == p & FLAG_C,
        set_zn(p, v) & FLAG_V == p & FLAG_V,
        set_zn(p, v) & FLAG_I == p & FLAG_I,
{
    lemma_zn_chain(p, v == 0, (v & 0x80) != 0);
}

// ---------------------------------------------------------------------------
// Laws of the arithmetic core
// ---------------------------------------------------------------------------

/// Law: for every input `(A, M, C_in)`, add-with-carry returns the low
/// eight bits of the true sum; the carry-out marks a sum over 255; Z and N
/// describe the result byte; and the overflow flag follows the sign
/// identity `(~(A ^ M) & (A ^ R)) & 0x80`.
pub proof fn lemma_adc_matches_arithmetic(c: CPU, m: u8)
    ensures
        ({
            let cin: int = if flag_on(c.ps, FLAG_C) {
                1int
            } else {
                0int
            };
            let sum = c.a + m + cin;
            let c2 = s_add_with_carry(c, m);
            &&& c2.a == sum % 256
            &&& flag_on(c2.ps, FLAG_C) == (sum > 255)
            &&& flag_on(c2.ps, FLAG_Z) == (c2.a == 0)
            &&& flag_on(c2.ps, FLAG_N) == (c2.a >= 128)
            &&& flag_on(c2.ps, FLAG_V) == (((!(c.a ^ m)) & (c.a ^ c2.a)) & 0x80 != 0)
            &&& c2.pc == c.pc && c2.sp == c.sp && c2.x == c.x && c2.y == c.y
        }),
{
    crate::bits::lemma_byte_bits();
    let cin: int = if flag_on(c.ps, FLAG_C) {
        1int
    } else {
        0int
    };
    let sum = c.a + m + cin;
    let c2 = s_add_with_carry(c, m);
    let r = c2.a;
    lemma_flag_chain_cznv(c.ps, sum > 255, r == 0, (r & 0x80) != 0, ((!(c.a ^ m)) & (c.a ^ r))
        & 0x80 != 0);
}

/// Law: subtract-with-carry is add-with-carry of the one's complement of
/// the operand; this is how the adder serves both instructions.
pub proof fn lemma_sbc_is_adc_of_complement(c: CPU, m: u8)
    ensures
        s_sub_with_carry(c, m) == s_add_with_carry(c, (m ^ 0xFF) as u8),
{
}

/// Law: a compare leaves the register untouched and sets C exactly when
/// the register is at least the operand, Z exactly on equality, and N
/// from bit 7 of the wrapped difference.
pub proof fn lemma_compare_flags(c: CPU, r: u8, m: u8)
    ensures
        ({
            let c2 = s_compare(c, r, m);
            &&& flag_on(c2.ps, FLAG_C) == (r >= m)
            &&& flag_on(c2.ps, FLAG_Z) == (r == m)
            &&& flag_on(c2.ps, FLAG_N) == (wsub8(r, m) >= 128)
            &&& c2.a == c.a && c2.x == c.x && c2.y == c.y && c2.pc == c.pc && c2.sp == c.sp
        }),
{
    let t = wsub16(r as u16, m as u16);
    let d = wsub8(r, m);
    assert((t & 0xFF) == 0 <==> (t as int) % 256 == 0) by (bit_vector);
    assert((t & 0x80) != 0 <==> (t as int) % 256 >= 128) by (bit_vector);
    lemma_flag_chain_cz_n(c.ps, r >= m, (t & 0xFF) == 0, (t & 0x80) != 0);
}

/// The carry/zero/negative chain of the comparator isolates its bits.
proof fn lemma_flag_chain_cz_n(p: u8, c: bool, z: bool, n: bool)
    by (bit_vector)
    ensures
        ({
            let p1 = if c { p | 0x01 } else { p & !0x01 };
            let p2 = if z { p1 | 0x02 } else { p1 & !0x02 };
            let p3 = if n { p2 | 0x80 } else { p2 & !0x80 };
            &&& ((p3 & 0x01) != 0) == c
            &&& ((p3 & 0x02) != 0) == z
            &&& ((p3 & 0x80) != 0) == n
        }),
{
}

// ---------------------------------------------------------------------------
// Law: branch targets
// ---------------------------------------------------------------------------

/// Law: a taken branch lands at the address of its offset byte, plus one,
/// plus the sign-extended offset, modulo 2^16.
pub proof fn lemma_branch_target(pc_of_offset: u16, off: u8)
    ensures
        ({
            let se: int = if off < 0x80 {
                off as int
            } else {
                off - 256
            };
            s_branch_target(wadd16(pc_of_offset, 1), off) == (pc_of_offset + 1 + se) % 0x10000
        }),
{
}

// ---------------------------------------------------------------------------
// Law: interrupt gating at the fetch boundary
// ---------------------------------------------------------------------------

/// Law: with only a maskable interrupt pending at an instruction
/// boundary, the interrupt is taken exactly when the interrupt-disable
/// flag is clear; otherwise the fetch proceeds.
pub proof fn lemma_irq_suppressed_iff_disabled(c: CPU, p: CPUPins)
    requires
        c.state is Fetch,
        c.counter.value == 0,
        !c.nmi_pending,
        c.irq_pending,
    ensures
        !flag_on(c.ps, FLAG_I) <==> s_tick(c, p).0.state is Interrupt,
        flag_on(c.ps, FLAG_I) ==> s_tick(c, p).0.state is Fetch && s_tick(c, p).0.irq_pending,
{
}

/// Law: a pending non-maskable interrupt is always taken at the
/// instruction boundary, whatever the interrupt-disable flag holds.
pub proof fn lemma_nmi_always_taken(c: CPU, p: CPUPins)
    requires
        c.state is Fetch,
        c.counter.value == 0,
        c.nmi_pending,
    ensures
        s_tick(c, p).0.state is Interrupt,
        !s_tick(c, p).0.nmi_pending,
{
}

// ---------------------------------------------------------------------------
// Laws: stack round trips
// ---------------------------------------------------------------------------

/// Distinct stack slots live at distinct page-one addresses.
proof fn lemma_stack_addr_distinct(a: u8, b: u8)
    requires
        a != b,
    ensures
        stack_addr(a) != stack_addr(b),
{
    assert((0x0100u16 | (a as u16)) != (0x0100u16 | (b as u16)))
        by (bit_vector)
        requires
            a != b,
    ;
}

/// Law: a push of A followed by a pull of A leaves the accumulator and
/// the stack pointer where they were, refreshes Z and N from A, and the
/// pushed byte sits at the old stack slot. The one excluded corner is a
/// program whose next opcode byte is itself the stack slot being pushed.
#[verifier::rlimit(100)]
pub proof fn lemma_pha_pla_round_trip(c: CPU, p: CPUPins, mem: Seq<u8>)
    requires
        mem.len() == 0x10000,
        fetch_ready(c),
        mem[c.pc as int] == 0x48,
        mem[wadd16(c.pc, 1) as int] == 0x68,
        stack_addr(c.sp) != wadd16(c.pc, 1),
    ensures
        ({
            let (cf, pf, mf) = s_run(c, p, mem, 11);
            &&& complete(cf)
            &&& cf.a == c.a
            &&& cf.sp == c.sp
            &&& cf.pc == wadd16(wadd16(c.pc, 1), 1)
            &&& flag_on(cf.ps, FLAG_Z) == (c.a == 0)
            &&& flag_on(cf.ps, FLAG_N) == ((c.a & 0x80) != 0)
            &&& mf =~= mem.update(stack_addr(c.sp) as int, c.a)
        }),
{
    reveal_with_fuel(s_run, 12);
    let s1 = s_step(c, p, mem);
    let s2 = s_step(s1.0, s1.1, s1.2);
    let s3 = s_step(s2.0, s2.1, s2.2);
    let s4 = s_step(s3.0, s3.1, s3.2);
    let s5 = s_step(s4.0, s4.1, s4.2);
    let s6 = s_step(s5.0, s5.1, s5.2);
    let s7 = s_step(s6.0, s6.1, s6.2);
    let s8 = s_step(s7.0, s7.1, s7.2);
    let s9 = s_step(s8.0, s8.1, s8.2);
    let s10 = s_step(s9.0, s9.1, s9.2);
    let s11 = s_step(s10.0, s10.1, s10.2);
    assert(s_run(c, p, mem, 11) == s11);

    let push_at = stack_addr(c.sp) as int;
    assert(s2.0.opcode == 0x48 && s2.0.state is Execute && s2.0.counter.value == 0);
    assert(s3.2 =~= mem.update(push_at, c.a));
    assert(s4.2 =~= mem.update(push_at, c.a));
    assert(s5.2 =~= mem.update(push_at, c.a));
    assert(wadd8(wsub8(c.sp, 1), 1) == c.sp);
    assert(s6.1.data == 0x68);
    assert(s7.0.opcode == 0x68 && s7.0.state is Execute && s7.0.counter.value == 0);
    assert(s9.1.data == c.a);
    assert(s10.0.a == c.a);
    lemma_set_zn(s10.0.ps, s10.0.a);
    assert(s11.2 =~= mem.update(push_at, c.a));
}

/// Law: pushing the status byte and pulling it back restores it bit for
/// bit, with the stack pointer back where it started. The one excluded
/// corner is a program whose next opcode byte is the stack slot pushed.
#[verifier::rlimit(100)]
pub proof fn lemma_php_plp_round_trip(c: CPU, p: CPUPins, mem: Seq<u8>)
    requires
        mem.len() == 0x10000,
        fetch_ready(c),
        mem[c.pc as int] == 0x08,
        mem[wadd16(c.pc, 1) as int] == 0x28,
        stack_addr(c.sp) != wadd16(c.pc, 1),
    ensures
        ({
            let (cf, pf, mf) = s_run(c, p, mem, 11);
            &&& complete(cf)
            &&& cf.ps == c.ps
            &&& cf.sp == c.sp
            &&& cf.a == c.a && cf.x == c.x && cf.y == c.y
            &&& cf.pc == wadd16(wadd16(c.pc, 1), 1)
        }),
{
    reveal_with_fuel(s_run, 12);
    let s1 = s_step(c, p, mem);
    let s2 = s_step(s1.0, s1.1, s1.2);
    let s3 = s_step(s2.0, s2.1, s2.2);
    let s4 = s_step(s3.0, s3.1, s3.2);
    let s5 = s_step(s4.0, s4.1, s4.2);
    let s6 = s_step(s5.0, s5.1, s5.2);
    let s7 = s_step(s6.0, s6.1, s6.2);
    let s8 = s_step(s7.0, s7.1, s7.2);
    let s9 = s_step(s8.0, s8.1, s8.2);
    let s10 = s_step(s9.0, s9.1, s9.2);
    let s11 = s_step(s10.0, s10.1, s10.2);
    assert(s_run(c, p, mem, 11) == s11);

    let push_at = stack_addr(c.sp) as int;
    assert(s2.0.opcode == 0x08 && s2.0.state is Execute && s2.0.counter.value == 0);
    assert(s3.2 =~= mem.update(push_at, c.ps));
    assert(s4.2 =~= mem.update(push_at, c.ps));
    assert(s5.2 =~= mem.update(push_at, c.ps));
    assert(wadd8(wsub8(c.sp, 1), 1) == c.sp);
    assert(s6.1.data == 0x28);
    assert(s7.0.opcode == 0x28 && s7.0.state is Execute && s7.0.counter.value == 0);
    assert(s9.1.data == c.ps);
    assert(s10.0.ps == c.ps);
}

// ---------------------------------------------------------------------------
// Law: subroutine call and return
// ---------------------------------------------------------------------------

/// Splitting a run: the machine after `a + b` cycles is the machine after
/// `a` cycles run for `b` more.
proof fn lemma_run_split(c: CPU, p: CPUPins, mem: Seq<u8>, a: nat, b: nat)
    ensures
        s_run(c, p, mem, a + b) == ({
            let s = s_run(c, p, mem, a);
            s_run(s.0, s.1, s.2, b)
        }),
    decreases a,
{
    if a != 0 {
        let s1 = s_step(c, p, mem);
        lemma_run_split(s1.0, s1.1, s1.2, (a - 1) as nat, b);
    }
}

/// From the boundary, `JSR absolute` runs its six cycles: it pushes the
/// address of its own last operand byte, high byte then low byte, and
/// lands at the next boundary fetching from the target.
#[verifier::rlimit(100)]
#[verifier::spinoff_prover]
proof fn lemma_jsr_reaches_target(c: CPU, p: CPUPins, mem: Seq<u8>)
    requires
        mem.len() == 0x10000,
        fetch_ready(c),
        mem[c.pc as int] == 0x20,
    ensures
        ({
            let target = (mem[wadd16(c.pc, 1) as int] as u16) | ((mem[wadd16(
                wadd16(c.pc, 1),
                1,
            ) as int] as u16) << 8);
            let ret = wadd16(wadd16(c.pc, 1), 1);
            let (cf, pf, mf) = s_run(c, p, mem, 8);
            &&& fetch_ready(cf)
            &&& cf.pc == target
            &&& cf.sp == wsub8(wsub8(c.sp, 1), 1)
            &&& mf =~= mem.update(stack_addr(c.sp) as int, (ret >> 8) as u8).update(
                stack_addr(wsub8(c.sp, 1)) as int,
                (ret & 0xFF) as u8,
            )
        }),
{
    assert(s_decode(0x20) == Some(Instr::Jsr));
    reveal_with_fuel(s_run, 9);
    let s1 = s_step(c, p, mem);
    let s2 = s_step(s1.0, s1.1, s1.2);
    let s3 = s_step(s2.0, s2.1, s2.2);
    let s4 = s_step(s3.0, s3.1, s3.2);
    let s5 = s_step(s4.0, s4.1, s4.2);
    let s6 = s_step(s5.0, s5.1, s5.2);
    let s7 = s_step(s6.0, s6.1, s6.2);
    let s8 = s_step(s7.0, s7.1, s7.2);

    let target = (mem[wadd16(c.pc, 1) as int] as u16) | ((mem[wadd16(wadd16(c.pc, 1), 1) as int]
        as u16) << 8);
    let ret = wsub16(wadd16(wadd16(wadd16(c.pc, 1), 1), 1), 1);
    assert(ret == wadd16(wadd16(c.pc, 1), 1));

    assert(s2.0.opcode == 0x20 && s2.0.state is Execute && s2.0.counter.value == 0);
    assert(s3.1.data == mem[wadd16(c.pc, 1) as int]);
    assert(s4.1.data == mem[wadd16(wadd16(c.pc, 1), 1) as int]);
    assert(s5.0.temp16 == target);
    assert(s5.0.pc == ret);
    assert(s7.2 =~= mem.update(stack_addr(c.sp) as int, (ret >> 8) as u8).update(
        stack_addr(wsub8(c.sp, 1)) as int,
        (ret & 0xFF) as u8,
    ));
    assert(s8.0.pc == target);
    assert(s8.0.state is Fetch && s8.0.counter.value == 0);
}

/// From the boundary, `RTS` runs its six cycles: it pulls the low then
/// high bytes above the stack pointer and resumes one past the address
/// they spell.
#[verifier::rlimit(100)]
#[verifier::spinoff_prover]
proof fn lemma_rts_resumes(c: CPU, p: CPUPins, mem: Seq<u8>)
    requires
        mem.len() == 0x10000,
        fetch_ready(c),
        mem[c.pc as int] == 0x60,
    ensures
        ({
            let lo = mem[stack_addr(wadd8(c.sp, 1)) as int];
            let hi = mem[stack_addr(wadd8(wadd8(c.sp, 1), 1)) as int];
            let (cf, pf, mf) = s_run(c, p, mem, 8);
            &&& complete(cf)
            &&& cf.pc == wadd16((lo as u16) | ((hi as u16) << 8), 1)
            &&& cf.sp == wadd8(wadd8(c.sp, 1), 1)
            &&& mf == mem
        }),
{
    assert(s_decode(0x60) == Some(Instr::Rts));
    reveal_with_fuel(s_run, 9);
    let s1 = s_step(c, p, mem);
    let s2 = s_step(s1.0, s1.1, s1.2);
    let s3 = s_step(s2.0, s2.1, s2.2);
    let s4 = s_step(s3.0, s3.1, s3.2);
    let s5 = s_step(s4.0, s4.1, s4.2);
    let s6 = s_step(s5.0, s5.1, s5.2);
    let s7 = s_step(s6.0, s6.1, s6.2);
    let s8 = s_step(s7.0, s7.1, s7.2);

    let lo = mem[stack_addr(wadd8(c.sp, 1)) as int];
    let hi = mem[stack_addr(wadd8(wadd8(c.sp, 1), 1)) as int];
    assert(s2.0.opcode == 0x60 && s2.0.state is Execute && s2.0.counter.value == 0);
    assert(s4.1.data == lo);
    assert(s5.0.temp16 == lo as u16);
    assert(s6.1.data == hi);
    assert(s7.0.pc == wadd16((lo as u16) | ((hi as u16) << 8), 1));
}

/// Law: `JSR absolute` followed by `RTS` at the target resumes at the
/// address just past the three-byte `JSR`, with the stack pointer
/// restored. The excluded corners are programs where the pushed return
/// address overlaps the subroutine's own opcode byte.
pub proof fn lemma_jsr_rts_returns(c: CPU, p: CPUPins, mem: Seq<u8>)
    requires
        mem.len() == 0x10000,
        fetch_ready(c),
        mem[c.pc as int] == 0x20,
        ({
            let target = (mem[wadd16(c.pc, 1) as int] as u16) | ((mem[wadd16(
                wadd16(c.pc, 1),
                1,
            ) as int] as u16) << 8);
            &&& mem[target as int] == 0x60
            &&& stack_addr(c.sp) != target
            &&& stack_addr(wsub8(c.sp, 1)) != target
        }),
    ensures
        ({
            let (cf, pf, mf) = s_run(c, p, mem, 16);
            &&& complete(cf)
            &&& cf.pc == wadd16(c.pc, 3)
            &&& cf.sp == c.sp
        }),
{
    let target = (mem[wadd16(c.pc, 1) as int] as u16) | ((mem[wadd16(wadd16(c.pc, 1), 1) as int]
        as u16) << 8);
    let ret = wadd16(wadd16(c.pc, 1), 1);
    lemma_jsr_reaches_target(c, p, mem);
    lemma_run_split(c, p, mem, 8, 8);
    let (c8, p8, m8) = s_run(c, p, mem, 8);

    assert(wsub8(c.sp, 1) != c.sp);
    lemma_stack_addr_distinct(c.sp, wsub8(c.sp, 1));
    assert(m8[target as int] == 0x60);

    assert(wadd8(c8.sp, 1) == wsub8(c.sp, 1));
    assert(wadd8(wadd8(c8.sp, 1), 1) == c.sp);
    assert(m8[stack_addr(wadd8(c8.sp, 1)) as int] == (ret & 0xFF) as u8);
    assert(m8[stack_addr(wadd8(wadd8(c8.sp, 1), 1)) as int] == (ret >> 8) as u8);

    lemma_rts_resumes(c8, p8, m8);
    let (cf, pf, mf) = s_run(c8, p8, m8, 8);
    assert((((ret & 0xFF) as u8) as u16) | ((((ret >> 8) as u8) as u16) << 8) == ret)
        by (bit_vector);
    assert(cf.pc == wadd16(ret, 1));
    assert(wadd16(ret, 1) == wadd16(c.pc, 3));
}

/// Law: the status byte that `RTI` pulls is restored into P exactly, and
/// the program counter is reassembled from the two bytes above it.
#[verifier::rlimit(100)]
pub proof fn lemma_rti_restores_status(c: CPU, p: CPUPins, mem: Seq<u8>)
    requires
        mem.len() == 0x10000,
        fetch_ready(c),
        mem[c.pc as int] == 0x40,
    ensures
        ({
            let (cf, pf, mf) = s_run(c, p, mem, 8);
            &&& complete(cf)
            &&& cf.ps == mem[stack_addr(wadd8(c.sp, 1)) as int]
            &&& cf.pc == (mem[stack_addr(wadd8(wadd8(c.sp, 1), 1)) as int] as u16) | ((mem[
                stack_addr(wadd8(wadd8(wadd8(c.sp, 1), 1), 1)) as int] as u16) << 8)
            &&& cf.sp == wadd8(wadd8(wadd8(c.sp, 1), 1), 1)
            &&& mf == mem
        }),
{
    reveal_with_fuel(s_run, 9);
    let s1 = s_step(c, p, mem);
    let s2 = s_step(s1.0, s1.1, s1.2);
    let s3 = s_step(s2.0, s2.1, s2.2);
    let s4 = s_step(s3.0, s3.1, s3.2);
    let s5 = s_step(s4.0, s4.1, s4.2);
    let s6 = s_step(s5.0, s5.1, s5.2);
    let s7 = s_step(s6.0, s6.1, s6.2);
    let s8 = s_step(s7.0, s7.1, s7.2);
    assert(s_run(c, p, mem, 8) == s8);

    assert(s2.0.opcode == 0x40 && s2.0.state is Execute && s2.0.counter.value == 0);
    assert(s4.1.data == mem[stack_addr(wadd8(c.sp, 1)) as int]);
    assert(s5.0.temp8 == mem[stack_addr(wadd8(c.sp, 1)) as int]);
    assert(s6.0.ps == mem[stack_addr(wadd8(c.sp, 1)) as int]);
    assert(s6.1.data == mem[stack_addr(wadd8(wadd8(c.sp, 1), 1)) as int]);
    assert(s7.1.data == mem[stack_addr(wadd8(wadd8(wadd8(c.sp, 1), 1), 1)) as int]);
}

// ---------------------------------------------------------------------------
// Law: cycle counts, shown here for the immediate addressing mode
// ---------------------------------------------------------------------------

/// Law: every immediate-mode read instruction occupies exactly four
/// machine cycles from one instruction boundary to the next: two fetch
/// cycles and the two cycles of the published table.
#[verifier::rlimit(100)]
pub proof fn lemma_read_immediate_cycles(c: CPU, p: CPUPins, mem: Seq<u8>, op: crate::cpu::ReadOp)
    requires
        mem.len() == 0x10000,
        fetch_ready(c),
        s_decode(mem[c.pc as int]) == Some(Instr::Read(op, crate::cpu::AddressingMode::Immediate)),
    ensures
        complete(s_run(c, p, mem, 4).0),
        !complete(s_run(c, p, mem, 1).0),
        !complete(s_run(c, p, mem, 2).0),
        !complete(s_run(c, p, mem, 3).0),
{
    reveal_with_fuel(s_run, 5);
    let s1 = s_step(c, p, mem);
    let s2 = s_step(s1.0, s1.1, s1.2);
    let s3 = s_step(s2.0, s2.1, s2.2);
    let s4 = s_step(s3.0, s3.1, s3.2);
    assert(s1.0.counter.value == 1 && s1.0.state is Fetch);
    assert(s2.0.opcode == mem[c.pc as int] && s2.0.state is Execute && s2.0.counter.value == 0);
    assert(s3.0.state is Execute && s3.0.counter.value == 1);
    assert(s4.0.state is Fetch && s4.0.counter.value == 0);
}



/// Law: a zero-page-Y read occupies exactly six machine cycles, like its
/// X-indexed sibling.
#[verifier::rlimit(100)]
#[verifier::spinoff_prover]
pub proof fn lemma_read_zero_page_y_cycles(
    c: CPU,
    p: CPUPins,
    mem: Seq<u8>,
    op: crate::cpu::ReadOp,
)
    requires
        mem.len() == 0x10000,
        fetch_ready(c),
        s_decode(mem[c.pc as int]) == Some(
            Instr::Read(op, crate::cpu::AddressingMode::ZeroPageY),
        ),
    ensures
        complete(s_run(c, p, mem, 6).0),
        !complete(s_run(c, p, mem, 4).0),
        !complete(s_run(c, p, mem, 5).0),
{
    reveal_with_fuel(s_run, 7);
    let s1 = s_step(c, p, mem);
    let s2 = s_step(s1.0, s1.1, s1.2);
    let s3 = s_step(s2.0, s2.1, s2.2);
    let s4 = s_step(s3.0, s3.1, s3.2);
    let s5 = s_step(s4.0, s4.1, s4.2);
    let s6 = s_step(s5.0, s5.1, s5.2);
    assert(s2.0.opcode == mem[c.pc as int] && s2.0.state is Execute && s2.0.counter.value == 0);
    assert(s5.0.state is Execute && s5.0.counter.value == 3);
    assert(s6.0.state is Fetch && s6.0.counter.value == 0);
}

/// Law: every zero-page-indexed read occupies exactly six machine cycles:
/// two fetch cycles and the four of the published table.
#[verifier::rlimit(100)]
#[verifier::spinoff_prover]
pub proof fn lemma_read_zero_page_x_cycles(
    c: CPU,
    p: CPUPins,
    mem: Seq<u8>,
    op: crate::cpu::ReadOp,
)
    requires
        mem.len() == 0x10000,
        fetch_ready(c),
        s_decode(mem[c.pc as int]) == Some(
            Instr::Read(op, crate::cpu::AddressingMode::ZeroPageX),
        ),
    ensures
        complete(s_run(c, p, mem, 6).0),
        !complete(s_run(c, p, mem, 4).0),
        !complete(s_run(c, p, mem, 5).0),
{
    reveal_with_fuel(s_run, 7);
    let s1 = s_step(c, p, mem);
    let s2 = s_step(s1.0, s1.1, s1.2);
    let s3 = s_step(s2.0, s2.1, s2.2);
    let s4 = s_step(s3.0, s3.1, s3.2);
    let s5 = s_step(s4.0, s4.1, s4.2);
    let s6 = s_step(s5.0, s5.1, s5.2);
    assert(s2.0.opcode == mem[c.pc as int] && s2.0.state is Execute && s2.0.counter.value == 0);
    assert(s5.0.state is Execute && s5.0.counter.value == 3);
    assert(s6.0.state is Fetch && s6.0.counter.value == 0);
}

/// Law: every absolute read occupies exactly six machine cycles: two
/// fetch cycles and the four of the published table.
#[verifier::rlimit(100)]
#[verifier::spinoff_prover]
pub proof fn lemma_read_absolute_cycles(c: CPU, p: CPUPins, mem: Seq<u8>, op: crate::cpu::ReadOp)
    requires
        mem.len() == 0x10000,
        fetch_ready(c),
        s_decode(mem[c.pc as int]) == Some(
            Instr::Read(op, crate::cpu::AddressingMode::Absolute),
        ),
    ensures
        complete(s_run(c, p, mem, 6).0),
        !complete(s_run(c, p, mem, 4).0),
        !complete(s_run(c, p, mem, 5).0),
{
    reveal_with_fuel(s_run, 7);
    let s1 = s_step(c, p, mem);
    let s2 = s_step(s1.0, s1.1, s1.2);
    let s3 = s_step(s2.0, s2.1, s2.2);
    let s4 = s_step(s3.0, s3.1, s3.2);
    let s5 = s_step(s4.0, s4.1, s4.2);
    let s6 = s_step(s5.0, s5.1, s5.2);
    assert(s2.0.opcode == mem[c.pc as int] && s2.0.state is Execute && s2.0.counter.value == 0);
    assert(s5.0.state is Execute && s5.0.counter.value == 3);
    assert(s6.0.state is Fetch && s6.0.counter.value == 0);
}

/// Law: an absolute-X read occupies six machine cycles, and one more
/// exactly when adding X to the operand's low byte carries into the high
/// byte: the page-cross penalty, for reads only.
#[verifier::rlimit(100)]
#[verifier::spinoff_prover]
pub proof fn lemma_read_absolute_x_page_penalty(
    c: CPU,
    p: CPUPins,
    mem: Seq<u8>,
    op: crate::cpu::ReadOp,
)
    requires
        mem.len() == 0x10000,
        fetch_ready(c),
        s_decode(mem[c.pc as int]) == Some(
            Instr::Read(op, crate::cpu::AddressingMode::AbsoluteX),
        ),
    ensures
        ({
            let crossed = mem[wadd16(c.pc, 1) as int] + c.x > 255;
            &&& !crossed ==> complete(s_run(c, p, mem, 6).0) && !complete(s_run(c, p, mem, 5).0)
            &&& crossed ==> complete(s_run(c, p, mem, 7).0) && !complete(s_run(c, p, mem, 6).0)
        }),
{
    reveal_with_fuel(s_run, 8);
    let s1 = s_step(c, p, mem);
    let s2 = s_step(s1.0, s1.1, s1.2);
    let s3 = s_step(s2.0, s2.1, s2.2);
    let s4 = s_step(s3.0, s3.1, s3.2);
    let s5 = s_step(s4.0, s4.1, s4.2);
    let s6 = s_step(s5.0, s5.1, s5.2);
    let s7 = s_step(s6.0, s6.1, s6.2);
    let crossed = mem[wadd16(c.pc, 1) as int] + c.x > 255;
    assert(s2.0.opcode == mem[c.pc as int] && s2.0.state is Execute && s2.0.counter.value == 0);
    assert(s3.1.data == mem[wadd16(c.pc, 1) as int]);
    assert(s4.0.tempb == crossed);
    assert(s5.0.tempb == crossed);
    assert(s6.0.tempb == crossed);
    if !crossed {
        assert(s6.0.state is Fetch && s6.0.counter.value == 0);
    } else {
        assert(s6.0.state is Execute && s6.0.counter.value == 4);
        assert(s7.0.state is Fetch && s7.0.counter.value == 0);
    }
}

/// Law: a branch occupies four machine cycles when not taken, five when
/// taken within the page of the incremented program counter, and six when
/// the target crosses into another page: two fetch cycles plus the
/// published two, three or four.
#[verifier::rlimit(100)]
#[verifier::spinoff_prover]
pub proof fn lemma_branch_cycles(c: CPU, p: CPUPins, mem: Seq<u8>, op: crate::cpu::BranchOp)
    requires
        mem.len() == 0x10000,
        fetch_ready(c),
        s_decode(mem[c.pc as int]) == Some(Instr::Branch(op)),
    ensures
        ({
            let taken = crate::cpu::model::branch_taken(op, c.ps);
            let off = mem[wadd16(c.pc, 1) as int];
            let pc2 = wadd16(wadd16(c.pc, 1), 1);
            let t = s_branch_target(pc2, off);
            &&& !taken ==> complete(s_run(c, p, mem, 4).0) && !complete(s_run(c, p, mem, 3).0)
            &&& (taken && (pc2 & 0xFF00) == (t & 0xFF00)) ==> complete(s_run(c, p, mem, 5).0)
                && !complete(s_run(c, p, mem, 4).0)
            &&& (taken && (pc2 & 0xFF00) != (t & 0xFF00)) ==> complete(s_run(c, p, mem, 6).0)
                && !complete(s_run(c, p, mem, 5).0)
        }),
{
    reveal_with_fuel(s_run, 7);
    let s1 = s_step(c, p, mem);
    let s2 = s_step(s1.0, s1.1, s1.2);
    let s3 = s_step(s2.0, s2.1, s2.2);
    let s4 = s_step(s3.0, s3.1, s3.2);
    let s5 = s_step(s4.0, s4.1, s4.2);
    let s6 = s_step(s5.0, s5.1, s5.2);
    let taken = crate::cpu::model::branch_taken(op, c.ps);
    let off = mem[wadd16(c.pc, 1) as int];
    let pc2 = wadd16(wadd16(c.pc, 1), 1);
    assert(s2.0.opcode == mem[c.pc as int] && s2.0.state is Execute && s2.0.counter.value == 0);
    if taken {
        assert(s4.1.data == off);
        assert(s4.0.pc == pc2);
    }
}


/// Law: an absolute-Y read occupies six machine cycles, and one more
/// exactly when adding Y to the operand's low byte carries into the high
/// byte.
#[verifier::rlimit(100)]
#[verifier::spinoff_prover]
pub proof fn lemma_read_absolute_y_page_penalty(
    c: CPU,
    p: CPUPins,
    mem: Seq<u8>,
    op: crate::cpu::ReadOp,
)
    requires
        mem.len() == 0x10000,
        fetch_ready(c),
        s_decode(mem[c.pc as int]) == Some(
            Instr::Read(op, crate::cpu::AddressingMode::AbsoluteY),
        ),
    ensures
        ({
            let crossed = mem[wadd16(c.pc, 1) as int] + c.y > 255;
            &&& !crossed ==> complete(s_run(c, p, mem, 6).0) && !complete(s_run(c, p, mem, 5).0)
            &&& crossed ==> complete(s_run(c, p, mem, 7).0) && !complete(s_run(c, p, mem, 6).0)
        }),
{
    reveal_with_fuel(s_run, 8);
    let s1 = s_step(c, p, mem);
    let s2 = s_step(s1.0, s1.1, s1.2);
    let s3 = s_step(s2.0, s2.1, s2.2);
    let s4 = s_step(s3.0, s3.1, s3.2);
    let s5 = s_step(s4.0, s4.1, s4.2);
    let s6 = s_step(s5.0, s5.1, s5.2);
    let s7 = s_step(s6.0, s6.1, s6.2);
    let crossed = mem[wadd16(c.pc, 1) as int] + c.y > 255;
    assert(s2.0.opcode == mem[c.pc as int] && s2.0.state is Execute && s2.0.counter.value == 0);
    assert(s3.1.data == mem[wadd16(c.pc, 1) as int]);
    assert(s4.0.tempb == crossed);
    assert(s5.0.tempb == crossed);
    assert(s6.0.tempb == crossed);
    if !crossed {
        assert(s6.0.state is Fetch && s6.0.counter.value == 0);
    } else {
        assert(s6.0.state is Execute && s6.0.counter.value == 4);
        assert(s7.0.state is Fetch && s7.0.counter.value == 0);
    }
}

/// Law: an indexed-indirect read occupies exactly eight machine cycles:
/// two fetch cycles and the six of the published table, with no page
/// penalty.
#[verifier::rlimit(100)]
#[verifier::spinoff_prover]
pub proof fn lemma_read_indexed_indirect_cycles(
    c: CPU,
    p: CPUPins,
    mem: Seq<u8>,
    op: crate::cpu::ReadOp,
)
    requires
        mem.len() == 0x10000,
        fetch_ready(c),
        s_decode(mem[c.pc as int]) == Some(
            Instr::Read(op, crate::cpu::AddressingMode::IndexedIndirect),
        ),
    ensures
        complete(s_run(c, p, mem, 8).0),
        !complete(s_run(c, p, mem, 6).0),
        !complete(s_run(c, p, mem, 7).0),
{
    reveal_with_fuel(s_run, 9);
    let s1 = s_step(c, p, mem);
    let s2 = s_step(s1.0, s1.1, s1.2);
    let s3 = s_step(s2.0, s2.1, s2.2);
    let s4 = s_step(s3.0, s3.1, s3.2);
    let s5 = s_step(s4.0, s4.1, s4.2);
    let s6 = s_step(s5.0, s5.1, s5.2);
    let s7 = s_step(s6.0, s6.1, s6.2);
    let s8 = s_step(s7.0, s7.1, s7.2);
    assert(s2.0.opcode == mem[c.pc as int] && s2.0.state is Execute && s2.0.counter.value == 0);
    assert(s7.0.state is Execute && s7.0.counter.value == 5);
    assert(s8.0.state is Fetch && s8.0.counter.value == 0);
}

/// Law: an indirect-indexed read occupies seven machine cycles, and one
/// more exactly when adding Y pushes the assembled address into the next
/// page.
#[verifier::rlimit(100)]
#[verifier::spinoff_prover]
pub proof fn lemma_read_indirect_indexed_page_penalty(
    c: CPU,
    p: CPUPins,
    mem: Seq<u8>,
    op: crate::cpu::ReadOp,
)
    requires
        mem.len() == 0x10000,
        fetch_ready(c),
        s_decode(mem[c.pc as int]) == Some(
            Instr::Read(op, crate::cpu::AddressingMode::IndirectIndexed),
        ),
    ensures
        ({
            let ptr = mem[wadd16(c.pc, 1) as int];
            let lo = mem[(ptr as u16) as int];
            let hi = mem[(wadd8(ptr, 1) as u16) as int];
            let crossed = ((wadd16((lo as u16) | ((hi as u16) << 8), c.y as u16) >> 8) as u8)
                > hi;
            &&& !crossed ==> complete(s_run(c, p, mem, 7).0) && !complete(s_run(c, p, mem, 6).0)
            &&& crossed ==> complete(s_run(c, p, mem, 8).0) && !complete(s_run(c, p, mem, 7).0)
        }),
{
    reveal_with_fuel(s_run, 9);
    let s1 = s_step(c, p, mem);
    let s2 = s_step(s1.0, s1.1, s1.2);
    let s3 = s_step(s2.0, s2.1, s2.2);
    let s4 = s_step(s3.0, s3.1, s3.2);
    let s5 = s_step(s4.0, s4.1, s4.2);
    let s6 = s_step(s5.0, s5.1, s5.2);
    let s7 = s_step(s6.0, s6.1, s6.2);
    let s8 = s_step(s7.0, s7.1, s7.2);
    let ptr = mem[wadd16(c.pc, 1) as int];
    let lo = mem[(ptr as u16) as int];
    let hi = mem[(wadd8(ptr, 1) as u16) as int];
    let crossed = ((wadd16((lo as u16) | ((hi as u16) << 8), c.y as u16) >> 8) as u8) > hi;
    assert(s2.0.opcode == mem[c.pc as int] && s2.0.state is Execute && s2.0.counter.value == 0);
    assert(s3.1.data == ptr);
    assert(s4.0.temp8 == ptr && s4.1.data == lo);
    assert(s5.0.temp16 == lo as u16 && s5.1.data == hi);
    assert(s6.0.tempb == crossed);
    if !crossed {
        assert(s7.0.state is Fetch && s7.0.counter.value == 0);
        assert(s6.0.state is Execute);
    } else {
        assert(s7.0.state is Execute && s7.0.counter.value == 5);
        assert(s8.0.state is Fetch && s8.0.counter.value == 0);
    }
}

/// Law: every zero-page read instruction occupies exactly five machine
/// cycles: two fetch cycles and the three of the published table.
#[verifier::rlimit(100)]
pub proof fn lemma_read_zero_page_cycles(c: CPU, p: CPUPins, mem: Seq<u8>, op: crate::cpu::ReadOp)
    requires
        mem.len() == 0x10000,
        fetch_ready(c),
        s_decode(mem[c.pc as int]) == Some(Instr::Read(op, crate::cpu::AddressingMode::ZeroPage)),
    ensures
        complete(s_run(c, p, mem, 5).0),
        !complete(s_run(c, p, mem, 2).0),
        !complete(s_run(c, p, mem, 3).0),
        !complete(s_run(c, p, mem, 4).0),
{
    reveal_with_fuel(s_run, 6);
    let s1 = s_step(c, p, mem);
    let s2 = s_step(s1.0, s1.1, s1.2);
    let s3 = s_step(s2.0, s2.1, s2.2);
    let s4 = s_step(s3.0, s3.1, s3.2);
    let s5 = s_step(s4.0, s4.1, s4.2);
    assert(s2.0.opcode == mem[c.pc as int] && s2.0.state is Execute && s2.0.counter.value == 0);
    assert(s3.0.state is Execute && s3.0.counter.value == 1);
    assert(s4.0.state is Execute && s4.0.counter.value == 2);
    assert(s5.0.state is Fetch && s5.0.counter.value == 0);
}

/// Law: every zero-page store occupies exactly five machine cycles: two
/// fetch cycles and the three of the published table.
#[verifier::rlimit(100)]
pub proof fn lemma_store_zero_page_cycles(
    c: CPU,
    p: CPUPins,
    mem: Seq<u8>,
    op: crate::cpu::StoreOp,
)
    requires
        mem.len() == 0x10000,
        fetch_ready(c),
        s_decode(mem[c.pc as int]) == Some(
            Instr::Store(op, crate::cpu::AddressingMode::ZeroPage),
        ),
    ensures
        complete(s_run(c, p, mem, 5).0),
        !complete(s_run(c, p, mem, 3).0),
        !complete(s_run(c, p, mem, 4).0),
{
    reveal_with_fuel(s_run, 6);
    let s1 = s_step(c, p, mem);
    let s2 = s_step(s1.0, s1.1, s1.2);
    let s3 = s_step(s2.0, s2.1, s2.2);
    let s4 = s_step(s3.0, s3.1, s3.2);
    let s5 = s_step(s4.0, s4.1, s4.2);
    assert(s2.0.opcode == mem[c.pc as int] && s2.0.state is Execute && s2.0.counter.value == 0);
    assert(s4.0.state is Execute && s4.0.counter.value == 2);
    assert(s5.0.state is Fetch && s5.0.counter.value == 0);
}

/// Law: every implied instruction occupies exactly four machine cycles:
/// two fetch cycles and the two of the published table.
#[verifier::rlimit(100)]
pub proof fn lemma_implied_cycles(c: CPU, p: CPUPins, mem: Seq<u8>, op: crate::cpu::ImpliedOp)
    requires
        mem.len() == 0x10000,
        fetch_ready(c),
        s_decode(mem[c.pc as int]) == Some(Instr::Implied(op)),
    ensures
        complete(s_run(c, p, mem, 4).0),
        !complete(s_run(c, p, mem, 2).0),
        !complete(s_run(c, p, mem, 3).0),
{
    reveal_with_fuel(s_run, 5);
    let s1 = s_step(c, p, mem);
    let s2 = s_step(s1.0, s1.1, s1.2);
    let s3 = s_step(s2.0, s2.1, s2.2);
    let s4 = s_step(s3.0, s3.1, s3.2);
    assert(s2.0.opcode == mem[c.pc as int] && s2.0.state is Execute && s2.0.counter.value == 0);
    assert(s3.0.state is Execute && s3.0.counter.value == 1);
    assert(s4.0.state is Fetch && s4.0.counter.value == 0);
}

} // verus!
