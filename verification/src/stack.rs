//! The stack discipline on its own: a push writes at the current slot of
//! page one and steps the pointer down; a pull steps up and reads. Over
//! any run of pushes followed by as many pulls, the bytes come back in
//! reverse order and the pointer returns to where it started.

use vstd::prelude::*;

use vstd::arithmetic::div_mod::{
    lemma_add_mod_noop, lemma_fundamental_div_mod, lemma_mod_bound,
};

use crate::bits::{wadd8, wsub8};
use crate::cpu::model::stack_addr;

verus! {

/// The stack pointer `k` slots below `sp`, wrapping within the page.
pub open spec fn sp_down(sp: u8, k: int) -> u8 {
    ((sp - k) % 256) as u8
}

/// The stack pointer `k` slots above `sp`, wrapping within the page.
pub open spec fn sp_up(sp: u8, k: int) -> u8 {
    ((sp + k) % 256) as u8
}

/// Memory and stack pointer after pushing the bytes of `vs` in order.
pub open spec fn s_push_seq(mem: Seq<u8>, sp: u8, vs: Seq<u8>) -> (Seq<u8>, u8)
    decreases vs.len(),
{
    if vs.len() == 0 {
        (mem, sp)
    } else {
        s_push_seq(mem.update(stack_addr(sp) as int, vs[0]), wsub8(sp, 1), vs.skip(1))
    }
}

/// The bytes delivered, and the stack pointer, after pulling `n` times.
pub open spec fn s_pull_seq(mem: Seq<u8>, sp: u8, n: nat) -> (Seq<u8>, u8)
    decreases n,
{
    if n == 0 {
        (Seq::empty(), sp)
    } else {
        let sp1 = wadd8(sp, 1);
        let rest = s_pull_seq(mem, sp1, (n - 1) as nat);
        (seq![mem[stack_addr(sp1) as int]] + rest.0, rest.1)
    }
}

proof fn lemma_sp_down_step(sp: u8, i: int)
    ensures
        sp_down(wsub8(sp, 1), i) == sp_down(sp, i + 1),
{
    lemma_add_mod_noop(sp - 1 - i + 256, -256, 256);
    lemma_add_mod_noop(sp - 1 - i, 256, 256);
}

proof fn lemma_sp_up_step(sp: u8, i: int)
    ensures
        sp_up(wadd8(sp, 1), i) == sp_up(sp, i + 1),
{
    lemma_add_mod_noop(sp + 1 + i - 256, 256, 256);
    lemma_add_mod_noop(sp + 1 + i, -256, 256);
}

proof fn lemma_sp_down_injective(sp: u8, i: int, j: int)
    requires
        0 <= i < j < 256,
    ensures
        sp_down(sp, i) != sp_down(sp, j),
{
    if sp_down(sp, i) == sp_down(sp, j) {
        lemma_mod_bound(sp - i, 256);
        lemma_mod_bound(sp - j, 256);
        lemma_fundamental_div_mod(sp - i, 256);
        lemma_fundamental_div_mod(sp - j, 256);
        let qi = (sp - i) / 256;
        let qj = (sp - j) / 256;
        assert(j - i == 256 * (qi - qj)) by (nonlinear_arith)
            requires
                sp - i == 256 * qi + (sp - i) % 256,
                sp - j == 256 * qj + (sp - j) % 256,
                (sp - i) % 256 == (sp - j) % 256,
        ;
        assert(0 < 256 * (qi - qj) < 256 ==> false) by (nonlinear_arith);
    }
}

/// Distinct stack slots live at distinct page-one addresses.
proof fn lemma_stack_slots_distinct(a: u8, b: u8)
    requires
        a != b,
    ensures
        stack_addr(a) != stack_addr(b),
{
    assert((0x0100u16 | (a as u16)) != (0x0100u16 | (b as u16)))
        by (bit_vector)
        requires
            a != b,
    ;
}

proof fn lemma_push_seq_effect(mem: Seq<u8>, sp: u8, vs: Seq<u8>)
    requires
        mem.len() == 0x10000,
        vs.len() <= 256,
    ensures
        ({
            let (m, spf) = s_push_seq(mem, sp, vs);
            &&& m.len() == mem.len()
            &&& spf == sp_down(sp, vs.len() as int)
            &&& forall|i: int|
                0 <= i < vs.len() ==> m[stack_addr(sp_down(sp, i)) as int] == vs[i]
            &&& forall|a: int|
                (0 <= a < mem.len() && (forall|i: int|
                    0 <= i < vs.len() ==> a != stack_addr(sp_down(sp, i)) as int)) ==> m[a]
                    == mem[a]
        }),
    decreases vs.len(),
{
    if vs.len() == 0 {
        assert(sp_down(sp, 0) == sp);
    } else {
        let m1 = mem.update(stack_addr(sp) as int, vs[0]);
        lemma_push_seq_effect(m1, wsub8(sp, 1), vs.skip(1));
        assert forall|i: int| 0 <= i implies sp_down(wsub8(sp, 1), i) == sp_down(sp, i + 1) by {
            lemma_sp_down_step(sp, i);
        }
        assert(sp_down(sp, 0) == sp);
        let (m, spf) = s_push_seq(mem, sp, vs);
        assert forall|i: int| 0 <= i < vs.len() implies m[stack_addr(sp_down(sp, i)) as int]
            == vs[i] by {
            if i == 0 {
                assert forall|k: int|
                    0 <= k < vs.skip(1).len() implies stack_addr(sp_down(sp, 0)) as int
                    != stack_addr(sp_down(wsub8(sp, 1), k)) as int by {
                    lemma_sp_down_step(sp, k);
                    lemma_sp_down_injective(sp, 0, k + 1);
                    lemma_stack_slots_distinct(sp_down(sp, 0), sp_down(sp, k + 1));
                }
            } else {
                assert(vs.skip(1)[i - 1] == vs[i]);
            }
        }
    }
}

proof fn lemma_pull_seq_effect(mem: Seq<u8>, sp: u8, n: nat)
    requires
        mem.len() == 0x10000,
        n <= 256,
    ensures
        ({
            let (got, spf) = s_pull_seq(mem, sp, n);
            &&& got.len() == n
            &&& spf == sp_up(sp, n as int)
            &&& forall|i: int|
                0 <= i < n ==> got[i] == mem[stack_addr(sp_up(sp, i + 1)) as int]
        }),
    decreases n,
{
    if n == 0 {
        assert(sp_up(sp, 0) == sp);
    } else {
        let sp1 = wadd8(sp, 1);
        lemma_pull_seq_effect(mem, sp1, (n - 1) as nat);
        assert(sp_up(sp, 1) == sp1);
        assert forall|i: int| 0 <= i implies sp_up(sp1, i) == sp_up(sp, i + 1) by {
            lemma_sp_up_step(sp, i);
        }
        let (got, spf) = s_pull_seq(mem, sp, n);
        assert forall|i: int| 0 <= i < n implies got[i] == mem[stack_addr(
            sp_up(sp, i + 1),
        ) as int] by {
            if i > 0 {
                lemma_sp_up_step(sp, i);
            }
        }
    }
}

/// Law: pushing the bytes of `vs` and then pulling as many times yields
/// the bytes in reverse order and returns the stack pointer to its
/// starting value, for any run of up to a full page.
pub proof fn lemma_stack_round_trip(mem: Seq<u8>, sp: u8, vs: Seq<u8>)
    requires
        mem.len() == 0x10000,
        vs.len() <= 256,
    ensures
        ({
            let (m, spf) = s_push_seq(mem, sp, vs);
            let (got, sp2) = s_pull_seq(m, spf, vs.len());
            &&& sp2 == sp
            &&& got =~= vs.reverse()
        }),
{
    let n = vs.len() as int;
    let (m, spf) = s_push_seq(mem, sp, vs);
    let (got, sp2) = s_pull_seq(m, spf, vs.len());
    lemma_push_seq_effect(mem, sp, vs);
    lemma_pull_seq_effect(m, spf, vs.len());
    assert(sp2 == sp) by {
        lemma_add_mod_noop(sp - n, n, 256);
        lemma_add_mod_noop(sp - n + 256, -256, 256);
        lemma_mod_bound(sp - n + n, 256);
        assert(sp_up(sp_down(sp, n), n) == sp);
    }
    assert forall|i: int| 0 <= i < n implies got[i] == vs[n - 1 - i] by {
        assert(sp_up(sp_down(sp, n), i + 1) == sp_down(sp, n - 1 - i)) by {
            lemma_add_mod_noop(sp - n, i + 1, 256);
            lemma_add_mod_noop(sp - n + 256, -256, 256);
            lemma_mod_bound(sp - (n - 1 - i), 256);
        }
    }
}

} // verus!
