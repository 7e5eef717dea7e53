//! Properties of the decoder and of the machine model that hold for every
//! word and every state.

use vstd::prelude::*;
use vstd::arithmetic::power2::lemma2_to64;
use vstd::arithmetic::power2::pow2;
use crate::inst::Instruction;
use crate::inst::InstructionKind;
use crate::inst::sign_extend_spec;
use crate::model::after;
use crate::model::alu;
use crate::model::branch_taken;
use crate::model::cycle;
use crate::model::effect;
use crate::model::loaded;
use crate::model::runs;
use crate::model::wrap;
use crate::model::AluOp;
use crate::model::Fault;
use crate::model::Machine;

verus! {

/// Decoding depends on the word alone: two instructions that hold the same
/// word have the same fields, the same immediates and the same kind.
pub proof fn lemma_decoding_is_a_function_of_the_word(a: Instruction, b: Instruction)
    requires
        a.0 == b.0,
    ensures
        a.opcode_spec() == b.opcode_spec(),
        a.rd_spec() == b.rd_spec(),
        a.funct3_spec() == b.funct3_spec(),
        a.rs1_spec() == b.rs1_spec(),
        a.rs2_spec() == b.rs2_spec(),
        a.funct7_spec() == b.funct7_spec(),
        a.imm_i_spec() == b.imm_i_spec(),
        a.imm_s_spec() == b.imm_s_spec(),
        a.imm_b_spec() == b.imm_b_spec(),
        a.imm_u_spec() == b.imm_u_spec(),
        a.imm_j_spec() == b.imm_j_spec(),
        a.kind_spec() == b.kind_spec(),
{
}

/// A sign-extended value of `bits` bits lies in the signed range of that
/// width and differs from the value it came from by a multiple of
/// two to the `bits`.
pub proof fn lemma_sign_extend_range(value: int, bits: nat)
    requires
        1 <= bits,
    ensures
        -pow2((bits - 1) as nat) <= sign_extend_spec(value, bits) < pow2((bits - 1) as nat),
        (sign_extend_spec(value, bits) - value) % (pow2(bits) as int) == 0,
{
    let p = pow2(bits) as int;
    let h = pow2((bits - 1) as nat) as int;
    vstd::arithmetic::power2::lemma_pow2_unfold(bits);
    vstd::arithmetic::power2::lemma_pow2_pos((bits - 1) as nat);
    assert(p == 2 * h);
    let low = value % p;
    vstd::arithmetic::div_mod::lemma_mod_bound(value, p);
    vstd::arithmetic::div_mod::lemma_fundamental_div_mod(value, p);
    let q = value / p;
    assert(value == p * q + low);
    if low >= h {
        assert(low - p - value == p * (-q - 1)) by (nonlinear_arith)
            requires
                value == p * q + low,
        ;
        vstd::arithmetic::div_mod::lemma_mod_multiples_basic(-q - 1, p);
        assert(p * (-q - 1) == (-q - 1) * p) by (nonlinear_arith);
    } else {
        assert(low - value == p * (-q)) by (nonlinear_arith)
            requires
                value == p * q + low,
        ;
        vstd::arithmetic::div_mod::lemma_mod_multiples_basic(-q, p);
        assert(p * (-q) == (-q) * p) by (nonlinear_arith);
    }
}

/// Register `x0` reads zero once a cycle has begun, whatever was written to
/// it before: a cycle from a state with any value in `x0` is the cycle from
/// the state with zero there.
pub proof fn lemma_zero_register_is_hardwired(m: Machine, value: u32)
    requires
        m.wf(),
    ensures
        m.zeroed().regs[0] == 0,
        m.set_reg(0, value).zeroed() == m.zeroed(),
        cycle(m.set_reg(0, value)) == cycle(m),
{
    assert(m.set_reg(0, value).zeroed().regs =~= m.zeroed().regs);
}

/// Adding a 12-bit immediate wraps like plain two's-complement addition.
pub proof fn lemma_add_immediate_wraps(a: u32, imm: int)
    requires
        -2048 <= imm < 2048,
    ensures
        alu(AluOp::Add, a, wrap(imm)) == wrap(a + imm),
{
}

/// A conditional branch whose condition fails moves the program counter
/// four bytes on; one whose condition holds moves it by the branch offset
/// from the branch's own address. Neither changes a register or memory.
pub proof fn lemma_branch_target(m: Machine, inst: Instruction, addr: u32)
    requires
        inst.kind_spec() == InstructionKind::Beq || inst.kind_spec() == InstructionKind::Bne
            || inst.kind_spec() == InstructionKind::Blt || inst.kind_spec()
            == InstructionKind::Bge || inst.kind_spec() == InstructionKind::Bltu
            || inst.kind_spec() == InstructionKind::Bgeu,
    ensures
        branch_taken(inst.kind_spec(), m.regs[inst.rs1_spec()], m.regs[inst.rs2_spec()])
            ==> effect(m, inst, addr) == Ok::<Machine, Fault>(
            m.set_pc(wrap(addr + inst.imm_b_spec())),
        ),
        !branch_taken(inst.kind_spec(), m.regs[inst.rs1_spec()], m.regs[inst.rs2_spec()])
            ==> effect(m, inst, addr) == Ok::<Machine, Fault>(m.set_pc(wrap(addr + 4))),
{
}

proof fn lemma_bytes_make_word(x: u32)
    by (bit_vector)
    ensures
        x % 0x100 + 0x100 * ((x / 0x100) % 0x100) + 0x1_0000 * ((x / 0x1_0000) % 0x100) + 0x100_0000
            * ((x / 0x100_0000) % 0x100) == x,
        x % 0x100 + 0x100 * ((x / 0x100) % 0x100) == x % 0x1_0000,
{
}

/// What a store writes, a load of the same width at the same address reads
/// back: the whole word for four bytes, its low 16 or 8 bits for two or
/// one. Bytes outside the stored range keep their value.
pub proof fn lemma_store_then_load(m: Machine, addr: int, value: u32)
    requires
        m.wf(),
    ensures
        m.holds(addr, 4) ==> m.store(addr, 4, value).load(addr, 4) == value,
        m.holds(addr, 2) ==> m.store(addr, 2, value).load(addr, 2) == value % 0x1_0000,
        m.holds(addr, 1) ==> m.store(addr, 1, value).load(addr, 1) == value % 0x100,
        forall|len: int, other: int|
            0 <= len && m.holds(addr, len) && m.holds(other, 1) && !(addr <= other < addr + len)
                ==> #[trigger] m.store(addr, len, value).byte(other) == m.byte(other),
{
    lemma2_to64();
    lemma_bytes_make_word(value);
    let at = addr - m.start;
    assert(pow2((8 * (at - at)) as nat) == 1);
    assert(pow2((8 * (at + 1 - at)) as nat) == 0x100) by {
        assert((8 * (at + 1 - at)) as nat == 8);
    }
    assert(pow2((8 * (at + 2 - at)) as nat) == 0x1_0000) by {
        assert((8 * (at + 2 - at)) as nat == 16);
    }
    assert(pow2((8 * (at + 3 - at)) as nat) == 0x100_0000) by {
        assert((8 * (at + 3 - at)) as nat == 24);
    }
    if m.holds(addr, 2) {
        let s = m.store(addr, 2, value);
        assert(s.byte(addr) == value % 0x100);
        assert(s.byte(addr + 1) == (value / 0x100) % 0x100);
    }
    if m.holds(addr, 4) {
        let s = m.store(addr, 4, value);
        assert(s.byte(addr) == value % 0x100);
        assert(s.byte(addr + 1) == (value / 0x100) % 0x100);
        assert(s.byte(addr + 2) == (value / 0x1_0000) % 0x100);
        assert(s.byte(addr + 3) == (value / 0x100_0000) % 0x100);
    }
}

/// A byte loaded with `LB` and the same byte loaded with `LBU` agree in
/// their low eight bits and differ only above them: `LBU` leaves the upper
/// bits zero, `LB` fills them with the byte's top bit.
pub proof fn lemma_byte_load_extension(raw: int)
    requires
        0 <= raw < 0x100,
    ensures
        loaded(InstructionKind::Lbu, raw) == raw,
        loaded(InstructionKind::Lb, raw) == if raw < 0x80 {
            raw
        } else {
            raw + 0xffff_ff00
        },
{
    lemma2_to64();
}

/// A load whose bytes do not all lie in the memory window is a fault that
/// names the address, and so is the cycle that executes it.
pub proof fn lemma_load_outside_memory_faults(m: Machine, inst: Instruction, addr: u32)
    requires
        inst.kind_spec() == InstructionKind::Lw,
        !m.holds(wrap(m.regs[inst.rs1_spec()] + inst.imm_i_spec()) as int, 4),
    ensures
        effect(m, inst, addr) == Err::<Machine, Fault>(
            Fault::Load { addr: wrap(m.regs[inst.rs1_spec()] + inst.imm_i_spec()), len: 4 },
        ),
{
}

/// A run that no handler interrupts ends at one place only: if the program
/// counter has left memory after `n` cycles that all began inside it, then
/// no other number of cycles has that property.
pub proof fn lemma_run_end_is_unique(m: Machine, n: nat, k: nat)
    requires
        runs(m, n),
        runs(m, k),
        after(m, n) is Ok,
        after(m, k) is Ok,
        !after(m, n)->Ok_0.runnable(),
        !after(m, k)->Ok_0.runnable(),
    ensures
        n == k,
{
    if n < k {
        assert(after(m, n)->Ok_0.runnable());
    }
    if k < n {
        assert(after(m, k)->Ok_0.runnable());
    }
}

/// Once a cycle has failed, the fault stays: the machine after any later
/// number of cycles is the same fault.
pub proof fn lemma_fault_is_final(m: Machine, n: nat, k: nat)
    requires
        after(m, n) is Err,
        n <= k,
    ensures
        after(m, k) == after(m, n),
    decreases k,
{
    if n < k {
        lemma_fault_is_final(m, n, (k - 1) as nat);
    }
}

} // verus!
