//! Word arithmetic: conversions between the signed and unsigned reading of
//! a word, the arithmetic and logic operations, and the branch conditions.

use vstd::prelude::*;
use vstd::arithmetic::power2::pow2;
use vstd::arithmetic::power2::lemma_pow2_pos;
use vstd::bits::lemma_u32_shr_is_div;
use crate::inst::InstructionKind;
use crate::inst::sign_extend;
use crate::model::AluOp;
use crate::model::access_len;
use crate::model::alu;
use crate::model::imm_op;
use crate::model::loaded;
use crate::model::reg_op;
use crate::model::branch_taken;
use crate::model::signed;
use crate::model::wrap;

verus! {

proof fn lemma_word_bits(x: u32, v: i32, n: u32)
    by (bit_vector)
    ensures
        (x as i32) == (if x >= 0x8000_0000u32 {
            x - 0x1_0000_0000
        } else {
            x as int
        }),
        (v as u32) == (if v < 0 {
            v + 0x1_0000_0000
        } else {
            v as int
        }),
        x & 0x1f == x % 32,
        x & 0xffff_fffe == x - x % 2,
        !x == 0xffff_ffff - x,
        n < 32 && x >= 0x8000_0000u32 ==> (((x as i32) >> n) as u32) == !((!x) >> n),
        n < 32 && x < 0x8000_0000u32 ==> (((x as i32) >> n) as u32) == x >> n,
{
}

proof fn lemma_byte_bits(x: u32, b0: u8, b1: u8, b2: u8, b3: u8)
    by (bit_vector)
    ensures
        (b0 as u32) | ((b1 as u32) << 8) == b0 + 0x100 * b1,
        (b0 as u32) | ((b1 as u32) << 8) | ((b2 as u32) << 16) | ((b3 as u32) << 24) == b0 + 0x100
            * b1 + 0x1_0000 * b2 + 0x100_0000 * b3,
        (x & 0xff) as u8 == x % 0x100,
        ((x >> 8) & 0xff) as u8 == (x / 0x100) % 0x100,
        ((x >> 16) & 0xff) as u8 == (x / 0x1_0000) % 0x100,
        ((x >> 24) & 0xff) as u8 == (x / 0x100_0000) % 0x100,
{
}

/// The number that two bytes hold, the first the least significant.
#[inline]
pub fn half_from_le(b0: u8, b1: u8) -> (r: u32)
    ensures
        r == b0 + 0x100 * b1,
{
    proof {
        lemma_byte_bits(0, b0, b1, 0, 0);
    }
    (b0 as u32) | ((b1 as u32) << 8)
}

/// The number that four bytes hold, the first the least significant.
#[inline]
pub fn word_from_le(b0: u8, b1: u8, b2: u8, b3: u8) -> (r: u32)
    ensures
        r == b0 + 0x100 * b1 + 0x1_0000 * b2 + 0x100_0000 * b3,
{
    proof {
        lemma_byte_bits(0, b0, b1, b2, b3);
    }
    (b0 as u32) | ((b1 as u32) << 8) | ((b2 as u32) << 16) | ((b3 as u32) << 24)
}

/// Byte `k` of the word `x`, counted from the least significant.
#[inline]
pub fn byte_of(x: u32, k: u32) -> (r: u8)
    requires
        k < 4,
    ensures
        r == (x as int / (pow2((8 * k) as nat) as int)) % 0x100,
{
    proof {
        lemma_byte_bits(x, 0, 0, 0, 0);
        vstd::arithmetic::power2::lemma2_to64();
    }
    if k == 0 {
        assert(pow2((8 * k) as nat) == pow2(0));
        (x & 0xff) as u8
    } else if k == 1 {
        assert(pow2((8 * k) as nat) == pow2(8));
        ((x >> 8) & 0xff) as u8
    } else if k == 2 {
        assert(pow2((8 * k) as nat) == pow2(16));
        ((x >> 16) & 0xff) as u8
    } else {
        assert(pow2((8 * k) as nat) == pow2(24));
        ((x >> 24) & 0xff) as u8
    }
}

/// Reads the word `x` as a two's-complement number.
#[inline]
pub fn to_signed(x: u32) -> (r: i32)
    ensures
        r == signed(x),
{
    proof {
        lemma_word_bits(x, 0, 0);
    }
    x as i32
}

/// The word that holds the two's-complement number `v`.
#[inline]
pub fn to_unsigned(v: i32) -> (r: u32)
    ensures
        r == wrap(v as int),
        signed(r) == v,
{
    proof {
        lemma_word_bits(0, v, 0);
    }
    v as u32
}

/// The word `x` with its lowest bit cleared.
#[inline]
pub fn clear_low_bit(x: u32) -> (r: u32)
    ensures
        r == x - x % 2,
{
    proof {
        lemma_word_bits(x, 0, 0);
    }
    x & 0xffff_fffe
}

/// The operation of the register-register instruction `kind`, if it is one.
pub fn reg_operation(kind: InstructionKind) -> (op: Option<AluOp>)
    ensures
        op == reg_op(kind),
{
    match kind {
        InstructionKind::Add => Some(AluOp::Add),
        InstructionKind::Sub => Some(AluOp::Sub),
        InstructionKind::Sll => Some(AluOp::Sll),
        InstructionKind::Slt => Some(AluOp::Slt),
        InstructionKind::Sltu => Some(AluOp::Sltu),
        InstructionKind::Xor => Some(AluOp::Xor),
        InstructionKind::Srl => Some(AluOp::Srl),
        InstructionKind::Sra => Some(AluOp::Sra),
        InstructionKind::Or => Some(AluOp::Or),
        InstructionKind::And => Some(AluOp::And),
        _ => None,
    }
}

/// The operation of the register-immediate instruction `kind`, if it is
/// one.
pub fn imm_operation(kind: InstructionKind) -> (op: Option<AluOp>)
    ensures
        op == imm_op(kind),
{
    match kind {
        InstructionKind::Addi => Some(AluOp::Add),
        InstructionKind::Slti => Some(AluOp::Slt),
        InstructionKind::Sltiu => Some(AluOp::Sltu),
        InstructionKind::Xori => Some(AluOp::Xor),
        InstructionKind::Ori => Some(AluOp::Or),
        InstructionKind::Andi => Some(AluOp::And),
        InstructionKind::Slli => Some(AluOp::Sll),
        InstructionKind::Srli => Some(AluOp::Srl),
        InstructionKind::Srai => Some(AluOp::Sra),
        _ => None,
    }
}

/// The number of bytes that the load or store `kind` moves, and 0 for any
/// other kind.
pub fn access_width(kind: InstructionKind) -> (len: u32)
    ensures
        len == access_len(kind),
{
    match kind {
        InstructionKind::Lb | InstructionKind::Lbu | InstructionKind::Sb => 1,
        InstructionKind::Lh | InstructionKind::Lhu | InstructionKind::Sh => 2,
        InstructionKind::Lw | InstructionKind::Sw => 4,
        _ => 0,
    }
}

/// Extends the number `raw` that a load of kind `kind` read to a word.
pub fn extend_loaded(kind: InstructionKind, raw: u32) -> (r: u32)
    ensures
        r == loaded(kind, raw as int),
{
    match kind {
        InstructionKind::Lb => to_unsigned(sign_extend(raw, 8)),
        InstructionKind::Lh => to_unsigned(sign_extend(raw, 16)),
        _ => raw,
    }
}

/// Dividing `-(m + 1)` by a positive `p`, rounding down, gives one less than
/// the negated quotient of `m`.
proof fn lemma_floor_div_negative(m: int, p: int)
    requires
        m >= 0,
        p > 0,
    ensures
        (-(m + 1)) / p == -(m / p) - 1,
{
    let q = m / p;
    let r = m % p;
    vstd::arithmetic::div_mod::lemma_fundamental_div_mod(m, p);
    vstd::arithmetic::div_mod::lemma_mod_bound(m, p);
    assert(-(m + 1) == p * (-q - 1) + (p - r - 1)) by (nonlinear_arith)
        requires
            m == p * q + r,
    ;
    vstd::arithmetic::div_mod::lemma_fundamental_div_mod_converse(
        -(m + 1),
        p,
        -q - 1,
        p - r - 1,
    );
}

/// Applies the operation `op` to the operands `a` and `b`.
pub fn compute(op: AluOp, a: u32, b: u32) -> (r: u32)
    ensures
        r == alu(op, a, b),
{
    proof {
        lemma_word_bits(b, 0, 0);
    }
    match op {
        AluOp::Add => a.wrapping_add(b),
        AluOp::Sub => a.wrapping_sub(b),
        AluOp::Sll => a << (b & 0x1f),
        AluOp::Slt => if to_signed(a) < to_signed(b) {
            1
        } else {
            0
        },
        AluOp::Sltu => if a < b {
            1
        } else {
            0
        },
        AluOp::Xor => a ^ b,
        AluOp::Srl => a >> (b & 0x1f),
        AluOp::Sra => {
            let n: u32 = b & 0x1f;
            let s: i32 = to_signed(a);
            let t: i32 = s >> n;
            let r: u32 = to_unsigned(t);
            proof {
                let p = pow2(n as nat) as int;
                lemma_pow2_pos(n as nat);
                lemma_word_bits(a, t, n);
                assert(s == a as i32);
                assert(r == t as u32);
                if a >= 0x8000_0000u32 {
                    let m: u32 = !a;
                    lemma_u32_shr_is_div(m, n);
                    lemma_floor_div_negative(m as int, p);
                    lemma_word_bits(m >> n, 0, 0);
                    assert(m == -signed(a) - 1);
                    assert(r == !(m >> n));
                    assert((m >> n) == m as int / p);
                    assert(r == 0xffff_ffff - m as int / p);
                    assert(signed(a) / p == -(m as int / p) - 1);
                    assert(0 <= m as int / p <= m) by (nonlinear_arith)
                        requires
                            m >= 0,
                            p > 0,
                    ;
                } else {
                    lemma_u32_shr_is_div(a, n);
                    assert(r == a >> n);
                    assert(0 <= a as int / p <= a) by (nonlinear_arith)
                        requires
                            a >= 0,
                            p > 0,
                    ;
                }
            }
            r
        },
        AluOp::Or => a | b,
        AluOp::And => a & b,
    }
}

/// Decides the conditional branch of kind `kind` on the operands `a` and
/// `b`. A kind that is no branch is never taken.
pub fn taken(kind: InstructionKind, a: u32, b: u32) -> (t: bool)
    ensures
        t == branch_taken(kind, a, b),
{
    match kind {
        InstructionKind::Beq => a == b,
        InstructionKind::Bne => a != b,
        InstructionKind::Blt => to_signed(a) < to_signed(b),
        InstructionKind::Bge => to_signed(a) >= to_signed(b),
        InstructionKind::Bltu => a < b,
        InstructionKind::Bgeu => a >= b,
        _ => false,
    }
}

} // verus!
