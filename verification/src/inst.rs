//! Instruction words: field extraction, immediates and classification.

use vstd::prelude::*;
use vstd::arithmetic::power2::pow2;
use vstd::bits::low_bits_mask;
use vstd::bits::lemma_u64_low_bits_mask_is_mod;
use vstd::bits::lemma_u64_pow2_no_overflow;
use vstd::bits::lemma_u64_shl_is_mul;

verus! {

/// The value of the low `bits` bits of `value`, read as a two's-complement
/// number of that width.
pub open spec fn sign_extend_spec(value: int, bits: nat) -> int
    recommends
        bits >= 1,
{
    let low = value % (pow2(bits) as int);
    if low >= pow2((bits - 1) as nat) {
        low - pow2(bits)
    } else {
        low
    }
}

/// Sign extension by arithmetic agrees with the shift idiom: moving the low
/// `bits` bits to the top of the word and shifting them back arithmetically
/// gives the two's-complement value of those bits, for every width from 1
/// to 32 and every word.
pub proof fn lemma_sign_extend_is_shift(value: u32, bits: u32)
    requires
        1 <= bits <= 32,
    ensures
        sign_extend_spec(value as int, bits as nat) == (((value as i32) << ((32 - bits) as u32))
            >> ((32 - bits) as u32)),
{
    let shift: u32 = (32 - bits) as u32;
    let r: i32 = ((value as i32) << shift) >> shift;
    let wide: u64 = value as u64;
    let n: u64 = bits as u64;
    let h: u64 = (bits - 1) as u64;
    lemma_u64_pow2_no_overflow(n as nat);
    lemma_u64_pow2_no_overflow(h as nat);
    lemma_u64_shl_is_mul(1, n);
    lemma_u64_shl_is_mul(1, h);
    lemma_u64_low_bits_mask_is_mod(wide, n as nat);
    let full: u64 = 1u64 << n;
    let half: u64 = 1u64 << h;
    let mask: u64 = (full - 1) as u64;
    assert(full == pow2(n as nat));
    assert(half == pow2(h as nat));
    assert(mask == low_bits_mask(n as nat) as u64);
    let low: u64 = wide & mask;
    assert(low == wide % full);
    assert(r == if low >= half {
        low - full
    } else {
        low as int
    }) by (bit_vector)
        requires
            1 <= bits <= 32,
            shift == 32 - bits,
            n == bits as u64,
            h == (bits - 1) as u64,
            wide == value as u64,
            full == 1u64 << n,
            half == 1u64 << h,
            mask == (full - 1) as u64,
            low == wide & mask,
            r == ((value as i32) << shift) >> shift,
    ;
}

/// Sign-extends the low `bits` bits of `value` to the full signed word.
pub fn sign_extend(value: u32, bits: u32) -> (r: i32)
    requires
        1 <= bits <= 32,
    ensures
        r == sign_extend_spec(value as int, bits as nat),
{
    proof {
        lemma_sign_extend_is_shift(value, bits);
    }
    let shift: u32 = 32 - bits;
    ((value as i32) << shift) >> shift
}

/// The bits `hi` down to `lo` of `word`, as a number.
pub open spec fn bit_range(word: u32, hi: nat, lo: nat) -> int
    recommends
        lo <= hi < 32,
{
    (word as int / (pow2(lo) as int)) % (pow2((hi - lo + 1) as nat) as int)
}

/// The operation that an instruction word encodes.
#[derive(Clone, Copy, Debug, PartialEq, Eq, Structural)]
pub enum InstructionKind {
    /// Load upper immediate.
    Lui,
    /// Add upper immediate to PC.
    Auipc,
    /// Jump and link.
    Jal,
    /// Branch if equal.
    Beq,
    /// Branch if not equal.
    Bne,
    /// Branch if less than, signed.
    Blt,
    /// Branch if greater than or equal, signed.
    Bge,
    /// Branch if less than, unsigned.
    Bltu,
    /// Branch if greater than or equal, unsigned.
    Bgeu,
    /// Jump and link register.
    Jalr,
    /// Load byte, sign-extended.
    Lb,
    /// Load halfword, sign-extended.
    Lh,
    /// Load word.
    Lw,
    /// Load byte, zero-extended.
    Lbu,
    /// Load halfword, zero-extended.
    Lhu,
    /// Add immediate.
    Addi,
    /// Set if less than immediate, signed.
    Slti,
    /// Set if less than immediate, unsigned.
    Sltiu,
    /// XOR immediate.
    Xori,
    /// OR immediate.
    Ori,
    /// AND immediate.
    Andi,
    /// Store byte.
    Sb,
    /// Store halfword.
    Sh,
    /// Store word.
    Sw,
    /// Shift left by a constant.
    Slli,
    /// Logical shift right by a constant.
    Srli,
    /// Arithmetic shift right by a constant.
    Srai,
    /// Add.
    Add,
    /// Subtract.
    Sub,
    /// Shift left by a register.
    Sll,
    /// Set if less than, signed.
    Slt,
    /// Set if less than, unsigned.
    Sltu,
    /// XOR.
    Xor,
    /// Logical shift right by a register.
    Srl,
    /// Arithmetic shift right by a register.
    Sra,
    /// OR.
    Or,
    /// AND.
    And,
    /// Memory ordering fence.
    Fence,
    /// Environment call.
    ECall,
    /// Breakpoint.
    EBreak,
    /// An encoding that matches no RV32I instruction.
    Unknown,
}

impl InstructionKind {
    /// The assembler's name for the kind, in lower case.
    pub open spec fn mnemonic_spec(&self) -> Seq<char> {
        match self {
            InstructionKind::Lui => "lui"@,
            InstructionKind::Auipc => "auipc"@,
            InstructionKind::Jal => "jal"@,
            InstructionKind::Beq => "beq"@,
            InstructionKind::Bne => "bne"@,
            InstructionKind::Blt => "blt"@,
            InstructionKind::Bge => "bge"@,
            InstructionKind::Bltu => "bltu"@,
            InstructionKind::Bgeu => "bgeu"@,
            InstructionKind::Jalr => "jalr"@,
            InstructionKind::Lb => "lb"@,
            InstructionKind::Lh => "lh"@,
            InstructionKind::Lw => "lw"@,
            InstructionKind::Lbu => "lbu"@,
            InstructionKind::Lhu => "lhu"@,
            InstructionKind::Addi => "addi"@,
            InstructionKind::Slti => "slti"@,
            InstructionKind::Sltiu => "sltiu"@,
            InstructionKind::Xori => "xori"@,
            InstructionKind::Ori => "ori"@,
            InstructionKind::Andi => "andi"@,
            InstructionKind::Sb => "sb"@,
            InstructionKind::Sh => "sh"@,
            InstructionKind::Sw => "sw"@,
            InstructionKind::Slli => "slli"@,
            InstructionKind::Srli => "srli"@,
            InstructionKind::Srai => "srai"@,
            InstructionKind::Add => "add"@,
            InstructionKind::Sub => "sub"@,
            InstructionKind::Sll => "sll"@,
            InstructionKind::Slt => "slt"@,
            InstructionKind::Sltu => "sltu"@,
            InstructionKind::Xor => "xor"@,
            InstructionKind::Srl => "srl"@,
            InstructionKind::Sra => "sra"@,
            InstructionKind::Or => "or"@,
            InstructionKind::And => "and"@,
            InstructionKind::Fence => "fence"@,
            InstructionKind::ECall => "ecall"@,
            InstructionKind::EBreak => "ebreak"@,
            InstructionKind::Unknown => "<unknown>"@,
        }
    }

    /// The assembler's name for the kind, in lower case; `<unknown>` for an
    /// unrecognised encoding.
    pub fn mnemonic(&self) -> (name: &'static str)
        ensures
            name@ == self.mnemonic_spec(),
    {
        match self {
            InstructionKind::Lui => "lui",
            InstructionKind::Auipc => "auipc",
            InstructionKind::Jal => "jal",
            InstructionKind::Beq => "beq",
            InstructionKind::Bne => "bne",
            InstructionKind::Blt => "blt",
            InstructionKind::Bge => "bge",
            InstructionKind::Bltu => "bltu",
            InstructionKind::Bgeu => "bgeu",
            InstructionKind::Jalr => "jalr",
            InstructionKind::Lb => "lb",
            InstructionKind::Lh => "lh",
            InstructionKind::Lw => "lw",
            InstructionKind::Lbu => "lbu",
            InstructionKind::Lhu => "lhu",
            InstructionKind::Addi => "addi",
            InstructionKind::Slti => "slti",
            InstructionKind::Sltiu => "sltiu",
            InstructionKind::Xori => "xori",
            InstructionKind::Ori => "ori",
            InstructionKind::Andi => "andi",
            InstructionKind::Sb => "sb",
            InstructionKind::Sh => "sh",
            InstructionKind::Sw => "sw",
            InstructionKind::Slli => "slli",
            InstructionKind::Srli => "srli",
            InstructionKind::Srai => "srai",
            InstructionKind::Add => "add",
            InstructionKind::Sub => "sub",
            InstructionKind::Sll => "sll",
            InstructionKind::Slt => "slt",
            InstructionKind::Sltu => "sltu",
            InstructionKind::Xor => "xor",
            InstructionKind::Srl => "srl",
            InstructionKind::Sra => "sra",
            InstructionKind::Or => "or",
            InstructionKind::And => "and",
            InstructionKind::Fence => "fence",
            InstructionKind::ECall => "ecall",
            InstructionKind::EBreak => "ebreak",
            InstructionKind::Unknown => "<unknown>",
        }
    }
}

/// Opcode of LUI.
pub const OP_LUI: u32 = 0b0110111;

/// Opcode of AUIPC.
pub const OP_AUIPC: u32 = 0b0010111;

/// Opcode of JAL.
pub const OP_JAL: u32 = 0b1101111;

/// Opcode of JALR.
pub const OP_JALR: u32 = 0b1100111;

/// Opcode shared by the conditional branches.
pub const OP_BRANCH: u32 = 0b1100011;

/// Opcode shared by the loads.
pub const OP_LOAD: u32 = 0b0000011;

/// Opcode shared by the stores.
pub const OP_STORE: u32 = 0b0100011;

/// Opcode shared by the register-immediate operations.
pub const OP_IMM: u32 = 0b0010011;

/// Opcode shared by the register-register operations.
pub const OP_REG: u32 = 0b0110011;

/// Opcode of FENCE.
pub const OP_FENCE: u32 = 0b0001111;

/// The one word that encodes ECALL.
pub const WORD_ECALL: u32 = 0x0000_0073;

/// The one word that encodes EBREAK.
pub const WORD_EBREAK: u32 = 0x0010_0073;

/// The operation selected by an opcode, a minor and a major function code.
/// ECALL and EBREAK share all three and are told apart by the whole word.
pub open spec fn classify(opcode: int, funct3: int, funct7: int, word: u32) -> InstructionKind {
    if opcode == OP_LUI {
        InstructionKind::Lui
    } else if opcode == OP_AUIPC {
        InstructionKind::Auipc
    } else if opcode == OP_JAL {
        InstructionKind::Jal
    } else if opcode == OP_JALR {
        if funct3 == 0 {
            InstructionKind::Jalr
        } else {
            InstructionKind::Unknown
        }
    } else if opcode == OP_BRANCH {
        if funct3 == 0 {
            InstructionKind::Beq
        } else if funct3 == 1 {
            InstructionKind::Bne
        } else if funct3 == 4 {
            InstructionKind::Blt
        } else if funct3 == 5 {
            InstructionKind::Bge
        } else if funct3 == 6 {
            InstructionKind::Bltu
        } else if funct3 == 7 {
            InstructionKind::Bgeu
        } else {
            InstructionKind::Unknown
        }
    } else if opcode == OP_LOAD {
        if funct3 == 0 {
            InstructionKind::Lb
        } else if funct3 == 1 {
            InstructionKind::Lh
        } else if funct3 == 2 {
            InstructionKind::Lw
        } else if funct3 == 4 {
            InstructionKind::Lbu
        } else if funct3 == 5 {
            InstructionKind::Lhu
        } else {
            InstructionKind::Unknown
        }
    } else if opcode == OP_STORE {
        if funct3 == 0 {
            InstructionKind::Sb
        } else if funct3 == 1 {
            InstructionKind::Sh
        } else if funct3 == 2 {
            InstructionKind::Sw
        } else {
            InstructionKind::Unknown
        }
    } else if opcode == OP_IMM {
        if funct3 == 0 {
            InstructionKind::Addi
        } else if funct3 == 2 {
            InstructionKind::Slti
        } else if funct3 == 3 {
            InstructionKind::Sltiu
        } else if funct3 == 4 {
            InstructionKind::Xori
        } else if funct3 == 6 {
            InstructionKind::Ori
        } else if funct3 == 7 {
            InstructionKind::Andi
        } else if funct3 == 1 && funct7 == 0 {
            InstructionKind::Slli
        } else if funct3 == 5 && funct7 == 0 {
            InstructionKind::Srli
        } else if funct3 == 5 && funct7 == 0x20 {
            InstructionKind::Srai
        } else {
            InstructionKind::Unknown
        }
    } else if opcode == OP_REG {
        if funct7 == 0 {
            if funct3 == 0 {
                InstructionKind::Add
            } else if funct3 == 1 {
                InstructionKind::Sll
            } else if funct3 == 2 {
                InstructionKind::Slt
            } else if funct3 == 3 {
                InstructionKind::Sltu
            } else if funct3 == 4 {
                InstructionKind::Xor
            } else if funct3 == 5 {
                InstructionKind::Srl
            } else if funct3 == 6 {
                InstructionKind::Or
            } else if funct3 == 7 {
                InstructionKind::And
            } else {
                InstructionKind::Unknown
            }
        } else if funct7 == 0x20 {
            if funct3 == 0 {
                InstructionKind::Sub
            } else if funct3 == 5 {
                InstructionKind::Sra
            } else {
                InstructionKind::Unknown
            }
        } else {
            InstructionKind::Unknown
        }
    } else if opcode == OP_FENCE {
        if funct3 == 0 {
            InstructionKind::Fence
        } else {
            InstructionKind::Unknown
        }
    } else if word == WORD_ECALL {
        InstructionKind::ECall
    } else if word == WORD_EBREAK {
        InstructionKind::EBreak
    } else {
        InstructionKind::Unknown
    }
}

/// A raw 32-bit instruction word.
#[derive(Clone, Copy, Debug)]
pub struct Instruction(pub u32);

proof fn lemma_field_bits(w: u32)
    by (bit_vector)
    ensures
        w & 0x7f == w % 0x80,
        (w >> 7) & 0x1f == (w / 0x80) % 0x20,
        (w >> 12) & 0x7 == (w / 0x1000) % 0x8,
        (w >> 15) & 0x1f == (w / 0x8000) % 0x20,
        (w >> 20) & 0x1f == (w / 0x10_0000) % 0x20,
        (w >> 25) == (w / 0x200_0000) % 0x80,
{
}

proof fn lemma_field_powers()
    ensures
        pow2(0) == 1,
        pow2(1) == 2,
        pow2(3) == 8,
        pow2(4) == 16,
        pow2(5) == 32,
        pow2(6) == 64,
        pow2(7) == 0x80,
        pow2(8) == 0x100,
        pow2(10) == 0x400,
        pow2(11) == 0x800,
        pow2(12) == 0x1000,
        pow2(15) == 0x8000,
        pow2(19) == 0x8_0000,
        pow2(20) == 0x10_0000,
        pow2(21) == 0x20_0000,
        pow2(25) == 0x200_0000,
        pow2(31) == 0x8000_0000,
{
    vstd::arithmetic::power2::lemma2_to64();
}

proof fn lemma_immediate_bits(w: u32)
    by (bit_vector)
    ensures
        w >> 20 == (w / 0x10_0000) % 0x1000,
        ((w >> 25) << 5) | ((w >> 7) & 0x1f) == ((w / 0x200_0000) % 0x80) * 0x20 + (w / 0x80) % 0x20,
        ((w >> 31) << 12) | (((w >> 7) & 0x1) << 11) | (((w >> 25) & 0x3f) << 5) | (((w >> 8)
            & 0xf) << 1) == (w / 0x8000_0000) % 2 * 0x1000 + (w / 0x80) % 2 * 0x800 + (w
            / 0x200_0000) % 0x40 * 0x20 + (w / 0x100) % 0x10 * 2,
        w >> 12 == (w / 0x1000) % 0x10_0000,
        ((w >> 31) << 20) | (((w >> 12) & 0xff) << 12) | (((w >> 20) & 0x1) << 11) | (((w >> 21)
            & 0x3ff) << 1) == (w / 0x8000_0000) % 2 * 0x10_0000 + (w / 0x1000) % 0x100 * 0x1000
            + (w / 0x10_0000) % 2 * 0x800 + (w / 0x20_0000) % 0x400 * 2,
{
}

proof fn lemma_upper_shift(x: i32)
    by (bit_vector)
    requires
        -0x8_0000 <= x < 0x8_0000,
    ensures
        x << 12u32 == x * 0x1000,
{
}

impl Instruction {
    /// The number of bytes that one instruction occupies.
    pub const BYTES: usize = 4;

    /// The opcode, bits 6 to 0.
    pub open spec fn opcode_spec(&self) -> int {
        bit_range(self.0, 6, 0)
    }

    /// The destination register, bits 11 to 7.
    pub open spec fn rd_spec(&self) -> int {
        bit_range(self.0, 11, 7)
    }

    /// The minor function code, bits 14 to 12.
    pub open spec fn funct3_spec(&self) -> int {
        bit_range(self.0, 14, 12)
    }

    /// The first source register, bits 19 to 15.
    pub open spec fn rs1_spec(&self) -> int {
        bit_range(self.0, 19, 15)
    }

    /// The second source register, bits 24 to 20.
    pub open spec fn rs2_spec(&self) -> int {
        bit_range(self.0, 24, 20)
    }

    /// The major function code, bits 31 to 25.
    pub open spec fn funct7_spec(&self) -> int {
        bit_range(self.0, 31, 25)
    }

    /// The I-type immediate: bits 31 to 20, sign-extended from 12 bits.
    pub open spec fn imm_i_spec(&self) -> int {
        sign_extend_spec(bit_range(self.0, 31, 20), 12)
    }

    /// The S-type immediate: bits 31 to 25 above bits 11 to 7, sign-extended
    /// from 12 bits.
    pub open spec fn imm_s_spec(&self) -> int {
        sign_extend_spec(bit_range(self.0, 31, 25) * 32 + bit_range(self.0, 11, 7), 12)
    }

    /// The B-type immediate: bit 31, bit 7, bits 30 to 25 and bits 11 to 8
    /// above a zero bit, sign-extended from 13 bits.
    pub open spec fn imm_b_spec(&self) -> int {
        sign_extend_spec(
            bit_range(self.0, 31, 31) * 4096 + bit_range(self.0, 7, 7) * 2048 + bit_range(
                self.0,
                30,
                25,
            ) * 32 + bit_range(self.0, 11, 8) * 2,
            13,
        )
    }

    /// The U-type immediate: bits 31 to 12, sign-extended from 20 bits and
    /// placed above twelve zero bits.
    pub open spec fn imm_u_spec(&self) -> int {
        sign_extend_spec(bit_range(self.0, 31, 12), 20) * 4096
    }

    /// The J-type immediate: bit 31, bits 19 to 12, bit 20 and bits 30 to 21
    /// above a zero bit, sign-extended from 21 bits.
    pub open spec fn imm_j_spec(&self) -> int {
        sign_extend_spec(
            bit_range(self.0, 31, 31) * 0x10_0000 + bit_range(self.0, 19, 12) * 4096 + bit_range(
                self.0,
                20,
                20,
            ) * 2048 + bit_range(self.0, 30, 21) * 2,
            21,
        )
    }

    /// The operation that this word encodes.
    pub open spec fn kind_spec(&self) -> InstructionKind {
        classify(self.opcode_spec(), self.funct3_spec(), self.funct7_spec(), self.0)
    }

    /// The opcode, bits 6 to 0.
    #[inline]
    pub fn opcode(&self) -> (r: u32)
        ensures
            r == self.opcode_spec(),
            r < 128,
    {
        proof {
            lemma_field_bits(self.0);
            lemma_field_powers();
        }
        self.0 & 0x7f
    }

    /// The destination register, bits 11 to 7.
    #[inline]
    pub fn rd(&self) -> (r: u32)
        ensures
            r == self.rd_spec(),
            r < 32,
    {
        proof {
            lemma_field_bits(self.0);
            lemma_field_powers();
        }
        (self.0 >> 7) & 0x1f
    }

    /// The minor function code, bits 14 to 12.
    #[inline]
    pub fn funct3(&self) -> (r: u32)
        ensures
            r == self.funct3_spec(),
            r < 8,
    {
        proof {
            lemma_field_bits(self.0);
            lemma_field_powers();
        }
        (self.0 >> 12) & 0x7
    }

    /// The first source register, bits 19 to 15.
    #[inline]
    pub fn rs1(&self) -> (r: u32)
        ensures
            r == self.rs1_spec(),
            r < 32,
    {
        proof {
            lemma_field_bits(self.0);
            lemma_field_powers();
        }
        (self.0 >> 15) & 0x1f
    }

    /// The second source register, bits 24 to 20.
    #[inline]
    pub fn rs2(&self) -> (r: u32)
        ensures
            r == self.rs2_spec(),
            r < 32,
    {
        proof {
            lemma_field_bits(self.0);
            lemma_field_powers();
        }
        (self.0 >> 20) & 0x1f
    }

    /// The major function code, bits 31 to 25.
    #[inline]
    pub fn funct7(&self) -> (r: u32)
        ensures
            r == self.funct7_spec(),
            r < 128,
    {
        proof {
            lemma_field_bits(self.0);
            lemma_field_powers();
        }
        self.0 >> 25
    }
}

impl Instruction {
    /// Classifies the word by its opcode and function codes. A word that
    /// matches no RV32I encoding is `Unknown`.
    pub fn kind(&self) -> (k: InstructionKind)
        ensures
            k == self.kind_spec(),
    {
        proof {
            lemma_field_powers();
            // Both fixed words carry the SYSTEM opcode, which no other
            // instruction shares.
            assert(WORD_ECALL == 0x73);
            assert(0x73int / 1 == 0x73);
            assert(0x73int % 0x80 == 0x73);
            assert(bit_range(0x73, 6, 0) == 0x73);
            assert(bit_range(WORD_EBREAK, 6, 0) == 0x73);
        }
        let opcode: u32 = self.opcode();
        let funct3: u32 = self.funct3();
        let funct7: u32 = self.funct7();
        match (opcode, funct3, funct7) {
            (0b0110111, _, _) => InstructionKind::Lui,
            (0b0010111, _, _) => InstructionKind::Auipc,
            (0b1101111, _, _) => InstructionKind::Jal,
            (0b1100011, 0b000, _) => InstructionKind::Beq,
            (0b1100011, 0b001, _) => InstructionKind::Bne,
            (0b1100011, 0b100, _) => InstructionKind::Blt,
            (0b1100011, 0b101, _) => InstructionKind::Bge,
            (0b1100011, 0b110, _) => InstructionKind::Bltu,
            (0b1100011, 0b111, _) => InstructionKind::Bgeu,
            (0b1100111, 0b000, _) => InstructionKind::Jalr,
            (0b0000011, 0b000, _) => InstructionKind::Lb,
            (0b0000011, 0b001, _) => InstructionKind::Lh,
            (0b0000011, 0b010, _) => InstructionKind::Lw,
            (0b0000011, 0b100, _) => InstructionKind::Lbu,
            (0b0000011, 0b101, _) => InstructionKind::Lhu,
            (0b0010011, 0b000, _) => InstructionKind::Addi,
            (0b0010011, 0b010, _) => InstructionKind::Slti,
            (0b0010011, 0b011, _) => InstructionKind::Sltiu,
            (0b0010011, 0b100, _) => InstructionKind::Xori,
            (0b0010011, 0b110, _) => InstructionKind::Ori,
            (0b0010011, 0b111, _) => InstructionKind::Andi,
            (0b0100011, 0b000, _) => InstructionKind::Sb,
            (0b0100011, 0b001, _) => InstructionKind::Sh,
            (0b0100011, 0b010, _) => InstructionKind::Sw,
            (0b0010011, 0b001, 0b0000000) => InstructionKind::Slli,
            (0b0010011, 0b101, 0b0000000) => InstructionKind::Srli,
            (0b0010011, 0b101, 0b0100000) => InstructionKind::Srai,
            (0b0110011, 0b000, 0b0000000) => InstructionKind::Add,
            (0b0110011, 0b000, 0b0100000) => InstructionKind::Sub,
            (0b0110011, 0b001, 0b0000000) => InstructionKind::Sll,
            (0b0110011, 0b010, 0b0000000) => InstructionKind::Slt,
            (0b0110011, 0b011, 0b0000000) => InstructionKind::Sltu,
            (0b0110011, 0b100, 0b0000000) => InstructionKind::Xor,
            (0b0110011, 0b101, 0b0000000) => InstructionKind::Srl,
            (0b0110011, 0b101, 0b0100000) => InstructionKind::Sra,
            (0b0110011, 0b110, 0b0000000) => InstructionKind::Or,
            (0b0110011, 0b111, 0b0000000) => InstructionKind::And,
            (0b0001111, 0b000, _) => InstructionKind::Fence,
            _ => {
                if self.0 == WORD_ECALL {
                    InstructionKind::ECall
                } else if self.0 == WORD_EBREAK {
                    InstructionKind::EBreak
                } else {
                    InstructionKind::Unknown
                }
            },
        }
    }

    /// Sign-extended immediate of an I-type instruction.
    pub fn imm_i(&self) -> (r: i32)
        ensures
            r == self.imm_i_spec(),
    {
        proof {
            lemma_immediate_bits(self.0);
            lemma_field_powers();
        }
        let imm: u32 = self.0 >> 20;
        sign_extend(imm, 12)
    }

    /// Sign-extended immediate of an S-type instruction.
    pub fn imm_s(&self) -> (r: i32)
        ensures
            r == self.imm_s_spec(),
    {
        proof {
            lemma_immediate_bits(self.0);
            lemma_field_powers();
        }
        let imm11_5: u32 = (self.0 >> 25) << 5;
        let imm4_0: u32 = (self.0 >> 7) & 0x1f;
        let imm: u32 = imm11_5 | imm4_0;
        sign_extend(imm, 12)
    }

    /// Sign-extended immediate of a B-type instruction.
    pub fn imm_b(&self) -> (r: i32)
        ensures
            r == self.imm_b_spec(),
    {
        proof {
            lemma_immediate_bits(self.0);
            lemma_field_powers();
        }
        let imm12: u32 = (self.0 >> 31) << 12;
        let imm11: u32 = ((self.0 >> 7) & 0x1) << 11;
        let imm10_5: u32 = ((self.0 >> 25) & 0x3f) << 5;
        let imm4_1: u32 = ((self.0 >> 8) & 0xf) << 1;
        let imm: u32 = imm12 | imm11 | imm10_5 | imm4_1;
        sign_extend(imm, 13)
    }

    /// Sign-extended immediate of a U-type instruction, with its low twelve
    /// bits zero.
    pub fn imm_u(&self) -> (r: i32)
        ensures
            r == self.imm_u_spec(),
    {
        proof {
            lemma_immediate_bits(self.0);
            lemma_field_powers();
        }
        let imm: u32 = self.0 >> 12;
        let upper: i32 = sign_extend(imm, 20);
        proof {
            lemma_upper_shift(upper);
        }
        upper << 12u32
    }

    /// Sign-extended immediate of a J-type instruction.
    pub fn imm_j(&self) -> (r: i32)
        ensures
            r == self.imm_j_spec(),
    {
        proof {
            lemma_immediate_bits(self.0);
            lemma_field_powers();
        }
        let imm20: u32 = (self.0 >> 31) << 20;
        let imm19_12: u32 = ((self.0 >> 12) & 0xff) << 12;
        let imm11: u32 = ((self.0 >> 20) & 0x1) << 11;
        let imm10_1: u32 = ((self.0 >> 21) & 0x3ff) << 1;
        let imm: u32 = imm20 | imm19_12 | imm11 | imm10_1;
        sign_extend(imm, 21)
    }
}

} // verus!
