//! The architectural state as a mathematical value, and what one
//! instruction does to it.

use vstd::prelude::*;
use vstd::arithmetic::power2::pow2;
use crate::inst::Instruction;
use crate::inst::InstructionKind;
use crate::inst::sign_extend_spec;

verus! {

/// A memory access that fell outside the memory window.
#[derive(Clone, Copy, Debug, PartialEq, Eq, Structural)]
pub enum Fault {
    /// The four bytes of the instruction at `pc` do not all lie in memory.
    Fetch { pc: u32 },
    /// A load of `len` bytes at `addr` does not lie in memory.
    Load { addr: u32, len: u32 },
    /// A store of `len` bytes at `addr` does not lie in memory.
    Store { addr: u32, len: u32 },
}

/// The low 32 bits of `x`, as an unsigned word.
pub open spec fn wrap(x: int) -> u32 {
    (x % 0x1_0000_0000) as u32
}

/// The two's-complement value of the word `x`.
pub open spec fn signed(x: u32) -> int {
    if x >= 0x8000_0000 {
        x - 0x1_0000_0000
    } else {
        x as int
    }
}

/// The arithmetic and logic operations of the register-register group; the
/// register-immediate group applies the same operations to an immediate.
#[derive(Clone, Copy, Debug, PartialEq, Eq, Structural)]
pub enum AluOp {
    Add,
    Sub,
    Sll,
    Slt,
    Sltu,
    Xor,
    Srl,
    Sra,
    Or,
    And,
}

/// The result of `op` on the operands `a` and `b`. Sums and differences
/// wrap; comparisons give 1 or 0; shifts move by the low five bits of `b`,
/// and the arithmetic one divides the signed value, rounding down.
pub open spec fn alu(op: AluOp, a: u32, b: u32) -> u32 {
    match op {
        AluOp::Add => wrap(a + b),
        AluOp::Sub => wrap(a - b),
        AluOp::Sll => a << (b % 32),
        AluOp::Slt => if signed(a) < signed(b) {
            1
        } else {
            0
        },
        AluOp::Sltu => if a < b {
            1
        } else {
            0
        },
        AluOp::Xor => a ^ b,
        AluOp::Srl => a >> (b % 32),
        AluOp::Sra => wrap(signed(a) / (pow2((b % 32) as nat) as int)),
        AluOp::Or => a | b,
        AluOp::And => a & b,
    }
}

/// The comparison that decides a conditional branch of kind `kind`.
pub open spec fn branch_taken(kind: InstructionKind, a: u32, b: u32) -> bool {
    match kind {
        InstructionKind::Beq => a == b,
        InstructionKind::Bne => a != b,
        InstructionKind::Blt => signed(a) < signed(b),
        InstructionKind::Bge => signed(a) >= signed(b),
        InstructionKind::Bltu => a < b,
        InstructionKind::Bgeu => a >= b,
        _ => false,
    }
}

/// The operation of a register-register instruction.
pub open spec fn reg_op(kind: InstructionKind) -> Option<AluOp> {
    match kind {
        InstructionKind::Add => Some(AluOp::Add),
        InstructionKind::Sub => Some(AluOp::Sub),
        InstructionKind::Sll => Some(AluOp::Sll),
        InstructionKind::Slt => Some(AluOp::Slt),
        InstructionKind::Sltu => Some(AluOp::Sltu),
        InstructionKind::Xor => Some(AluOp::Xor),
        InstructionKind::Srl => Some(AluOp::Srl),
        InstructionKind::Sra => Some(AluOp::Sra),
        InstructionKind::Or => Some(AluOp::Or),
        InstructionKind::And => Some(AluOp::And),
        _ => None,
    }
}

/// The operation of a register-immediate instruction.
pub open spec fn imm_op(kind: InstructionKind) -> Option<AluOp> {
    match kind {
        InstructionKind::Addi => Some(AluOp::Add),
        InstructionKind::Slti => Some(AluOp::Slt),
        InstructionKind::Sltiu => Some(AluOp::Sltu),
        InstructionKind::Xori => Some(AluOp::Xor),
        InstructionKind::Ori => Some(AluOp::Or),
        InstructionKind::Andi => Some(AluOp::And),
        InstructionKind::Slli => Some(AluOp::Sll),
        InstructionKind::Srli => Some(AluOp::Srl),
        InstructionKind::Srai => Some(AluOp::Sra),
        _ => None,
    }
}

/// The number of bytes that a load or store of kind `kind` moves.
pub open spec fn access_len(kind: InstructionKind) -> int {
    match kind {
        InstructionKind::Lb | InstructionKind::Lbu | InstructionKind::Sb => 1,
        InstructionKind::Lh | InstructionKind::Lhu | InstructionKind::Sh => 2,
        InstructionKind::Lw | InstructionKind::Sw => 4,
        _ => 0,
    }
}

/// The registers, program counter and memory of the machine.
pub struct Machine {
    /// The 32 registers, `x0` first.
    pub regs: Seq<u32>,
    /// The program counter.
    pub pc: u32,
    /// The bytes of the memory window, in address order.
    pub mem: Seq<u8>,
    /// The first address of the memory window.
    pub start: u32,
    /// The address just past the memory window.
    pub end: u32,
}

impl Machine {
    /// There are 32 registers, and memory holds one byte per address.
    pub open spec fn wf(self) -> bool {
        &&& self.regs.len() == 32
        &&& self.start <= self.end
        &&& self.mem.len() == self.end - self.start
    }

    /// Whether the `len` bytes from `addr` on all lie in memory.
    pub open spec fn holds(self, addr: int, len: int) -> bool {
        self.start <= addr && addr + len <= self.end
    }

    /// Whether the program counter points into memory, so that another
    /// cycle may begin.
    pub open spec fn runnable(self) -> bool {
        self.start <= self.pc < self.end
    }

    /// The byte at `addr`.
    pub open spec fn byte(self, addr: int) -> int {
        self.mem[addr - self.start] as int
    }

    /// The little-endian number that the `len` bytes from `addr` on hold,
    /// for a length of 1, 2 or 4.
    pub open spec fn load(self, addr: int, len: int) -> int {
        if len == 1 {
            self.byte(addr)
        } else if len == 2 {
            self.byte(addr) + 0x100 * self.byte(addr + 1)
        } else {
            self.byte(addr) + 0x100 * self.byte(addr + 1) + 0x1_0000 * self.byte(addr + 2)
                + 0x100_0000 * self.byte(addr + 3)
        }
    }

    /// The machine with byte `k` of the little-endian form of `value`
    /// stored at `addr + k`, for each `k` below `len`.
    pub open spec fn store(self, addr: int, len: int, value: u32) -> Machine {
        let at = addr - self.start;
        Machine {
            mem: Seq::new(
                self.mem.len(),
                |i: int|
                    if at <= i < at + len {
                        ((value as int / (pow2((8 * (i - at)) as nat) as int)) % 0x100) as u8
                    } else {
                        self.mem[i]
                    },
            ),
            ..self
        }
    }

    /// The machine with register `rd` holding `value`.
    pub open spec fn set_reg(self, rd: int, value: u32) -> Machine {
        Machine { regs: self.regs.update(rd, value), ..self }
    }

    /// The machine with the program counter at `pc`.
    pub open spec fn set_pc(self, pc: u32) -> Machine {
        Machine { pc, ..self }
    }

    /// The machine with register `x0` forced to zero, as it is at the start
    /// of every cycle.
    pub open spec fn zeroed(self) -> Machine {
        self.set_reg(0, 0)
    }
}

/// The value that a load of kind `kind` puts in its register, given the
/// number `raw` that the bytes hold: `LB` and `LH` extend the sign, the
/// others leave the upper bits zero.
pub open spec fn loaded(kind: InstructionKind, raw: int) -> u32 {
    match kind {
        InstructionKind::Lb => wrap(sign_extend_spec(raw, 8)),
        InstructionKind::Lh => wrap(sign_extend_spec(raw, 16)),
        _ => wrap(raw),
    }
}

/// The architectural effect of the instruction `inst`, fetched from `addr`,
/// on the machine `m`: the next machine, or the fault of a load or store
/// that leaves the memory window. The program counter moves to the target
/// of a jump or taken branch, and four bytes past `addr` otherwise.
pub open spec fn effect(m: Machine, inst: Instruction, addr: u32) -> Result<Machine, Fault> {
    let kind = inst.kind_spec();
    let rd = inst.rd_spec();
    let a = m.regs[inst.rs1_spec()];
    let b = m.regs[inst.rs2_spec()];
    let next = wrap(addr + 4);
    match kind {
        InstructionKind::Lui => Ok(m.set_reg(rd, wrap(inst.imm_u_spec())).set_pc(next)),
        InstructionKind::Auipc => Ok(m.set_reg(rd, wrap(addr + inst.imm_u_spec())).set_pc(next)),
        InstructionKind::Jal => Ok(m.set_reg(rd, next).set_pc(wrap(addr + inst.imm_j_spec()))),
        InstructionKind::Jalr => {
            let target = wrap(a + inst.imm_i_spec());
            Ok(m.set_reg(rd, next).set_pc((target - target % 2) as u32))
        },
        InstructionKind::Beq
        | InstructionKind::Bne
        | InstructionKind::Blt
        | InstructionKind::Bge
        | InstructionKind::Bltu
        | InstructionKind::Bgeu => if branch_taken(kind, a, b) {
            Ok(m.set_pc(wrap(addr + inst.imm_b_spec())))
        } else {
            Ok(m.set_pc(next))
        },
        InstructionKind::Lb
        | InstructionKind::Lh
        | InstructionKind::Lw
        | InstructionKind::Lbu
        | InstructionKind::Lhu => {
            let from = wrap(a + inst.imm_i_spec());
            let len = access_len(kind);
            if m.holds(from as int, len) {
                Ok(m.set_reg(rd, loaded(kind, m.load(from as int, len))).set_pc(next))
            } else {
                Err(Fault::Load { addr: from, len: len as u32 })
            }
        },
        InstructionKind::Sb | InstructionKind::Sh | InstructionKind::Sw => {
            let to = wrap(a + inst.imm_s_spec());
            let len = access_len(kind);
            if m.holds(to as int, len) {
                Ok(m.store(to as int, len, b).set_pc(next))
            } else {
                Err(Fault::Store { addr: to, len: len as u32 })
            }
        },
        InstructionKind::Addi
        | InstructionKind::Slti
        | InstructionKind::Sltiu
        | InstructionKind::Xori
        | InstructionKind::Ori
        | InstructionKind::Andi
        | InstructionKind::Slli
        | InstructionKind::Srli
        | InstructionKind::Srai => Ok(
            m.set_reg(rd, alu(imm_op(kind).unwrap(), a, wrap(inst.imm_i_spec()))).set_pc(next),
        ),
        InstructionKind::Add
        | InstructionKind::Sub
        | InstructionKind::Sll
        | InstructionKind::Slt
        | InstructionKind::Sltu
        | InstructionKind::Xor
        | InstructionKind::Srl
        | InstructionKind::Sra
        | InstructionKind::Or
        | InstructionKind::And => Ok(m.set_reg(rd, alu(reg_op(kind).unwrap(), a, b)).set_pc(next)),
        InstructionKind::Fence
        | InstructionKind::ECall
        | InstructionKind::EBreak
        | InstructionKind::Unknown => Ok(m.set_pc(next)),
    }
}

/// One whole cycle from the machine `m`: `x0` is forced to zero, the word
/// at the program counter is fetched and executed. A program counter whose
/// four bytes do not all lie in memory gives a fetch fault.
pub open spec fn cycle(m: Machine) -> Result<Machine, Fault> {
    let z = m.zeroed();
    if z.holds(z.pc as int, 4) {
        effect(z, Instruction(wrap(z.load(z.pc as int, 4))), z.pc)
    } else {
        Err(Fault::Fetch { pc: z.pc })
    }
}

/// The machine after `n` cycles from `m`, or the fault of the first cycle
/// that failed.
pub open spec fn after(m: Machine, n: nat) -> Result<Machine, Fault>
    decreases n,
{
    if n == 0 {
        Ok(m)
    } else {
        match after(m, (n - 1) as nat) {
            Ok(x) => cycle(x),
            Err(fault) => Err(fault),
        }
    }
}

/// Whether each of the first `n` cycles from `m` begins without a fault
/// behind it and with the program counter in memory.
pub open spec fn runs(m: Machine, n: nat) -> bool {
    forall|k: nat|
        k < n ==> match #[trigger] after(m, k) {
            Ok(x) => x.runnable(),
            Err(_) => false,
        }
}

} // verus!
