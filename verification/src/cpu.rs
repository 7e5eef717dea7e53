//! The execution engine: the fetch, decode, execute cycle.

use vstd::prelude::*;
use std::sync::atomic::AtomicBool;
use std::sync::atomic::Ordering;
use crate::alu::access_width;
use crate::alu::byte_of;
use crate::alu::clear_low_bit;
use crate::alu::compute;
use crate::alu::extend_loaded;
use crate::alu::half_from_le;
use crate::alu::imm_operation;
use crate::alu::reg_operation;
use crate::alu::taken;
use crate::alu::to_unsigned;
use crate::alu::word_from_le;
use crate::inst::Instruction;
use crate::inst::InstructionKind;
use crate::model::Fault;
use crate::model::Machine;
use crate::model::after;
use crate::model::cycle;
use crate::model::effect;
use crate::model::runs;
use crate::model::wrap;
use crate::reg::Registers;
use crate::rom::Rom;

verus! {

/// What a handler of environment calls sees of the engine: the registers,
/// the program counter and the memory as they are when the ECALL executes,
/// and the means to ask the engine to stop.
pub struct EcallContext<'a, 'b> {
    regs: &'a Registers,
    pc: u32,
    rom: &'a Rom<'b>,
    running: &'a AtomicBool,
}

impl<'a, 'b> EcallContext<'a, 'b> {
    /// The registers, program counter and memory that the handler sees.
    pub closed spec fn view(&self) -> Machine {
        Machine {
            regs: self.regs@,
            pc: self.pc,
            mem: self.rom@,
            start: self.rom.start(),
            end: self.rom.end(),
        }
    }

    /// The register file.
    pub fn registers(&self) -> (regs: &Registers)
        ensures
            regs@ == self@.regs,
    {
        self.regs
    }

    /// The program counter: the address of the ECALL being executed.
    pub fn pc(&self) -> (pc: u32)
        ensures
            pc == self@.pc,
    {
        self.pc
    }

    /// The memory window.
    pub fn rom(&self) -> (rom: &Rom<'b>)
        ensures
            rom@ == self@.mem,
            rom.start() == self@.start,
            rom.end() == self@.end,
    {
        self.rom
    }

    /// Whether the engine is still asked to run.
    pub fn running(&self) -> bool {
        self.running.load(Ordering::SeqCst)
    }

    /// Asks the cycle loop to stop before its next cycle.
    pub fn abort(&self) {
        self.running.store(false, Ordering::SeqCst);
    }
}

/// What the engine calls when it executes an ECALL. The handler reads the
/// engine's state through the context it is given and may ask the engine to
/// stop with [`EcallContext::abort`].
pub trait EcallHandler {
    /// Handles one environment call.
    fn handle(&self, context: &EcallContext<'_, '_>);
}

/// The number of cycles after which `run` stops, whatever the program does.
pub const CYCLE_LIMIT: u64 = 0xffff_ffff_ffff_ffff;

/// The RISC-V CPU.
pub struct Cpu<'r, 'b> {
    /// The general-purpose registers.
    regs: Registers,
    /// The program counter: the address of the next instruction.
    pc: u32,
    /// The memory that holds the program.
    rom: &'r mut Rom<'b>,
    /// Whether the CPU is running. Cleared through a shared reference to
    /// ask the cycle loop to stop.
    running: AtomicBool,
    /// The handler of environment calls, if one is installed.
    handle_ecall: Option<Box<dyn EcallHandler>>,
    /// Whether a handler has asked the engine to stop.
    halted: bool,
}

impl<'r, 'b> Cpu<'r, 'b> {
    /// The registers, program counter and memory of this CPU.
    pub closed spec fn view(&self) -> Machine {
        Machine {
            regs: self.regs@,
            pc: self.pc,
            mem: (*self.rom)@,
            start: (*self.rom).start(),
            end: (*self.rom).end(),
        }
    }

    /// Whether a handler of environment calls is installed.
    pub closed spec fn has_handler(&self) -> bool {
        self.handle_ecall is Some
    }

    /// Whether a handler of environment calls has asked the engine to stop.
    pub closed spec fn halted(&self) -> bool {
        self.halted
    }

    /// Creates a CPU over `rom`: the program counter at the start of the
    /// memory window, the stack pointer at its size, no handler installed.
    pub fn new(rom: &'r mut Rom<'b>) -> (cpu: Self)
        ensures
            cpu@.regs == Registers::initial((old(rom).end() - old(rom).start()) as u32),
            cpu@.pc == old(rom).start(),
            cpu@.mem == old(rom)@,
            cpu@.start == old(rom).start(),
            cpu@.end == old(rom).end(),
            cpu@.wf(),
            !cpu.has_handler(),
            !cpu.halted(),
    {
        let size = rom.size();
        let start = rom.start_addr();
        Self {
            regs: Registers::new(size),
            pc: start,
            rom,
            running: AtomicBool::new(false),
            handle_ecall: None,
            halted: false,
        }
    }

    /// Installs `handler` as the handler of environment calls.
    pub fn on_ecall(self, handler: Box<dyn EcallHandler>) -> (cpu: Self)
        ensures
            cpu@ == self@,
            cpu.has_handler(),
            cpu.halted() == self.halted(),
    {
        let mut cpu = self;
        cpu.handle_ecall = Some(handler);
        cpu
    }

    /// The register file.
    pub fn registers(&self) -> (regs: &Registers)
        ensures
            regs@ == self@.regs,
    {
        &self.regs
    }

    /// The program counter.
    pub fn pc(&self) -> (pc: u32)
        ensures
            pc == self@.pc,
    {
        self.pc
    }

    /// The memory window.
    pub fn rom(&self) -> (rom: &Rom<'b>)
        ensures
            rom@ == self@.mem,
            rom.start() == self@.start,
            rom.end() == self@.end,
    {
        &*self.rom
    }

    /// Whether the CPU is running: set when `run` starts, cleared by
    /// `abort`.
    pub fn running(&self) -> bool {
        self.running.load(Ordering::SeqCst)
    }

    /// Asks the cycle loop to stop before its next cycle.
    pub fn abort(&self) {
        self.running.store(false, Ordering::SeqCst);
    }

    /// The state of a CPU is always well-formed.
    proof fn lemma_wf(&self)
        requires
            (*self.rom).well_formed(),
        ensures
            self@.wf(),
    {
        (*self.rom).lemma_well_formed();
        self.regs.lemma_len();
    }

    /// Reads the little-endian number in the `len` bytes at `addr`.
    fn load(&self, addr: u32, len: u32) -> (r: Result<u32, Fault>)
        requires
            len == 1 || len == 2 || len == 4,
        ensures
            match r {
                Ok(value) => self@.holds(addr as int, len as int) && value == self@.load(
                    addr as int,
                    len as int,
                ),
                Err(fault) => !self@.holds(addr as int, len as int) && fault == (Fault::Load {
                    addr,
                    len,
                }),
            },
    {
        proof {
            use_type_invariant(&*self.rom);
            self.lemma_wf();
        }
        if !self.rom.contains(addr, len) {
            return Err(Fault::Load { addr, len });
        }
        let b0 = self.rom.read(addr);
        if len == 1 {
            return Ok(b0 as u32);
        }
        let b1 = self.rom.read(addr + 1);
        if len == 2 {
            return Ok(half_from_le(b0, b1));
        }
        let b2 = self.rom.read(addr + 2);
        let b3 = self.rom.read(addr + 3);
        Ok(word_from_le(b0, b1, b2, b3))
    }

    /// Writes the low `len` bytes of `value` at `addr`, least significant
    /// first. Outside the memory window nothing is written.
    fn store(&mut self, addr: u32, len: u32, value: u32) -> (r: Result<(), Fault>)
        requires
            len == 1 || len == 2 || len == 4,
        ensures
            match r {
                Ok(()) => old(self)@.holds(addr as int, len as int) && final(self)@ == old(
                    self,
                )@.store(addr as int, len as int, value),
                Err(fault) => !old(self)@.holds(addr as int, len as int) && fault == (Fault::Store {
                    addr,
                    len,
                }) && final(self)@ == old(self)@,
            },
            final(self).has_handler() == old(self).has_handler(),
            final(self).halted() == old(self).halted(),
    {
        proof {
            use_type_invariant(&*self.rom);
            self.lemma_wf();
        }
        if !self.rom.contains(addr, len) {
            return Err(Fault::Store { addr, len });
        }
        let mut k: u32 = 0;
        assert(self@.mem =~= self@.store(addr as int, 0, value).mem);
        while k < len
            invariant
                k <= len <= 4,
                self.rom.well_formed(),
                old(self)@.holds(addr as int, len as int),
                old(self)@.wf(),
                self@ == old(self)@.store(addr as int, k as int, value),
                self.has_handler() == old(self).has_handler(),
                self.halted() == old(self).halted(),
            decreases len - k,
        {
            self.rom.write(addr + k, byte_of(value, k));
            proof {
                use_type_invariant(&*self.rom);
                assert(self@.mem =~= old(self)@.store(addr as int, (k + 1) as int, value).mem);
            }
            k = k + 1;
        }
        Ok(())
    }

    /// Reads the instruction word at the program counter: four bytes, the
    /// least significant first.
    pub fn fetch(&self) -> (r: Result<u32, Fault>)
        ensures
            match r {
                Ok(word) => self@.holds(self@.pc as int, 4) && word == wrap(
                    self@.load(self@.pc as int, 4),
                ),
                Err(fault) => !self@.holds(self@.pc as int, 4) && fault == (Fault::Fetch {
                    pc: self@.pc,
                }),
            },
    {
        match self.load(self.pc, 4) {
            Ok(word) => Ok(word),
            Err(_) => Err(Fault::Fetch { pc: self.pc }),
        }
    }

    /// Executes `inst`, the instruction fetched from `addr`: writes its
    /// result, moves the program counter to the target of a jump or taken
    /// branch and four bytes past `addr` otherwise. A load or store outside
    /// the memory window is reported and changes nothing. An ECALL calls
    /// the installed handler, which sees the state as it is before the
    /// program counter moves.
    pub fn execute(&mut self, inst: Instruction, addr: u32) -> (r: Result<(), Fault>)
        ensures
            match r {
                Ok(()) => effect(old(self)@, inst, addr) == Ok::<Machine, Fault>(final(self)@),
                Err(fault) => effect(old(self)@, inst, addr) == Err::<Machine, Fault>(fault)
                    && final(self)@ == old(self)@,
            },
            final(self).has_handler() == old(self).has_handler(),
            !(inst.kind_spec() == InstructionKind::ECall && old(self).has_handler())
                ==> final(self).halted() == old(self).halted(),
    {
        proof {
            use_type_invariant(&*self.rom);
            self.lemma_wf();
        }
        let kind = inst.kind();
        let rd = inst.rd() as usize;
        let a = self.regs.get(inst.rs1() as usize);
        let b = self.regs.get(inst.rs2() as usize);
        let next = addr.wrapping_add(4);
        match kind {
            InstructionKind::Lui => {
                self.regs.set(rd, to_unsigned(inst.imm_u()));
                self.pc = next;
            },
            InstructionKind::Auipc => {
                self.regs.set(rd, addr.wrapping_add_signed(inst.imm_u()));
                self.pc = next;
            },
            InstructionKind::Jal => {
                self.regs.set(rd, next);
                self.pc = addr.wrapping_add_signed(inst.imm_j());
            },
            InstructionKind::Jalr => {
                let target = clear_low_bit(a.wrapping_add_signed(inst.imm_i()));
                self.regs.set(rd, next);
                self.pc = target;
            },
            InstructionKind::Beq
            | InstructionKind::Bne
            | InstructionKind::Blt
            | InstructionKind::Bge
            | InstructionKind::Bltu
            | InstructionKind::Bgeu => {
                if taken(kind, a, b) {
                    self.pc = addr.wrapping_add_signed(inst.imm_b());
                } else {
                    self.pc = next;
                }
            },
            InstructionKind::Lb
            | InstructionKind::Lh
            | InstructionKind::Lw
            | InstructionKind::Lbu
            | InstructionKind::Lhu => {
                let from = a.wrapping_add_signed(inst.imm_i());
                let raw = self.load(from, access_width(kind))?;
                self.regs.set(rd, extend_loaded(kind, raw));
                self.pc = next;
            },
            InstructionKind::Sb | InstructionKind::Sh | InstructionKind::Sw => {
                let to = a.wrapping_add_signed(inst.imm_s());
                self.store(to, access_width(kind), b)?;
                self.pc = next;
            },
            InstructionKind::Addi
            | InstructionKind::Slti
            | InstructionKind::Sltiu
            | InstructionKind::Xori
            | InstructionKind::Ori
            | InstructionKind::Andi
            | InstructionKind::Slli
            | InstructionKind::Srli
            | InstructionKind::Srai => {
                match imm_operation(kind) {
                    Some(op) => {
                        self.regs.set(rd, compute(op, a, to_unsigned(inst.imm_i())));
                    },
                    None => {},
                }
                self.pc = next;
            },
            InstructionKind::Add
            | InstructionKind::Sub
            | InstructionKind::Sll
            | InstructionKind::Slt
            | InstructionKind::Sltu
            | InstructionKind::Xor
            | InstructionKind::Srl
            | InstructionKind::Sra
            | InstructionKind::Or
            | InstructionKind::And => {
                match reg_operation(kind) {
                    Some(op) => {
                        self.regs.set(rd, compute(op, a, b));
                    },
                    None => {},
                }
                self.pc = next;
            },
            InstructionKind::ECall => {
                match &self.handle_ecall {
                    Some(handler) => {
                        let context = EcallContext {
                            regs: &self.regs,
                            pc: addr,
                            rom: &*self.rom,
                            running: &self.running,
                        };
                        handler.handle(&context);
                        self.halted = !self.running();
                    },
                    None => {},
                }
                self.pc = next;
            },
            InstructionKind::Fence | InstructionKind::EBreak | InstructionKind::Unknown => {
                self.pc = next;
            },
        }
        Ok(())
    }

    /// Runs one cycle: forces `x0` to zero, fetches the word at the
    /// program counter, decodes and executes it. After a fault the state
    /// is the one the cycle began with, but for `x0`.
    pub fn step(&mut self) -> (r: Result<(), Fault>)
        ensures
            match r {
                Ok(()) => cycle(old(self)@) == Ok::<Machine, Fault>(final(self)@),
                Err(fault) => cycle(old(self)@) == Err::<Machine, Fault>(fault) && final(self)@
                    == old(self)@.zeroed(),
            },
            final(self)@.wf(),
            final(self).has_handler() == old(self).has_handler(),
            !old(self).has_handler() ==> final(self).halted() == old(self).halted(),
    {
        // Hard-wire the zero register to 0.
        self.regs.set_zero(0);
        proof {
            use_type_invariant(&*self.rom);
            self.lemma_wf();
        }
        let addr = self.pc;
        let word = self.fetch()?;
        let inst = self.decode(word);
        let r = self.execute(inst, addr);
        proof {
            use_type_invariant(&*self.rom);
            self.lemma_wf();
        }
        r
    }

    /// Marks the CPU as running and forgets an earlier request to stop.
    /// `run` begins with this; a caller that drives the cycles itself
    /// calls it once before the first `step`.
    pub fn start(&mut self)
        ensures
            final(self)@ == old(self)@,
            final(self).has_handler() == old(self).has_handler(),
            !final(self).halted(),
    {
        self.running.store(true, Ordering::SeqCst);
        self.halted = false;
    }

    /// Whether `run` goes on to another cycle: the program counter points
    /// into memory and no handler has asked to stop.
    fn proceeds(&self) -> (b: bool)
        ensures
            b == (self@.runnable() && !self.halted()),
    {
        !self.halted && self.rom.contains(self.pc, 1)
    }

    /// Whether another cycle may begin, for a caller that drives the
    /// cycles itself: the program counter points into memory, no handler
    /// has asked to stop, and `abort` has not been called since `start`.
    pub fn live(&self) -> (b: bool)
        ensures
            b ==> self@.runnable() && !self.halted(),
    {
        let running = self.running();
        self.may_step(running)
    }

    /// Whether another cycle may begin, given what the running flag reads:
    /// the flag is set, the program counter points into memory and no
    /// handler has asked to stop.
    pub fn may_step(&self, running: bool) -> (b: bool)
        ensures
            b == (running && self@.runnable() && !self.halted()),
    {
        running && self.proceeds()
    }

    /// Runs cycles until the program counter leaves the memory window, a
    /// handler of environment calls asks to stop, a memory access falls
    /// outside the window, or `CYCLE_LIMIT` cycles have run. Returns the
    /// CPU in its final state, or the fault of the access that failed.
    pub fn run(self) -> (r: Result<Self, Fault>)
        ensures
            match r {
                Ok(cpu) => exists|n: nat|
                    {
                        &&& n <= CYCLE_LIMIT
                        &&& runs(self@, n)
                        &&& #[trigger] after(self@, n) == Ok::<Machine, Fault>(cpu@)
                        &&& (!cpu@.runnable() || cpu.halted() || n == CYCLE_LIMIT)
                    } && (cpu.halted() ==> self.has_handler()) && cpu.has_handler()
                    == self.has_handler(),
                Err(fault) => exists|n: nat|
                    {
                        &&& 1 <= n <= CYCLE_LIMIT
                        &&& runs(self@, n)
                        &&& #[trigger] after(self@, n) == Err::<Machine, Fault>(fault)
                    },
            },
    {
        let ghost m = self@;
        let ghost handled = self.has_handler();
        let ghost mut n: nat = 0;
        let mut cpu = self;
        cpu.start();
        let mut budget: u64 = CYCLE_LIMIT;
        while budget > 0 && cpu.proceeds()
            invariant
                m == self@,
                handled == self.has_handler(),
                n + budget == CYCLE_LIMIT,
                runs(m, n),
                after(m, n) == Ok::<Machine, Fault>(cpu@),
                cpu.has_handler() == handled,
                cpu.halted() ==> handled,
            decreases budget,
        {
            let ghost before = cpu@;
            match cpu.step() {
                Ok(()) => {},
                Err(fault) => {
                    proof {
                        let k: nat = n + 1;
                        assert(after(m, k) == Err::<Machine, Fault>(fault));
                        assert(runs(m, k));
                    }
                    return Err(fault);
                },
            }
            proof {
                assert(after(m, n + 1) == Ok::<Machine, Fault>(cpu@));
                assert(runs(m, n + 1));
                n = n + 1;
            }
            budget = budget - 1;
        }
        Ok(cpu)
    }

    /// Decodes a fetched word into an instruction.
    pub fn decode(&self, word: u32) -> (inst: Instruction)
        ensures
            inst.0 == word,
    {
        Instruction(word)
    }
}

} // verus!
