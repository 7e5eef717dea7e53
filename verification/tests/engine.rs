use emu::cpu::Cpu;
use emu::cpu::EcallContext;
use emu::cpu::EcallHandler;
use emu::inst::Instruction;
use emu::model::Fault;
use emu::rom::Rom;
use std::cell::Cell;
use std::rc::Rc;

fn r_type(funct7: u32, rs2: u32, rs1: u32, funct3: u32, rd: u32) -> u32 {
    (funct7 << 25) | (rs2 << 20) | (rs1 << 15) | (funct3 << 12) | (rd << 7) | 0x33
}

fn i_type(imm: i32, rs1: u32, funct3: u32, rd: u32, opcode: u32) -> u32 {
    (((imm as u32) & 0xfff) << 20) | (rs1 << 15) | (funct3 << 12) | (rd << 7) | opcode
}

fn addi(rd: u32, rs1: u32, imm: i32) -> u32 {
    i_type(imm, rs1, 0, rd, 0x13)
}

fn lui(rd: u32, upper: u32) -> u32 {
    (upper << 12) | (rd << 7) | 0x37
}

fn load(funct3: u32, rd: u32, rs1: u32, imm: i32) -> u32 {
    i_type(imm, rs1, funct3, rd, 0x03)
}

fn store(funct3: u32, rs2: u32, rs1: u32, imm: i32) -> u32 {
    let imm = imm as u32;
    (((imm >> 5) & 0x7f) << 25) | (rs2 << 20) | (rs1 << 15) | (funct3 << 12) | ((imm & 0x1f) << 7)
        | 0x23
}

fn branch(funct3: u32, rs1: u32, rs2: u32, imm: i32) -> u32 {
    let imm = imm as u32;
    (((imm >> 12) & 1) << 31) | (((imm >> 5) & 0x3f) << 25) | (rs2 << 20) | (rs1 << 15)
        | (funct3 << 12) | (((imm >> 1) & 0xf) << 8) | (((imm >> 11) & 1) << 7) | 0x63
}

fn jal(rd: u32, imm: i32) -> u32 {
    let imm = imm as u32;
    (((imm >> 20) & 1) << 31) | (((imm >> 1) & 0x3ff) << 21) | (((imm >> 11) & 1) << 20)
        | (((imm >> 12) & 0xff) << 12) | (rd << 7) | 0x6f
}

const EBREAK: u32 = 0x0010_0073;
const ECALL: u32 = 0x0000_0073;

/// The bytes of a program, padded with zero bytes to `size`.
fn image(words: &[u32], size: usize) -> Vec<u8> {
    let mut bytes = Vec::new();
    for word in words {
        bytes.extend_from_slice(&word.to_le_bytes());
    }
    assert!(bytes.len() <= size);
    bytes.resize(size, 0);
    bytes
}

/// Runs `words` from `start` in a window of `size` bytes, for as many
/// cycles as there are words, and hands the CPU to `check`.
fn stepped(words: &[u32], start: u32, size: usize, check: impl FnOnce(&Cpu)) {
    let mut bytes = image(words, size);
    let mut rom = Rom::new(&mut bytes, start, start + size as u32);
    let mut cpu = Cpu::new(&mut rom);
    for _ in 0..words.len() {
        cpu.step().unwrap();
    }
    check(&cpu);
}

#[test]
fn encoders_agree_with_known_words() {
    assert_eq!(addi(6, 5, -3), 0xffd2_8313);
    assert_eq!(jal(1, 8), 0x0080_00ef);
    assert_eq!(jal(0, -4), 0xffdf_f06f);
    assert_eq!(branch(0, 0, 0, 16), 0x0000_0863);
    assert_eq!(branch(1, 1, 2, -8), 0xfe20_9ce3);
    assert_eq!(store(2, 2, 1, 0), 0x0020_a023);
    assert_eq!(store(2, 2, 1, -4), 0xfe20_ae23);
    assert_eq!(load(2, 3, 1, 0), 0x0000_a183);
    assert_eq!(r_type(0, 2, 1, 0, 3), 0x0020_81b3);
    assert_eq!(lui(5, 0x12345), 0x1234_52b7);
}

#[test]
fn new_cpu_starts_at_the_window_start() {
    let mut bytes = vec![0u8; 64];
    let mut rom = Rom::new(&mut bytes, 0x4000, 0x4040);
    let cpu = Cpu::new(&mut rom);
    assert_eq!(cpu.pc(), 0x4000);
    assert_eq!(cpu.registers().sp(), 64);
    assert_eq!(cpu.registers().zero(), 0);
    assert_eq!(cpu.registers().ra(), 0);
    assert_eq!(cpu.rom().start_addr(), 0x4000);
    assert_eq!(cpu.rom().end_addr(), 0x4040);
    assert!(!cpu.running());
}

#[test]
fn fetch_reads_a_little_endian_word() {
    let mut bytes = vec![0x13, 0x83, 0xd2, 0xff, 0, 0, 0, 0];
    let mut rom = Rom::new(&mut bytes, 0x100, 0x108);
    let cpu = Cpu::new(&mut rom);
    assert_eq!(cpu.fetch(), Ok(0xffd2_8313));
    assert_eq!(cpu.decode(0xffd2_8313).0, 0xffd2_8313);
}

#[test]
fn fetch_needs_all_four_bytes() {
    let mut bytes = vec![0x13, 0x83, 0xd2];
    let mut rom = Rom::new(&mut bytes, 0x100, 0x103);
    let cpu = Cpu::new(&mut rom);
    assert_eq!(cpu.fetch(), Err(Fault::Fetch { pc: 0x100 }));
}

#[test]
fn jal_links_and_jumps() {
    // jal x1, +8 at address A
    for a in [0u32, 0x1000, 0x8000_0000] {
        stepped(&[0x0080_00ef], a, 16, |cpu| {
            assert_eq!(cpu.registers().ra(), a + 4);
            assert_eq!(cpu.pc(), a + 8);
        });
    }
}

#[test]
fn jal_backwards() {
    // addi x0, x0, 0 ; jal x5, -4
    stepped(&[addi(0, 0, 0), jal(5, -4)], 0x200, 16, |cpu| {
        assert_eq!(cpu.registers().t0(), 0x208);
        assert_eq!(cpu.pc(), 0x200);
    });
}

#[test]
fn addi_adds_a_negative_immediate() {
    // x5 = 10; addi x6, x5, -3
    stepped(&[addi(5, 0, 10), 0xffd2_8313], 0, 8, |cpu| {
        assert_eq!(cpu.registers().t0(), 10);
        assert_eq!(cpu.registers().t1(), 7);
        assert_eq!(cpu.pc(), 8);
    });
}

#[test]
fn addi_extreme_immediates() {
    stepped(&[addi(5, 0, 10), addi(6, 5, 2047)], 0, 8, |cpu| {
        assert_eq!(cpu.registers().t1(), 2057);
    });
    stepped(&[addi(5, 0, 10), addi(6, 5, -2048)], 0, 8, |cpu| {
        assert_eq!(cpu.registers().t1(), 10u32.wrapping_sub(2048));
        assert_eq!(cpu.registers().t1(), 0xffff_f80a);
    });
}

#[test]
fn addi_wraps_without_a_fault() {
    // x5 = 0x7fffffff; addi x6, x5, 2047
    stepped(&[lui(5, 0x80000), addi(5, 5, -1), addi(6, 5, 2047)], 0, 12, |cpu| {
        assert_eq!(cpu.registers().t0(), 0x7fff_ffff);
        assert_eq!(cpu.registers().t1(), 0x8000_07fe);
    });
    // x5 = 0xffffffff; addi x6, x5, 1
    stepped(&[addi(5, 0, -1), addi(6, 5, 1)], 0, 8, |cpu| {
        assert_eq!(cpu.registers().t0(), 0xffff_ffff);
        assert_eq!(cpu.registers().t1(), 0);
    });
    // x5 = 0x80000000; addi x6, x5, -2048
    stepped(&[lui(5, 0x80000), addi(6, 5, -2048)], 0, 8, |cpu| {
        assert_eq!(cpu.registers().t1(), 0x7fff_f800);
    });
}

#[test]
fn branch_not_taken_falls_through() {
    // x1 = 1; beq x0, x1, +16
    stepped(&[addi(1, 0, 1), branch(0, 0, 1, 16)], 0x400, 32, |cpu| {
        assert_eq!(cpu.pc(), 0x408);
    });
}

#[test]
fn branch_taken_is_relative_to_the_branch() {
    // beq x0, x0, +0x10 at address A
    for a in [0u32, 0x400, 0x7fff_fff0] {
        stepped(&[0x0000_0863], a, 32, |cpu| {
            assert_eq!(cpu.pc(), a + 0x10);
            assert_eq!(cpu.registers().ra(), 0);
        });
    }
}

#[test]
fn branch_backwards() {
    // addi x1, x0, 1 ; bne x1, x0, -4
    stepped(&[addi(1, 0, 1), branch(1, 1, 0, -4)], 0x400, 32, |cpu| {
        assert_eq!(cpu.pc(), 0x400);
    });
}

#[test]
fn signed_and_unsigned_branches_differ() {
    // x1 = -1; blt x1, x0, +8 is taken, bltu x1, x0, +8 is not.
    stepped(&[addi(1, 0, -1), branch(4, 1, 0, 8)], 0, 16, |cpu| {
        assert_eq!(cpu.pc(), 12);
    });
    stepped(&[addi(1, 0, -1), branch(6, 1, 0, 8)], 0, 16, |cpu| {
        assert_eq!(cpu.pc(), 8);
    });
    // bge x0, x1, +8 is taken, bgeu x0, x1, +8 is not.
    stepped(&[addi(1, 0, -1), branch(5, 0, 1, 8)], 0, 16, |cpu| {
        assert_eq!(cpu.pc(), 12);
    });
    stepped(&[addi(1, 0, -1), branch(7, 0, 1, 8)], 0, 16, |cpu| {
        assert_eq!(cpu.pc(), 8);
    });
}

#[test]
fn store_then_load_word() {
    // x1 = 32; x2 = 0x12345678; sw x2, 0(x1); lw x3, 0(x1)
    let program =
        [addi(1, 0, 32), lui(2, 0x12345), addi(2, 2, 0x678), 0x0020_a023, 0x0000_a183];
    stepped(&program, 0, 64, |cpu| {
        assert_eq!(cpu.registers().sp(), 0x1234_5678);
        assert_eq!(cpu.registers().gp(), 0x1234_5678);
        assert_eq!(cpu.rom().read(32), 0x78);
        assert_eq!(cpu.rom().read(33), 0x56);
        assert_eq!(cpu.rom().read(34), 0x34);
        assert_eq!(cpu.rom().read(35), 0x12);
        assert_eq!(cpu.rom().read(31), 0);
        assert_eq!(cpu.rom().read(36), 0);
        assert_eq!(cpu.pc(), 20);
    });
}

#[test]
fn byte_loads_differ_only_in_sign_extension() {
    // x1 = 32; x2 = 0x80; sw x2, 0(x1); lb x3, 0(x1); lbu x4, 0(x1)
    let program =
        [addi(1, 0, 32), addi(2, 0, 0x80), 0x0020_a023, load(0, 3, 1, 0), load(4, 4, 1, 0)];
    stepped(&program, 0, 64, |cpu| {
        assert_eq!(cpu.registers().gp(), 0xffff_ff80);
        assert_eq!(cpu.registers().tp(), 0x0000_0080);
    });
    // With the top bit of the byte clear the two agree.
    let program =
        [addi(1, 0, 32), addi(2, 0, 0x7f), 0x0020_a023, load(0, 3, 1, 0), load(4, 4, 1, 0)];
    stepped(&program, 0, 64, |cpu| {
        assert_eq!(cpu.registers().gp(), 0x7f);
        assert_eq!(cpu.registers().tp(), 0x7f);
    });
}

#[test]
fn halfword_loads_and_stores() {
    // x1 = 40; x2 = -2 (0xfffffffe); sh x2, 2(x1); lh x3, 2(x1); lhu x4, 2(x1); lw x5, 0(x1)
    let program = [
        addi(1, 0, 40),
        addi(2, 0, -2),
        store(1, 2, 1, 2),
        load(1, 3, 1, 2),
        load(5, 4, 1, 2),
        load(2, 5, 1, 0),
    ];
    stepped(&program, 0, 64, |cpu| {
        assert_eq!(cpu.registers().gp(), 0xffff_fffe);
        assert_eq!(cpu.registers().tp(), 0x0000_fffe);
        assert_eq!(cpu.registers().t0(), 0xfffe_0000);
        assert_eq!(cpu.rom().read(42), 0xfe);
        assert_eq!(cpu.rom().read(43), 0xff);
        assert_eq!(cpu.rom().read(44), 0);
    });
}

#[test]
fn byte_store_writes_one_byte() {
    // x1 = 40; x2 = 0x1ff; sb x2, -1(x1); lw x3, -4(x1)
    let program = [addi(1, 0, 40), addi(2, 0, 0x1ff), store(0, 2, 1, -1), load(2, 3, 1, -4)];
    stepped(&program, 0, 64, |cpu| {
        assert_eq!(cpu.registers().gp(), 0xff00_0000);
        assert_eq!(cpu.rom().read(39), 0xff);
        assert_eq!(cpu.rom().read(40), 0);
        assert_eq!(cpu.rom().read(38), 0);
    });
}

#[test]
fn unaligned_word_access_is_not_trapped() {
    // x1 = 33; x2 = 0x0a0b0c0d via lui/addi; sw x2, 0(x1); lw x3, 0(x1)
    let program =
        [addi(1, 0, 33), lui(2, 0x0a0b1), addi(2, 2, -0x3f3), store(2, 2, 1, 0), load(2, 3, 1, 0)];
    stepped(&program, 0, 64, |cpu| {
        assert_eq!(cpu.registers().sp(), 0x0a0b_0c0d);
        assert_eq!(cpu.registers().gp(), 0x0a0b_0c0d);
        assert_eq!(cpu.rom().read(33), 0x0d);
        assert_eq!(cpu.rom().read(36), 0x0a);
    });
}

#[test]
fn end_to_end_sum() {
    // addi x1, x0, 5 ; addi x2, x0, 7 ; add x3, x1, x2 ; ebreak
    let mut bytes = image(&[0x0050_0093, 0x0070_0113, 0x0020_81b3, EBREAK], 16);
    let mut rom = Rom::new(&mut bytes, 0, 16);
    let cpu = Cpu::new(&mut rom).run().unwrap();
    assert_eq!(cpu.registers().ra(), 5);
    assert_eq!(cpu.registers().sp(), 7);
    assert_eq!(cpu.registers().gp(), 12);
    assert_eq!(cpu.pc(), 16);
    assert!(cpu.pc() >= cpu.rom().end_addr());
}

#[test]
fn run_on_an_empty_window_does_nothing() {
    let mut bytes: Vec<u8> = Vec::new();
    let mut rom = Rom::new(&mut bytes, 0x10, 0x10);
    let cpu = Cpu::new(&mut rom).run().unwrap();
    assert_eq!(cpu.pc(), 0x10);
    assert_eq!(cpu.registers().sp(), 0);
}

#[test]
fn run_stops_when_a_jump_leaves_the_window() {
    // jal x1, +0x100 ; addi x5, x0, 1
    let mut bytes = image(&[jal(1, 0x100), addi(5, 0, 1)], 8);
    let mut rom = Rom::new(&mut bytes, 0x1000, 0x1008);
    let cpu = Cpu::new(&mut rom).run().unwrap();
    assert_eq!(cpu.pc(), 0x1100);
    assert_eq!(cpu.registers().ra(), 0x1004);
    assert_eq!(cpu.registers().t0(), 0);
}

#[test]
fn run_follows_a_loop() {
    // x1 = 3; loop: addi x2, x2, 2 ; addi x1, x1, -1 ; bne x1, x0, loop
    // The stack pointer x2 starts at the window size, 16.
    let program = [addi(1, 0, 3), addi(2, 2, 2), addi(1, 1, -1), branch(1, 1, 0, -8)];
    let mut bytes = image(&program, 16);
    let mut rom = Rom::new(&mut bytes, 0, 16);
    let cpu = Cpu::new(&mut rom).run().unwrap();
    assert_eq!(cpu.registers().ra(), 0);
    assert_eq!(cpu.registers().sp(), 22);
    assert_eq!(cpu.pc(), 16);
}

#[test]
fn load_outside_memory_is_a_fault_of_run() {
    // x1 = 16 (the end of the window); lw x3, 0(x1)
    let mut bytes = image(&[addi(1, 0, 16), 0x0000_a183, EBREAK], 16);
    let mut rom = Rom::new(&mut bytes, 0, 16);
    let result = Cpu::new(&mut rom).run();
    assert_eq!(result.err(), Some(Fault::Load { addr: 16, len: 4 }));
}

#[test]
fn load_straddling_the_end_is_a_fault() {
    // x1 = 14; lw x3, 0(x1) needs bytes 14 to 17 of a 16-byte window.
    let mut bytes = image(&[addi(1, 0, 14), 0x0000_a183], 16);
    let mut rom = Rom::new(&mut bytes, 0, 16);
    let result = Cpu::new(&mut rom).run();
    assert_eq!(result.err(), Some(Fault::Load { addr: 14, len: 4 }));
    // A halfword at the same address fits.
    let mut bytes = image(&[addi(1, 0, 14), load(1, 3, 1, 0)], 16);
    let mut rom = Rom::new(&mut bytes, 0, 16);
    assert!(Cpu::new(&mut rom).run().is_ok());
}

#[test]
fn load_below_the_window_is_a_fault() {
    // lw x3, -4(x0) at a window that starts at 0x100: address 0xfffffffc.
    let mut bytes = image(&[load(2, 3, 0, -4)], 8);
    let mut rom = Rom::new(&mut bytes, 0x100, 0x108);
    let result = Cpu::new(&mut rom).run();
    assert_eq!(result.err(), Some(Fault::Load { addr: 0xffff_fffc, len: 4 }));
}

#[test]
fn store_outside_memory_is_a_fault_and_changes_nothing() {
    // x1 = 15; sh x1, 0(x1)
    let mut bytes = image(&[addi(1, 0, 15), store(1, 1, 1, 0)], 16);
    let before = bytes.clone();
    {
        let mut rom = Rom::new(&mut bytes, 0, 16);
        let mut cpu = Cpu::new(&mut rom);
        assert_eq!(cpu.step(), Ok(()));
        assert_eq!(cpu.step(), Err(Fault::Store { addr: 15, len: 2 }));
        assert_eq!(cpu.pc(), 4);
        assert_eq!(cpu.registers().ra(), 15);
    }
    assert_eq!(bytes, before);
}

#[test]
fn fetch_past_the_image_is_a_fault_of_run() {
    // A window of six bytes: the second instruction is cut short.
    let mut bytes = image(&[addi(1, 0, 1)], 6);
    let mut rom = Rom::new(&mut bytes, 0, 6);
    let result = Cpu::new(&mut rom).run();
    assert_eq!(result.err(), Some(Fault::Fetch { pc: 4 }));
}

#[test]
fn register_zero_reads_zero_in_the_next_cycle() {
    // addi x0, x0, 5 ; addi x1, x0, 1
    let mut bytes = image(&[addi(0, 0, 5), addi(1, 0, 1)], 8);
    let mut rom = Rom::new(&mut bytes, 0, 8);
    let mut cpu = Cpu::new(&mut rom);
    cpu.step().unwrap();
    // The write itself is legal and lands in the register file.
    assert_eq!(cpu.registers().zero(), 5);
    cpu.step().unwrap();
    // The next cycle began by clearing it, so x1 = 0 + 1.
    assert_eq!(cpu.registers().zero(), 0);
    assert_eq!(cpu.registers().ra(), 1);
}

#[test]
fn jal_to_register_zero_discards_the_link() {
    // jal x0, +8 ; (skipped) ; add x1, x0, x0
    let mut bytes = image(&[jal(0, 8), addi(5, 0, 1), r_type(0, 0, 0, 0, 1)], 12);
    let mut rom = Rom::new(&mut bytes, 0x40, 0x4c);
    let cpu = Cpu::new(&mut rom).run().unwrap();
    assert_eq!(cpu.registers().ra(), 0);
    assert_eq!(cpu.registers().t0(), 0);
    assert_eq!(cpu.registers().zero(), 0);
    assert_eq!(cpu.pc(), 0x4c);
}

#[test]
fn lui_and_auipc() {
    // lui x5, 0x12345 ; auipc x6, 0x1 ; lui x7, 0xfffff ; auipc x8, 0xfffff
    let program = [0x1234_52b7, 0x0000_1317, lui(7, 0xfffff), (0xfffff << 12) | (8 << 7) | 0x17];
    stepped(&program, 0x2000, 16, |cpu| {
        assert_eq!(cpu.registers().t0(), 0x1234_5000);
        assert_eq!(cpu.registers().t1(), 0x2004 + 0x1000);
        assert_eq!(cpu.registers().t2(), 0xffff_f000);
        assert_eq!(cpu.registers().s0(), 0x200c - 0x1000);
        assert_eq!(cpu.pc(), 0x2010);
    });
}

#[test]
fn jalr_clears_the_low_bit_and_links() {
    // x1 = 0x2b; jalr x5, 2(x1)  ->  pc = (0x2b + 2) & !1 = 0x2c
    let program = [addi(1, 0, 0x2b), i_type(2, 1, 0, 5, 0x67)];
    stepped(&program, 0x10, 64, |cpu| {
        assert_eq!(cpu.pc(), 0x2c);
        assert_eq!(cpu.registers().t0(), 0x18);
    });
    // With the same register as source and destination the old value is
    // the base: x1 = 0x20; jalr x1, 0(x1)
    let program = [addi(1, 0, 0x20), i_type(0, 1, 0, 1, 0x67)];
    stepped(&program, 0x10, 64, |cpu| {
        assert_eq!(cpu.pc(), 0x20);
        assert_eq!(cpu.registers().ra(), 0x18);
    });
}

#[test]
fn immediate_operations() {
    // x1 = -5
    let setup = addi(1, 0, -5);
    // slti x2, x1, -4 -> 1 ; sltiu x3, x1, -4 -> 1 (0xfffffffb < 0xfffffffc)
    // sltiu x4, x1, 4 -> 0 ; xori x5, x1, -1 -> 4 ; ori x6, x1, 0x0f -> 0xffffffff
    // andi x7, x1, 0x0f -> 0x0b ; slti x8, x1, -5 -> 0
    let program = [
        setup,
        i_type(-4, 1, 2, 2, 0x13),
        i_type(-4, 1, 3, 3, 0x13),
        i_type(4, 1, 3, 4, 0x13),
        i_type(-1, 1, 4, 5, 0x13),
        i_type(0x0f, 1, 6, 6, 0x13),
        i_type(0x0f, 1, 7, 7, 0x13),
        i_type(-5, 1, 2, 8, 0x13),
    ];
    stepped(&program, 0, 32, |cpu| {
        assert_eq!(cpu.registers().ra(), 0xffff_fffb);
        assert_eq!(cpu.registers().sp(), 1);
        assert_eq!(cpu.registers().gp(), 1);
        assert_eq!(cpu.registers().tp(), 0);
        assert_eq!(cpu.registers().t0(), 4);
        assert_eq!(cpu.registers().t1(), 0xffff_ffff);
        assert_eq!(cpu.registers().t2(), 0x0b);
        assert_eq!(cpu.registers().s0(), 0);
    });
}

#[test]
fn constant_shifts() {
    // x1 = 0x80000010 ; slli x2, x1, 4 ; srli x3, x1, 4 ; srai x4, x1, 4
    let program = [
        lui(1, 0x80000),
        addi(1, 1, 0x10),
        i_type(4, 1, 1, 2, 0x13),
        i_type(4, 1, 5, 3, 0x13),
        i_type(0x400 | 4, 1, 5, 4, 0x13),
        i_type(31, 1, 1, 5, 0x13),
        i_type(0x400 | 31, 1, 5, 6, 0x13),
    ];
    stepped(&program, 0, 32, |cpu| {
        assert_eq!(cpu.registers().ra(), 0x8000_0010);
        assert_eq!(cpu.registers().sp(), 0x0000_0100);
        assert_eq!(cpu.registers().gp(), 0x0800_0001);
        assert_eq!(cpu.registers().tp(), 0xf800_0001);
        assert_eq!(cpu.registers().t0(), 0);
        assert_eq!(cpu.registers().t1(), 0xffff_ffff);
    });
}

#[test]
fn register_operations() {
    // x1 = -8 ; x2 = 3
    let program = [
        addi(1, 0, -8),
        addi(2, 0, 3),
        r_type(0, 2, 1, 0, 3),     // add  x3 = -5
        r_type(0x20, 2, 1, 0, 4),  // sub  x4 = -11
        r_type(0, 2, 1, 1, 5),     // sll  x5 = -64
        r_type(0, 2, 1, 2, 6),     // slt  x6 = 1
        r_type(0, 2, 1, 3, 7),     // sltu x7 = 0
        r_type(0, 2, 1, 4, 8),     // xor  x8 = 0xfffffffb
        r_type(0, 2, 1, 5, 9),     // srl  x9 = 0x1fffffff
        r_type(0x20, 2, 1, 5, 10), // sra  x10 = -1
        r_type(0, 2, 1, 6, 11),    // or   x11 = 0xfffffffb
        r_type(0, 2, 1, 7, 12),    // and  x12 = 0
    ];
    stepped(&program, 0, 48, |cpu| {
        let regs = cpu.registers();
        assert_eq!(regs.get(3), 0xffff_fffb);
        assert_eq!(regs.get(4), 0xffff_fff5);
        assert_eq!(regs.get(5), 0xffff_ffc0);
        assert_eq!(regs.get(6), 1);
        assert_eq!(regs.get(7), 0);
        assert_eq!(regs.get(8), 0xffff_fffb);
        assert_eq!(regs.get(9), 0x1fff_ffff);
        assert_eq!(regs.get(10), 0xffff_ffff);
        assert_eq!(regs.get(11), 0xffff_fffb);
        assert_eq!(regs.get(12), 0);
        assert_eq!(cpu.pc(), 48);
    });
}

#[test]
fn fence_ebreak_and_unknown_only_advance() {
    let program = [0x0ff0_000f, EBREAK, 0xffff_ffff, 0, 0xc000_1073];
    let mut bytes = image(&program, 20);
    let mut rom = Rom::new(&mut bytes, 0, 20);
    let mut cpu = Cpu::new(&mut rom);
    let regs = *cpu.registers();
    for k in 1..=5 {
        cpu.step().unwrap();
        assert_eq!(cpu.pc(), 4 * k);
        assert_eq!(*cpu.registers(), regs);
    }
}

#[test]
fn ecall_without_a_handler_is_inert() {
    let mut bytes = image(&[ECALL, addi(1, 0, 1)], 8);
    let mut rom = Rom::new(&mut bytes, 0, 8);
    let cpu = Cpu::new(&mut rom).run().unwrap();
    assert_eq!(cpu.registers().ra(), 1);
    assert_eq!(cpu.pc(), 8);
}

struct Recorder {
    calls: Rc<Cell<u32>>,
    seen_pc: Rc<Cell<u32>>,
    seen_a7: Rc<Cell<u32>>,
    seen_zero: Rc<Cell<u32>>,
    abort: bool,
}

impl EcallHandler for Recorder {
    fn handle(&self, context: &EcallContext<'_, '_>) {
        self.calls.set(self.calls.get() + 1);
        self.seen_pc.set(context.pc());
        self.seen_a7.set(context.registers().a7());
        self.seen_zero.set(context.registers().zero());
        assert!(context.running());
        assert_eq!(context.rom().read(context.pc()), 0x73);
        if self.abort {
            context.abort();
            assert!(!context.running());
        }
    }
}

#[test]
fn ecall_calls_the_handler_with_the_current_state() {
    // addi x0, x0, 9 ; addi x17, x0, 0x5d ; ecall ; addi x1, x0, 1
    let calls = Rc::new(Cell::new(0));
    let seen_pc = Rc::new(Cell::new(0));
    let seen_a7 = Rc::new(Cell::new(0));
    let seen_zero = Rc::new(Cell::new(77));
    let recorder = Recorder {
        calls: calls.clone(),
        seen_pc: seen_pc.clone(),
        seen_a7: seen_a7.clone(),
        seen_zero: seen_zero.clone(),
        abort: false,
    };
    let mut bytes = image(&[addi(0, 0, 9), addi(17, 0, 0x5d), ECALL, addi(1, 0, 1)], 16);
    let mut rom = Rom::new(&mut bytes, 0x100, 0x110);
    let cpu = Cpu::new(&mut rom).on_ecall(Box::new(recorder)).run().unwrap();
    assert_eq!(calls.get(), 1);
    assert_eq!(seen_pc.get(), 0x108);
    assert_eq!(seen_a7.get(), 0x5d);
    assert_eq!(seen_zero.get(), 0);
    // The handler did not ask to stop, so the program ran to its end.
    assert_eq!(cpu.registers().ra(), 1);
    assert_eq!(cpu.pc(), 0x110);
    assert!(cpu.running());
}

#[test]
fn abort_from_the_handler_stops_before_the_next_cycle() {
    // ecall ; addi x1, x0, 1
    let calls = Rc::new(Cell::new(0));
    let recorder = Recorder {
        calls: calls.clone(),
        seen_pc: Rc::new(Cell::new(0)),
        seen_a7: Rc::new(Cell::new(0)),
        seen_zero: Rc::new(Cell::new(0)),
        abort: true,
    };
    let mut bytes = image(&[ECALL, addi(1, 0, 1)], 8);
    let mut rom = Rom::new(&mut bytes, 0, 8);
    let cpu = Cpu::new(&mut rom).on_ecall(Box::new(recorder)).run().unwrap();
    assert_eq!(calls.get(), 1);
    // The ECALL's own cycle completed; the next instruction did not run.
    assert_eq!(cpu.pc(), 4);
    assert_eq!(cpu.registers().ra(), 0);
    assert!(!cpu.running());
}

#[test]
fn abort_before_run_is_forgotten() {
    let mut bytes = image(&[addi(1, 0, 1)], 4);
    let mut rom = Rom::new(&mut bytes, 0, 4);
    let cpu = Cpu::new(&mut rom);
    cpu.abort();
    assert!(!cpu.running());
    let cpu = cpu.run().unwrap();
    assert_eq!(cpu.registers().ra(), 1);
    assert_eq!(cpu.pc(), 4);
}

#[test]
fn execute_takes_the_instruction_address_as_given() {
    // Executing `jal x1, +8` as if fetched from 0x500.
    let mut bytes = vec![0u8; 8];
    let mut rom = Rom::new(&mut bytes, 0, 8);
    let mut cpu = Cpu::new(&mut rom);
    assert_eq!(cpu.execute(Instruction(0x0080_00ef), 0x500), Ok(()));
    assert_eq!(cpu.registers().ra(), 0x504);
    assert_eq!(cpu.pc(), 0x508);
    // The program counter wraps at the top of the address space.
    assert_eq!(cpu.execute(Instruction(addi(0, 0, 0)), 0xffff_fffc), Ok(()));
    assert_eq!(cpu.pc(), 0);
    assert_eq!(cpu.execute(Instruction(0x0080_00ef), 0xffff_fffc), Ok(()));
    assert_eq!(cpu.pc(), 4);
    assert_eq!(cpu.registers().ra(), 0);
}

#[test]
fn driving_the_cycles_by_hand() {
    // addi x1, x0, 1 ; addi x1, x1, 1 ; addi x1, x1, 1
    let mut bytes = image(&[addi(1, 0, 1), addi(1, 1, 1), addi(1, 1, 1)], 12);
    let mut rom = Rom::new(&mut bytes, 0, 12);
    let mut cpu = Cpu::new(&mut rom);
    // Before `start` the CPU is not running.
    assert!(!cpu.live());
    cpu.start();
    assert!(cpu.running());
    let mut cycles = 0;
    while cpu.live() {
        cpu.step().unwrap();
        cycles += 1;
    }
    assert_eq!(cycles, 3);
    assert_eq!(cpu.registers().ra(), 3);
    assert_eq!(cpu.pc(), 12);
}

#[test]
fn abort_between_cycles_stops_a_hand_driven_loop() {
    let mut bytes = image(&[addi(1, 0, 1), addi(1, 1, 1), addi(1, 1, 1)], 12);
    let mut rom = Rom::new(&mut bytes, 0, 12);
    let mut cpu = Cpu::new(&mut rom);
    cpu.start();
    assert!(cpu.live());
    cpu.step().unwrap();
    cpu.abort();
    assert!(!cpu.live());
    assert_eq!(cpu.registers().ra(), 1);
    assert_eq!(cpu.pc(), 4);
}

#[test]
fn may_step_needs_the_flag_the_window_and_no_halt() {
    let mut bytes = image(&[addi(1, 0, 1)], 4);
    let mut rom = Rom::new(&mut bytes, 0x20, 0x24);
    let mut cpu = Cpu::new(&mut rom);
    // The program counter is in the window: the flag alone decides.
    assert!(cpu.may_step(true));
    assert!(!cpu.may_step(false));
    cpu.step().unwrap();
    // The program counter has left the window: no flag value helps.
    assert_eq!(cpu.pc(), 0x24);
    assert!(!cpu.may_step(true));
    assert!(!cpu.may_step(false));
}

#[test]
fn may_step_is_false_once_a_handler_asked_to_stop() {
    let recorder = Recorder {
        calls: Rc::new(Cell::new(0)),
        seen_pc: Rc::new(Cell::new(0)),
        seen_a7: Rc::new(Cell::new(0)),
        seen_zero: Rc::new(Cell::new(0)),
        abort: true,
    };
    let mut bytes = image(&[ECALL, addi(1, 0, 1)], 8);
    let mut rom = Rom::new(&mut bytes, 0, 8);
    let mut cpu = Cpu::new(&mut rom).on_ecall(Box::new(recorder));
    cpu.start();
    assert!(cpu.may_step(true));
    assert!(cpu.live());
    cpu.step().unwrap();
    // The program counter is still in the window, but the handler asked to stop.
    assert_eq!(cpu.pc(), 4);
    assert!(!cpu.may_step(true));
    assert!(!cpu.live());
}
