use atari2600::cpu_6505::{FLAG_CARRY, FLAG_DECIMAL, FLAG_NEGATIVE, FLAG_OVERFLOW, FLAG_ZERO};
use atari2600::{decode, AccessType, AddressBus, AddressMode, Mnemonic, MOS6502};

/// 64 KiB of RAM that records every access.
struct Ram {
    mem: Vec<u8>,
    log: Vec<(bool, u16, u8)>,
}

impl Ram {
    fn with_program(origin: u16, program: &[u8]) -> Ram {
        let mut mem = vec![0u8; 0x10000];
        mem[origin as usize..origin as usize + program.len()].copy_from_slice(program);
        mem[0xFFFC] = (origin & 0xFF) as u8;
        mem[0xFFFD] = (origin >> 8) as u8;
        Ram { mem, log: Vec::new() }
    }
}

impl AddressBus for Ram {
    fn read(&mut self, addr: u16) -> u8 {
        let v = self.mem[addr as usize];
        self.log.push((false, addr, v));
        v
    }

    fn write(&mut self, addr: u16, value: u8) {
        self.mem[addr as usize] = value;
        self.log.push((true, addr, value));
    }
}

fn cpu_with(origin: u16, program: &[u8]) -> MOS6502<Ram> {
    let mut cpu = MOS6502::new(Ram::with_program(origin, program));
    cpu.reset();
    cpu.get_bus().log.clear();
    cpu
}

/// Runs one whole instruction and returns the number of cycles it took.
fn run_instruction(cpu: &mut MOS6502<Ram>) -> u32 {
    let start = cpu.cycles;
    cpu.cycle(true);
    while cpu.step != 1 {
        cpu.cycle(true);
    }
    cpu.cycles - start
}

#[test]
fn reset_loads_vector_and_power_on_state() {
    let mut cpu = MOS6502::new(Ram::with_program(0x1234, &[0xEA]));
    cpu.reset();
    assert_eq!(cpu.pc, 0x1234);
    assert_eq!(cpu.sp, 0xFD);
    assert_eq!(cpu.step, 1);
    assert_eq!(cpu.get_bus().log, vec![(false, 0xFFFC, 0x34), (false, 0xFFFD, 0x12)]);
}

#[test]
fn decode_documented_and_undocumented() {
    let lda = decode(0xA9).unwrap();
    assert_eq!(lda.name, Mnemonic::Lda);
    assert_eq!(lda.mode, AddressMode::Immediate);
    let inc = decode(0xFE).unwrap();
    assert_eq!(inc.name, Mnemonic::Inc);
    assert_eq!(inc.mode, AddressMode::AbsoluteIndexedX(AccessType::ReadModifyWrite));
    let sta = decode(0x91).unwrap();
    assert_eq!(sta.mode, AddressMode::IndirectIndexedY(AccessType::Write));
    assert_eq!(decode(0x6C).unwrap().mode, AddressMode::Indirect);
    assert!(decode(0x02).is_none());
    assert!(decode(0xFF).is_none());
    let documented = (0u16..256).filter(|op| decode(*op as u8).is_some()).count();
    assert_eq!(documented, 151);
}

#[test]
fn unknown_opcode_jams_the_core() {
    let mut cpu = cpu_with(0x0200, &[0x02]);
    cpu.cycle(true);
    assert!(cpu.jammed);
    assert_eq!(cpu.opcode, 0x02);
    let pc = cpu.pc;
    cpu.cycle(true);
    assert_eq!(cpu.pc, pc);
    assert_eq!(cpu.cycles, 2);
}

#[test]
fn rdy_low_holds_the_fetch() {
    let mut cpu = cpu_with(0x0200, &[0xEA]);
    cpu.cycle(false);
    cpu.cycle(false);
    assert_eq!(cpu.step, 1);
    assert_eq!(cpu.pc, 0x0200);
    assert_eq!(cpu.cycles, 2);
    assert!(cpu.get_bus().log.is_empty());
    cpu.cycle(true);
    assert_eq!(cpu.step, 2);
    assert_eq!(cpu.pc, 0x0201);
}

#[test]
fn cycle_counts_follow_the_reference() {
    // (program, expected cycles of its first instruction); X = 1 and Y = 1 are
    // loaded first where an index is used.
    let cases: Vec<(Vec<u8>, u32)> = vec![
        (vec![0xEA], 2),             // NOP
        (vec![0xA9, 0x01], 2),       // LDA #
        (vec![0xA5, 0x10], 3),       // LDA zp
        (vec![0x85, 0x10], 3),       // STA zp
        (vec![0xE6, 0x10], 5),       // INC zp
        (vec![0xB5, 0x10], 4),       // LDA zp,X
        (vec![0xF6, 0x10], 6),       // INC zp,X
        (vec![0xAD, 0x00, 0x30], 4), // LDA abs
        (vec![0x8D, 0x00, 0x30], 4), // STA abs
        (vec![0xEE, 0x00, 0x30], 6), // INC abs
        (vec![0xBD, 0x00, 0x30], 4), // LDA abs,X no page cross
        (vec![0xBD, 0xFF, 0x30], 5), // LDA abs,X page cross
        (vec![0x9D, 0x00, 0x30], 5), // STA abs,X
        (vec![0xFE, 0x00, 0x30], 7), // INC abs,X
        (vec![0xA1, 0x10], 6),       // LDA (zp,X)
        (vec![0x81, 0x10], 6),       // STA (zp,X)
        (vec![0xB1, 0x20], 5),       // LDA (zp),Y no page cross
        (vec![0xB1, 0x22], 6),       // LDA (zp),Y page cross
        (vec![0x91, 0x20], 6),       // STA (zp),Y
        (vec![0x4C, 0x00, 0x30], 3), // JMP abs
        (vec![0x6C, 0x00, 0x30], 5), // JMP (ind)
        (vec![0x20, 0x00, 0x30], 6), // JSR
        (vec![0x00], 7),             // BRK
        (vec![0x48], 3),             // PHA
        (vec![0x08], 3),             // PHP
        (vec![0x68], 4),             // PLA
        (vec![0x28], 4),             // PLP
        (vec![0x0A], 2),             // ASL A
        (vec![0xD0, 0x02], 2),       // BNE not taken (Z is set)
    ];
    for (program, expected) in cases {
        let mut cpu = cpu_with(0x0200, &program);
        cpu.x = 1;
        cpu.y = 1;
        cpu.sr = FLAG_ZERO;
        cpu.get_bus().mem[0x20] = 0x00;
        cpu.get_bus().mem[0x21] = 0x40;
        cpu.get_bus().mem[0x22] = 0xFF;
        cpu.get_bus().mem[0x23] = 0x40;
        assert_eq!(run_instruction(&mut cpu), expected, "program {:02X?}", program);
    }
}

#[test]
fn branch_cycle_counts() {
    // BNE taken within the page: 3 cycles.
    let mut cpu = cpu_with(0x0200, &[0xD0, 0x02]);
    cpu.sr = 0;
    assert_eq!(run_instruction(&mut cpu), 3);
    assert_eq!(cpu.pc, 0x0204);
    assert_eq!(cpu.get_bus().log.last().copied(), Some((false, 0x0202, 0)));
    // BNE taken across a page: 4 cycles, the last reading the unfixed address.
    let mut cpu = cpu_with(0x02F0, &[0xD0, 0x20]);
    cpu.sr = 0;
    assert_eq!(run_instruction(&mut cpu), 4);
    assert_eq!(cpu.pc, 0x0312);
    assert_eq!(cpu.get_bus().log.last().copied(), Some((false, 0x0212, 0)));
    // BEQ not taken: 2 cycles.
    let mut cpu = cpu_with(0x0200, &[0xF0, 0x20]);
    cpu.sr = 0;
    assert_eq!(run_instruction(&mut cpu), 2);
    assert_eq!(cpu.pc, 0x0202);
    // Backwards branch.
    let mut cpu = cpu_with(0x0210, &[0xD0, 0xFC]);
    cpu.sr = 0;
    assert_eq!(run_instruction(&mut cpu), 3);
    assert_eq!(cpu.pc, 0x020E);
}

#[test]
fn rmw_dummy_write_once() {
    // INC $3000,X with X = 0: read, dummy write of the old value, write of the new.
    let mut cpu = cpu_with(0x0200, &[0xFE, 0x00, 0x30]);
    cpu.get_bus().mem[0x3000] = 0x41;
    cpu.x = 0;
    run_instruction(&mut cpu);
    let writes: Vec<(bool, u16, u8)> = cpu.get_bus().log.iter().copied().filter(|e| e.0).collect();
    assert_eq!(writes, vec![(true, 0x3000, 0x41), (true, 0x3000, 0x42)]);
    assert_eq!(cpu.get_bus().log.len(), 7);
    assert_eq!(cpu.get_bus().log[5], (true, 0x3000, 0x41));

    // ASL zp: the dummy write is on cycle 4 of 5.
    let mut cpu = cpu_with(0x0200, &[0x06, 0x10]);
    cpu.get_bus().mem[0x10] = 0x81;
    run_instruction(&mut cpu);
    let log = cpu.get_bus().log.clone();
    assert_eq!(log.len(), 5);
    assert_eq!(log[3], (true, 0x0010, 0x81));
    assert_eq!(log[4], (true, 0x0010, 0x02));
    assert!(cpu.sr & FLAG_CARRY != 0);
}

#[test]
fn jmp_indirect_wraps_within_page() {
    let mut cpu = cpu_with(0x0200, &[0x6C, 0xFF, 0x30]);
    cpu.get_bus().mem[0x30FF] = 0x34;
    cpu.get_bus().mem[0x3000] = 0x12;
    cpu.get_bus().mem[0x3100] = 0x99;
    run_instruction(&mut cpu);
    assert_eq!(cpu.pc, 0x1234);
    assert_eq!(cpu.get_bus().log.last().copied(), Some((false, 0x3000, 0x12)));
}

#[test]
fn adc_decimal_all_pairs() {
    for a in 0..100u32 {
        for b in 0..100u32 {
            for carry in 0..2u32 {
                let bcd = |v: u32| (((v / 10) << 4) | (v % 10)) as u8;
                let mut cpu = cpu_with(0x0200, &[0x69, bcd(b)]);
                cpu.a = bcd(a);
                cpu.sr = FLAG_DECIMAL | if carry == 1 { FLAG_CARRY } else { 0 };
                run_instruction(&mut cpu);
                let sum = a + b + carry;
                assert_eq!(cpu.a, bcd(sum % 100), "{} + {} + {}", a, b, carry);
                assert_eq!(cpu.sr & FLAG_CARRY != 0, sum >= 100);
            }
        }
    }
}

#[test]
fn sbc_decimal_examples() {
    // 0x10 - 0x01 with carry set = 0x09, no borrow.
    let mut cpu = cpu_with(0x0200, &[0xE9, 0x01]);
    cpu.a = 0x10;
    cpu.sr = FLAG_DECIMAL | FLAG_CARRY;
    run_instruction(&mut cpu);
    assert_eq!(cpu.a, 0x09);
    assert!(cpu.sr & FLAG_CARRY != 0);
    // 0x00 - 0x01 = 0x99 with a borrow.
    let mut cpu = cpu_with(0x0200, &[0xE9, 0x01]);
    cpu.a = 0x00;
    cpu.sr = FLAG_DECIMAL | FLAG_CARRY;
    run_instruction(&mut cpu);
    assert_eq!(cpu.a, 0x99);
    assert!(cpu.sr & FLAG_CARRY == 0);
    // 0x12 - 0x34 with carry clear = 0x77, borrow.
    let mut cpu = cpu_with(0x0200, &[0xE9, 0x34]);
    cpu.a = 0x12;
    cpu.sr = FLAG_DECIMAL;
    run_instruction(&mut cpu);
    assert_eq!(cpu.a, 0x77);
    assert!(cpu.sr & FLAG_CARRY == 0);
}

#[test]
fn adc_binary_flags() {
    let mut cpu = cpu_with(0x0200, &[0x69, 0x50]);
    cpu.a = 0x50;
    cpu.sr = 0;
    run_instruction(&mut cpu);
    assert_eq!(cpu.a, 0xA0);
    assert!(cpu.sr & FLAG_OVERFLOW != 0);
    assert!(cpu.sr & FLAG_NEGATIVE != 0);
    assert!(cpu.sr & FLAG_CARRY == 0);
    let mut cpu = cpu_with(0x0200, &[0x69, 0x01]);
    cpu.a = 0xFF;
    cpu.sr = 0;
    run_instruction(&mut cpu);
    assert_eq!(cpu.a, 0x00);
    assert!(cpu.sr & FLAG_ZERO != 0);
    assert!(cpu.sr & FLAG_CARRY != 0);
    assert!(cpu.sr & FLAG_OVERFLOW == 0);
    // SBC binary: 0x50 - 0xF0 = 0x60, borrow.
    let mut cpu = cpu_with(0x0200, &[0xE9, 0xF0]);
    cpu.a = 0x50;
    cpu.sr = FLAG_CARRY;
    run_instruction(&mut cpu);
    assert_eq!(cpu.a, 0x60);
    assert!(cpu.sr & FLAG_CARRY == 0);
}

#[test]
fn bcd_loop_two_hundred_increments() {
    // SED; LDA #0; LDX #200; loop: CLC; ADC #1; DEX; BNE loop; JMP *
    let program = [0xF8, 0xA9, 0x00, 0xA2, 0xC8, 0x18, 0x69, 0x01, 0xCA, 0xD0, 0xFA, 0x4C, 0x0B, 0x02];
    let mut cpu = cpu_with(0x0200, &program);
    for _ in 0..3 {
        run_instruction(&mut cpu);
    }
    for i in 1..=200u32 {
        run_instruction(&mut cpu); // CLC
        run_instruction(&mut cpu); // ADC #1
        let expected = (i % 100) as u8;
        let bcd = ((expected / 10) << 4) | (expected % 10);
        assert_eq!(cpu.a, bcd);
        assert_eq!(cpu.sr & FLAG_ZERO != 0, bcd == 0);
        assert_eq!(cpu.sr & FLAG_NEGATIVE != 0, bcd & 0x80 != 0);
        assert_eq!(cpu.sr & FLAG_CARRY != 0, i % 100 == 0);
        run_instruction(&mut cpu); // DEX
        run_instruction(&mut cpu); // BNE
    }
    assert_eq!(cpu.a, 0x00);
    assert!(cpu.sr & FLAG_CARRY != 0);
    assert_eq!(cpu.pc, 0x020B);
}

#[test]
fn jsr_rts_and_stack() {
    // JSR $0300; at $0300: LDA #7; RTS.
    let mut cpu = cpu_with(0x0200, &[0x20, 0x00, 0x03]);
    cpu.get_bus().mem[0x0300] = 0xA9;
    cpu.get_bus().mem[0x0301] = 0x07;
    cpu.get_bus().mem[0x0302] = 0x60;
    assert_eq!(run_instruction(&mut cpu), 6);
    assert_eq!(cpu.pc, 0x0300);
    assert_eq!(cpu.sp, 0xFB);
    assert_eq!(cpu.get_bus().mem[0x01FD], 0x02);
    assert_eq!(cpu.get_bus().mem[0x01FC], 0x02);
    run_instruction(&mut cpu);
    assert_eq!(run_instruction(&mut cpu), 6);
    assert_eq!(cpu.pc, 0x0203);
    assert_eq!(cpu.sp, 0xFD);
    assert_eq!(cpu.a, 7);
}

#[test]
fn brk_and_rti() {
    let mut cpu = cpu_with(0x0200, &[0x00]);
    cpu.get_bus().mem[0xFFFE] = 0x00;
    cpu.get_bus().mem[0xFFFF] = 0x04;
    cpu.get_bus().mem[0x0400] = 0x40;
    cpu.sr = FLAG_CARRY;
    run_instruction(&mut cpu);
    assert_eq!(cpu.pc, 0x0400);
    assert_eq!(cpu.get_bus().mem[0x01FB], FLAG_CARRY | 0x30);
    assert!(cpu.sr & 0x04 != 0);
    assert_eq!(run_instruction(&mut cpu), 6);
    assert_eq!(cpu.pc, 0x0202);
    assert_eq!(cpu.sr, FLAG_CARRY);
}

#[test]
fn transfers_and_compare() {
    // LDX #$80; TXA; CMP #$80; TAY; INY
    let mut cpu = cpu_with(0x0200, &[0xA2, 0x80, 0x8A, 0xC9, 0x80, 0xA8, 0xC8]);
    for _ in 0..3 {
        run_instruction(&mut cpu);
    }
    assert_eq!(cpu.a, 0x80);
    assert!(cpu.sr & FLAG_ZERO != 0);
    assert!(cpu.sr & FLAG_CARRY != 0);
    run_instruction(&mut cpu);
    run_instruction(&mut cpu);
    assert_eq!(cpu.y, 0x81);
    assert!(cpu.sr & FLAG_NEGATIVE != 0);
}

#[test]
fn indexed_addressing_modes() {
    // LDA $F0,X with X = 0x20 wraps within page zero.
    let mut cpu = cpu_with(0x0200, &[0xB5, 0xF0]);
    cpu.x = 0x20;
    cpu.get_bus().mem[0x0010] = 0x5A;
    cpu.get_bus().mem[0x0110] = 0xA5;
    run_instruction(&mut cpu);
    assert_eq!(cpu.a, 0x5A);
    // LDA ($FF,X) with X = 1 reads the pointer at $00/$01.
    let mut cpu = cpu_with(0x0200, &[0xA1, 0xFF]);
    cpu.x = 1;
    cpu.get_bus().mem[0x0000] = 0x34;
    cpu.get_bus().mem[0x0001] = 0x12;
    cpu.get_bus().mem[0x1234] = 0x77;
    run_instruction(&mut cpu);
    assert_eq!(cpu.a, 0x77);
    // STA ($20),Y with a page cross: the write lands on the fixed address.
    let mut cpu = cpu_with(0x0200, &[0x91, 0x20]);
    cpu.y = 0x10;
    cpu.a = 0x99;
    cpu.get_bus().mem[0x20] = 0xF8;
    cpu.get_bus().mem[0x21] = 0x40;
    run_instruction(&mut cpu);
    assert_eq!(cpu.get_bus().mem[0x4108], 0x99);
    assert_eq!(cpu.get_bus().log[4], (false, 0x4008, 0));
    // LDX $30FF,Y with Y = 2: the spurious read of $3001 comes before $3101.
    let mut cpu = cpu_with(0x0200, &[0xBE, 0xFF, 0x30]);
    cpu.y = 2;
    cpu.get_bus().mem[0x3101] = 0x42;
    run_instruction(&mut cpu);
    assert_eq!(cpu.x, 0x42);
    let reads: Vec<u16> = cpu.get_bus().log.iter().map(|e| e.1).collect();
    assert_eq!(reads, vec![0x0200, 0x0201, 0x0202, 0x3001, 0x3101]);
}

#[test]
fn shifts_rotates_and_bit() {
    // SEC; ROR A: 0x02 -> 0x81, carry clear.
    let mut cpu = cpu_with(0x0200, &[0x38, 0x6A, 0x2A, 0x4A, 0x24, 0x10]);
    cpu.a = 0x02;
    run_instruction(&mut cpu);
    run_instruction(&mut cpu);
    assert_eq!(cpu.a, 0x81);
    assert!(cpu.sr & FLAG_CARRY == 0);
    assert!(cpu.sr & FLAG_NEGATIVE != 0);
    // ROL A: 0x81 -> 0x02, carry set.
    run_instruction(&mut cpu);
    assert_eq!(cpu.a, 0x02);
    assert!(cpu.sr & FLAG_CARRY != 0);
    // LSR A: 0x02 -> 0x01, carry clear.
    run_instruction(&mut cpu);
    assert_eq!(cpu.a, 0x01);
    assert!(cpu.sr & FLAG_CARRY == 0);
    // BIT $10 with $10 = 0xC0 and A = 1: Z, N and V set.
    cpu.get_bus().mem[0x10] = 0xC0;
    run_instruction(&mut cpu);
    assert!(cpu.sr & FLAG_ZERO != 0);
    assert!(cpu.sr & FLAG_NEGATIVE != 0);
    assert!(cpu.sr & FLAG_OVERFLOW != 0);
    assert_eq!(cpu.a, 0x01);
}

#[test]
fn push_and_pull_status() {
    // PHP; PLA; PHA; PLP
    let mut cpu = cpu_with(0x0200, &[0x08, 0x68, 0x48, 0x28]);
    cpu.sr = FLAG_CARRY | FLAG_DECIMAL;
    run_instruction(&mut cpu);
    assert_eq!(cpu.get_bus().mem[0x01FD], FLAG_CARRY | FLAG_DECIMAL | 0x30);
    run_instruction(&mut cpu);
    assert_eq!(cpu.a, FLAG_CARRY | FLAG_DECIMAL | 0x30);
    assert_eq!(cpu.sp, 0xFD);
    run_instruction(&mut cpu);
    cpu.sr = 0;
    run_instruction(&mut cpu);
    assert_eq!(cpu.sr, FLAG_CARRY | FLAG_DECIMAL);
}
