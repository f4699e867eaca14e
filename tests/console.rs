use atari2600::atari2600::{machine_cycle, Atari2600};
use atari2600::riot::{BusFault, JoystickDirection, Player, Riot, TIMER_FLAG};
use atari2600::tia::{Tia, CLOCKS_PER_SCANLINE, FRAME_SIZE, NUM_SCANLINES};
use atari2600::{palette_rgb, AddressBus, MOS6502};

/// A 4 KiB cartridge with `program` at $F000 and the reset vector pointing there.
fn cartridge(program: &[u8]) -> Vec<u8> {
    let mut rom = vec![0u8; 4096];
    rom[..program.len()].copy_from_slice(program);
    rom[0x0FFC] = 0x00;
    rom[0x0FFD] = 0xF0;
    rom
}

fn console(program: &[u8]) -> MOS6502<Atari2600> {
    let mut cpu = MOS6502::new(Atari2600::new(cartridge(program)));
    cpu.reset();
    cpu
}

const FRAME_CYCLES: usize = (NUM_SCANLINES as usize * CLOCKS_PER_SCANLINE as usize) / 3;

fn tia_run_to(tia: &mut Tia, scanline: u16, clock: u16) {
    while !(tia.scanline == scanline && tia.color_clock == clock) {
        tia.cycle();
    }
}

#[test]
fn reset_vector_program_stores_to_ram() {
    // LDA #$42; STA $80; BRK
    let mut cpu = console(&[0xA9, 0x42, 0x85, 0x80, 0x00]);
    assert_eq!(cpu.pc, 0xF000);
    for _ in 0..7 {
        machine_cycle(&mut cpu);
    }
    assert_eq!(cpu.get_bus().riot.ram[0], 0x42);
    assert_eq!(cpu.get_bus().fault, None);
}

#[test]
fn blank_frame_draws_once() {
    // LDA #2; STA VBLANK; STA VSYNC; STA WSYNC x3; LDA #0; STA VSYNC; JMP *
    let program = [
        0xA9, 0x02, 0x85, 0x01, 0x85, 0x00, 0x85, 0x02, 0x85, 0x02, 0x85, 0x02, 0xA9, 0x00, 0x85,
        0x00, 0x4C, 0x10, 0xF0,
    ];
    let mut cpu = console(&program);
    let mut draws = 0;
    for _ in 0..2 * FRAME_CYCLES {
        machine_cycle(&mut cpu);
        if cpu.get_bus().tia.draw() {
            draws += 1;
            cpu.get_bus().tia.drew();
        }
    }
    assert_eq!(draws, 1);
    assert!(cpu.get_bus().tia.frame.iter().all(|&p| p == 0));
    assert_eq!(cpu.get_bus().tia.frame.len(), FRAME_SIZE);
}

#[test]
fn single_playfield_column() {
    // LDA #0; STA COLUBK; LDA #$0E; STA COLUPF; LDA #$80; STA PF1; JMP *
    let program = [0xA9, 0x00, 0x85, 0x09, 0xA9, 0x0E, 0x85, 0x08, 0xA9, 0x80, 0x85, 0x0E, 0x4C, 0x0C, 0xF0];
    let mut cpu = console(&program);
    for _ in 0..FRAME_CYCLES + 100 {
        machine_cycle(&mut cpu);
    }
    let frame = &cpu.get_bus().tia.frame;
    for line in 0..NUM_SCANLINES as usize {
        let row = &frame[line * 228..(line + 1) * 228];
        for x in 84..88 {
            assert_eq!(row[x], 0x0E, "line {} clock {}", line, x);
        }
        for x in 164..168 {
            assert_eq!(row[x], 0x0E, "line {} clock {}", line, x);
        }
        assert_eq!(row[83], 0);
        assert_eq!(row[88], 0);
        assert_eq!(row[100], 0);
        assert_eq!(row[10], 0);
    }
}

fn first_lit(tia: &Tia, line: usize) -> Option<usize> {
    (0..228).find(|&x| tia.frame[line * 228 + x] != 0)
}

#[test]
fn resp0_positioning() {
    let mut tia = Tia::new();
    tia.write(0x06, 0x1E); // COLUP0
    tia.write(0x1B, 0xFF); // GRP0
    tia_run_to(&mut tia, 0, 78);
    tia.write(0x10, 0); // RESP0
    tia_run_to(&mut tia, 1, 228);
    assert_eq!(first_lit(&tia, 1), Some(83));
    for x in 83..91 {
        assert_eq!(tia.frame[228 + x], 0x1E);
    }
    assert_eq!(tia.frame[228 + 91], 0);
}

fn hmove_case(hmp0: u8) -> Option<usize> {
    let mut tia = Tia::new();
    tia.write(0x06, 0x1E);
    tia.write(0x1B, 0xFF);
    tia_run_to(&mut tia, 0, 80);
    tia.write(0x10, 0); // RESP0
    tia_run_to(&mut tia, 1, 10);
    tia.write(0x20, hmp0); // HMP0
    tia.write(0x2A, 0); // HMOVE
    tia_run_to(&mut tia, 2, 228);
    first_lit(&tia, 2)
}

#[test]
fn hmove_moves_player() {
    assert_eq!(hmove_case(0x00), Some(85));
    assert_eq!(hmove_case(0x50), Some(80));
    assert_eq!(hmove_case(0xA0), Some(91));
    assert_eq!(hmove_case(0x70), Some(78));
    assert_eq!(hmove_case(0x80), Some(93));
}

#[test]
fn wsync_holds_cpu_until_line_end() {
    // STA WSYNC; NOP; JMP *
    let mut cpu = console(&[0x85, 0x02, 0xEA, 0x4C, 0x03, 0xF0]);
    // Three cycles of STA zp.
    for _ in 0..3 {
        machine_cycle(&mut cpu);
    }
    assert!(cpu.get_bus().tia.wsync());
    let mut held = 0;
    while cpu.get_bus().tia.wsync() {
        let pc = cpu.pc;
        machine_cycle(&mut cpu);
        if cpu.get_bus().tia.wsync() {
            assert_eq!(cpu.pc, pc);
            held += 1;
        }
    }
    // The fetch of NOP happens in the machine cycle that reaches clock 228.
    assert_eq!(cpu.pc, 0xF003);
    assert_eq!(cpu.step, 2);
    assert_eq!(cpu.get_bus().tia.scanline, 0);
    assert!(cpu.get_bus().tia.color_clock >= 226);
    assert!(held > 60);
}

#[test]
fn vsync_raises_draw_until_drew() {
    let mut tia = Tia::new();
    tia_run_to(&mut tia, 2, 100);
    tia.write(0x00, 0x02);
    assert!(tia.draw());
    assert_eq!(tia.scanline, 0);
    tia.write(0x00, 0x02);
    tia.cycle();
    assert!(tia.draw());
    tia.drew();
    assert!(!tia.draw());
    tia.write(0x00, 0x00);
    assert!(!tia.draw());
}

#[test]
fn audio_pure_tone() {
    let mut tia = Tia::new();
    tia.write(0x15, 4); // AUDC0
    tia.write(0x17, 31); // AUDF0
    tia.write(0x19, 15); // AUDV0
    for _ in 0..NUM_SCANLINES as usize * CLOCKS_PER_SCANLINE as usize {
        tia.cycle();
    }
    let samples: Vec<u8> = tia.chan0.samples.iter().map(|s| s.value).collect();
    assert!(samples.len() >= 2);
    for pair in samples.windows(2) {
        assert_ne!(pair[0], pair[1]);
    }
    for v in &samples {
        assert_eq!((*v as i32 - 128).abs(), 120);
    }
    let stamps: Vec<u16> = tia.chan0.samples.iter().map(|s| s.cycles).collect();
    assert_eq!(stamps[1].wrapping_sub(stamps[0]), 32 * 114);
}

#[test]
fn audio_silent_and_volume() {
    let mut tia = Tia::new();
    tia.write(0x16, 0); // AUDC1 silence
    tia.write(0x18, 0); // AUDF1
    tia.write(0x1A, 9); // AUDV1
    for _ in 0..228 * 4 {
        tia.cycle();
    }
    assert!(tia.chan1.samples.len() >= 4);
    assert!(tia.chan1.samples.iter().all(|s| s.value == 128));
    tia.write(0x16, 8); // white noise
    for _ in 0..228 * 20 {
        tia.cycle();
    }
    assert!(tia.chan1.samples.iter().skip(8).all(|s| s.value == 128 + 72 || s.value == 128 - 72));
    assert_eq!(tia.audio_cycle(1) % 8, 0);
}

#[test]
fn collisions_and_clear() {
    let mut tia = Tia::new();
    tia.write(0x0D, 0xF0); // PF0
    tia.write(0x1B, 0xFF); // GRP0
    tia.write(0x06, 0x20);
    tia_run_to(&mut tia, 0, 70);
    tia.write(0x10, 0); // RESP0
    tia_run_to(&mut tia, 1, 228);
    assert_eq!(tia.read(0x02) & 0x80, 0x80); // CXP0FB: P0 and playfield
    assert_eq!(tia.read(0x07), 0);
    tia.write(0x2C, 0); // CXCLR
    assert_eq!(tia.read(0x02), 0);
    assert_eq!(tia.read(0x0C), 0x80);
    tia.input4(0x00);
    assert_eq!(tia.read(0x0C), 0x00);
}

#[test]
fn riot_timer_underflow() {
    let mut riot = Riot::new();
    assert_eq!(riot.write(0x0296, 10), Ok(()));
    let mut zero_at = None;
    for n in 1..=641u32 {
        riot.cycle();
        if riot.timer_value == 0 && zero_at.is_none() {
            zero_at = Some(n);
            assert!(riot.interrupt_flag & TIMER_FLAG != 0);
        }
        if n < 641 {
            assert_ne!(riot.timer_value, 0xFF, "cycle {}", n);
            if riot.timer_value != 0 {
                assert_eq!(riot.interrupt_flag & TIMER_FLAG, 0);
            }
        }
    }
    assert_eq!(zero_at, Some(9 * 64 + 1));
    assert_eq!(riot.timer_value, 0xFF);
    assert_eq!(riot.timer_interval, 1);
    riot.cycle();
    assert_eq!(riot.timer_value, 0xFE);
}

#[test]
fn riot_registers() {
    let mut riot = Riot::new();
    assert_eq!(riot.write(0x0080, 0x55), Ok(()));
    assert_eq!(riot.read(0x00FF), 0);
    assert_eq!(riot.read(0x0080), 0x55);
    assert_eq!(riot.read(0x0282), 0x03);
    riot.switch_color(true);
    riot.switch_reset(false);
    assert_eq!(riot.read(0x0282), 0x0A);
    riot.switch_select(false);
    assert_eq!(riot.read(0x0282), 0x08);
    assert_eq!(riot.read(0x0280), 0xFF);
    riot.switch_joystick(Player::Zero, JoystickDirection::Up, true);
    riot.switch_joystick(Player::One, JoystickDirection::Right, true);
    assert_eq!(riot.read(0x0280), 0xE7);
    riot.switch_joystick(Player::Zero, JoystickDirection::Up, false);
    assert_eq!(riot.read(0x0280), 0xF7);
    assert!(!Riot::readable(0x0281));
    assert!(Riot::readable(0x0285));
    assert_eq!(riot.write(0x0280, 1), Err(BusFault::UnmappedWrite(0x0280)));
    // Timer read with interrupt enable, then the flag register.
    riot.write(0x0294, 1).unwrap();
    riot.cycle();
    assert_eq!(riot.timer_value, 0);
    assert_eq!(riot.read(0x0285) & TIMER_FLAG, TIMER_FLAG);
    assert_eq!(riot.read(0x028C), 0);
    assert!(!riot.irq());
    riot.cycle();
    assert!(riot.irq());
    assert_eq!(riot.read(0x0284), 0xFF);
    assert!(!riot.irq());
}

#[test]
fn bank_switching_and_rom_writes() {
    let mut rom = vec![0u8; 8192];
    rom[0x0010] = 0x11;
    rom[0x1010] = 0x22;
    let mut bus = Atari2600::new(rom);
    assert_eq!(bus.read(0xF010), 0x11);
    assert_eq!(bus.read(0x1FF9), 0);
    assert_eq!(bus.read(0xF010), 0x22);
    bus.write(0x1FF8, 0);
    assert_eq!(bus.read(0xF010), 0x11);
    bus.write(0xF010, 0x99);
    assert_eq!(bus.read(0xF010), 0x11);
    assert_eq!(bus.fault, None);
    bus.write(0x0281, 0);
    assert_eq!(bus.fault, Some(BusFault::UnmappedWrite(0x0281)));

    let mut small = vec![0u8; 2048];
    small[5] = 0x77;
    let mut bus = Atari2600::new(small);
    assert_eq!(bus.read(0x1005), 0x77);
    assert_eq!(bus.read(0x1805), 0x77);
    assert_eq!(bus.read(0x1FF9), 0);
    assert_eq!(bus.bank_offset, 0);
}

#[test]
fn palette_lookup() {
    assert_eq!(palette_rgb(0x00), (0, 0, 0));
    assert_eq!(palette_rgb(0x0E), (237, 237, 237));
    assert_eq!(palette_rgb(0x0F), (237, 237, 237));
    assert_eq!(palette_rgb(0xFE), (254, 223, 112));
}

#[test]
fn missile_follows_player_while_locked() {
    let mut tia = Tia::new();
    tia.write(0x06, 0x1E); // COLUP0
    tia_run_to(&mut tia, 0, 78);
    tia.write(0x10, 0); // RESP0: player 0 starts at clock 83 from the next line
    tia.write(0x28, 0x02); // RESMP0
    tia_run_to(&mut tia, 1, 228);
    tia.write(0x28, 0x00);
    tia.write(0x1D, 0x02); // ENAM0
    tia_run_to(&mut tia, 2, 228);
    assert_eq!(tia.resm0, 87);
    assert_eq!(first_lit(&tia, 2), Some(87));
    assert_eq!(tia.frame[2 * 228 + 88], 0);
}

#[test]
fn missile_and_ball_positions() {
    let mut tia = Tia::new();
    tia.write(0x06, 0x1E); // COLUP0
    tia.write(0x08, 0x2E); // COLUPF
    tia.write(0x04, 0x20); // NUSIZ0: missile 4 clocks wide
    tia.write(0x0A, 0x10); // CTRLPF: ball 2 clocks wide
    tia_run_to(&mut tia, 0, 100);
    tia.write(0x12, 0); // RESM0 at 105
    tia.write(0x14, 0); // RESBL at 103
    tia.write(0x1D, 0x02);
    tia.write(0x1F, 0x02);
    tia_run_to(&mut tia, 1, 228);
    assert_eq!(tia.resm0, 105);
    assert_eq!(tia.resbl, 103);
    let row = &tia.frame[228..456];
    assert_eq!(&row[102..110], &[0, 0x2E, 0x2E, 0x1E, 0x1E, 0x1E, 0x1E, 0]);
    // HMOVE with HMM0 = 0x10 moves the missile one clock left.
    tia.write(0x22, 0x10);
    tia.write(0x2A, 0);
    assert_eq!(tia.resm0, 104);
    assert_eq!(tia.resbl, 103);
    // A reset at the end of a line wraps to the start of the visible part.
    tia.write(0x12, 0);
    assert_eq!(tia.resm0, 73);
}

#[test]
fn unmapped_riot_read_is_recorded() {
    let mut bus = Atari2600::new(cartridge(&[0xEA]));
    assert_eq!(bus.read(0x0281), 0);
    assert_eq!(bus.fault, Some(BusFault::UnmappedRead(0x0281)));
    bus.write(0x0283, 0);
    assert_eq!(bus.fault, Some(BusFault::UnmappedRead(0x0281)));
    assert_eq!(bus.riot.timer_value, 0);
}
