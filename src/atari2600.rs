use vstd::prelude::*;
use crate::cpu_6505::{AddressBus, BusOp};
use crate::cpu_6502_cpu::MOS6502;
use crate::riot::{self, BusFault, Riot};
use crate::tia::{self, Tia};

verus! {

/// The chip that an address selects: A12 the cartridge, else A7 the RIOT,
/// else the TIA.
#[derive(Clone, Copy, Debug, PartialEq, Eq, Structural)]
pub enum Atari2600Chip {
    Cartridge,
    Riot,
    Tia,
}

pub open spec fn chip_of(addr: u16) -> Atari2600Chip {
    if addr & 0x1000 != 0 {
        Atari2600Chip::Cartridge
    } else if addr & 0x0080 != 0 {
        Atari2600Chip::Riot
    } else {
        Atari2600Chip::Tia
    }
}

/// The cartridge sizes that the console takes: 2 KiB and 4 KiB flat, 8 KiB in
/// two banks.
pub open spec fn valid_rom_size(len: int) -> bool {
    len == 2048 || len == 4096 || len == 8192
}

/// The bank that a cartridge access selects, if it is a bank hotspot of an
/// 8 KiB cartridge: 0x1FF8 the first, 0x1FF9 the second.
pub open spec fn hotspot(rom_len: int, addr: u16) -> Option<usize> {
    if rom_len == 8192 && addr & 0x1FFF == 0x1FF8 {
        Some(0)
    } else if rom_len == 8192 && addr & 0x1FFF == 0x1FF9 {
        Some(4096)
    } else {
        None
    }
}

/// The ROM byte that a cartridge address reads: A0..A11 within the selected
/// bank, and A0..A10 for a 2 KiB cartridge, which appears twice.
pub open spec fn rom_index(rom_len: int, bank_offset: usize, addr: u16) -> int {
    if rom_len == 2048 {
        (addr & 0x07FF) as int
    } else {
        (addr & 0x0FFF) + bank_offset
    }
}

/// The console: the cartridge, the RIOT and the TIA on the 6507's address bus.
pub struct Atari2600 {
    pub rom: Vec<u8>,
    pub riot: Riot,
    pub tia: Tia,
    pub bank_offset: usize,
    /// The first access that no register answered.
    pub fault: Option<BusFault>,
    pub history: Ghost<Seq<BusOp>>,
}

fn decode(addr: u16) -> (r: Atari2600Chip)
    ensures
        r == chip_of(addr),
{
    if addr & 0x1000 != 0 {
        Atari2600Chip::Cartridge
    } else if addr & 0x0080 != 0 {
        Atari2600Chip::Riot
    } else {
        Atari2600Chip::Tia
    }
}

impl Atari2600 {
    pub open spec fn wf(self) -> bool {
        &&& valid_rom_size(self.rom@.len() as int)
        &&& (self.bank_offset == 0 || (self.bank_offset == 4096 && self.rom@.len() == 8192))
        &&& self.riot.wf()
        &&& self.tia.wf()
    }

    /// What a read of `addr` that returned `r` does: the history grows by the
    /// access; the chip that `addr` selects answers and changes as its own
    /// read does; a cartridge hotspot switches the bank and reads 0; an unmapped
    /// RIOT register reads 0 and is recorded as the fault if none was.
    pub open spec fn read_done(s: Atari2600, addr: u16, r: u8, t: Atari2600) -> bool {
        &&& t.history@ == s.history@.push(BusOp::Read(addr, r))
        &&& t.rom == s.rom
        &&& chip_of(addr) == Atari2600Chip::Tia ==> r == tia::read_value(s.tia, addr)
            && t.tia == s.tia && t.riot == s.riot && t.bank_offset == s.bank_offset
        &&& chip_of(addr) == Atari2600Chip::Cartridge ==> t.tia == s.tia
            && t.riot == s.riot
            && match hotspot(s.rom@.len() as int, addr) {
                Some(bank) => r == 0 && t.bank_offset == bank,
                None => r == s.rom@[rom_index(s.rom@.len() as int, s.bank_offset, addr)]
                    && t.bank_offset == s.bank_offset,
            }
        &&& chip_of(addr) == Atari2600Chip::Riot ==> t.tia == s.tia
            && t.bank_offset == s.bank_offset
            && (riot::read_register(addr) is Some ==> (r, t.riot) == s.riot.read_result(addr)
                && t.fault == s.fault)
            && (riot::read_register(addr) is None ==> r == 0 && t.riot == s.riot
                && t.fault == (if s.fault is None {
                    Some(BusFault::UnmappedRead(addr))
                } else {
                    s.fault
                }))
        &&& chip_of(addr) != Atari2600Chip::Riot ==> t.fault == s.fault
    }

    /// What a write of `value` to `addr` does: the selected chip changes as its
    /// own write does; a cartridge hotspot switches the bank and other cartridge
    /// writes are ignored; an unmapped RIOT register is recorded as the fault.
    pub open spec fn write_done(s: Atari2600, addr: u16, value: u8, t: Atari2600) -> bool {
        &&& t.history@ == s.history@.push(BusOp::Write(addr, value))
        &&& t.rom == s.rom
        &&& chip_of(addr) == Atari2600Chip::Tia ==> t.tia == tia::write_effect(s.tia, addr, value)
            && t.riot == s.riot && t.bank_offset == s.bank_offset
        &&& chip_of(addr) == Atari2600Chip::Cartridge ==> t.tia == s.tia
            && t.riot == s.riot
            && t.bank_offset == match hotspot(s.rom@.len() as int, addr) {
                Some(bank) => bank,
                None => s.bank_offset,
            }
        &&& chip_of(addr) == Atari2600Chip::Riot ==> t.tia == s.tia
            && t.bank_offset == s.bank_offset
            && exists|r: Result<(), BusFault>| #[trigger] Riot::written(s.riot, t.riot, addr, value, r)
            && match riot::write_register(addr) {
                None => t.fault == (if s.fault is None {
                    Some(BusFault::UnmappedWrite(addr))
                } else {
                    s.fault
                }),
                Some(_) => t.fault == s.fault,
            }
        &&& chip_of(addr) != Atari2600Chip::Riot ==> t.fault == s.fault
    }

    /// A console at power-on with cartridge `rom`.
    pub fn new(rom: Vec<u8>) -> (r: Self)
        requires
            valid_rom_size(rom@.len() as int),
        ensures
            r.wf(),
            r.rom == rom,
            r.bank_offset == 0,
            r.fault is None,
            r.history@.len() == 0,
            r.tia.scanline == 0 && r.tia.color_clock == 0 && !r.tia.draw,
    {
        Atari2600 {
            rom,
            riot: Riot::new(),
            tia: Tia::new(),
            bank_offset: 0,
            fault: None,
            history: Ghost(Seq::empty()),
        }
    }

    fn rom_byte(&self, addr: u16) -> (r: u8)
        requires
            self.wf(),
        ensures
            r == self.rom@[rom_index(self.rom@.len() as int, self.bank_offset, addr)],
    {
        if self.rom.len() == 2048 {
            assert(addr & 0x07FF < 2048) by (bit_vector);
            self.rom[(addr & 0x07FF) as usize]
        } else {
            assert(addr & 0x0FFF < 4096) by (bit_vector);
            self.rom[(addr & 0x0FFF) as usize + self.bank_offset]
        }
    }

    fn record_fault(&mut self, f: BusFault)
        ensures
            *final(self) == (Atari2600 {
                fault: if old(self).fault is None { Some(f) } else { old(self).fault },
                ..*old(self)
            }),
    {
        if self.fault.is_none() {
            self.fault = Some(f);
        }
    }

    /// A read on the bus. A hotspot switches the bank and reads 0; an
    /// unmapped RIOT register reads 0 and is recorded in `fault`.
    pub fn read_bus(&mut self, addr: u16) -> (r: u8)
        requires
            old(self).wf(),
        ensures
            final(self).wf(),
            Self::read_done(*old(self), addr, r, *final(self)),
    {
        let r = match decode(addr) {
            Atari2600Chip::Cartridge => {
                if self.rom.len() == 8192 && addr & 0x1FFF == 0x1FF8 {
                    self.bank_offset = 0;
                    0
                } else if self.rom.len() == 8192 && addr & 0x1FFF == 0x1FF9 {
                    self.bank_offset = 4096;
                    0
                } else {
                    self.rom_byte(addr)
                }
            },
            Atari2600Chip::Riot => {
                if Riot::readable(addr) {
                    self.riot.read(addr)
                } else {
                    self.record_fault(BusFault::UnmappedRead(addr));
                    0
                }
            },
            Atari2600Chip::Tia => self.tia.read(addr),
        };
        self.history = Ghost(self.history@.push(BusOp::Read(addr, r)));
        r
    }

    /// A write on the bus. A hotspot switches the bank; other cartridge
    /// writes are ignored; an unmapped RIOT register is recorded in `fault`.
    pub fn write_bus(&mut self, addr: u16, value: u8)
        requires
            old(self).wf(),
        ensures
            final(self).wf(),
            Self::write_done(*old(self), addr, value, *final(self)),
    {
        match decode(addr) {
            Atari2600Chip::Cartridge => {
                if self.rom.len() == 8192 && addr & 0x1FFF == 0x1FF8 {
                    self.bank_offset = 0;
                } else if self.rom.len() == 8192 && addr & 0x1FFF == 0x1FF9 {
                    self.bank_offset = 4096;
                }
            },
            Atari2600Chip::Riot => match self.riot.write(addr, value) {
                Ok(()) => {},
                Err(f) => self.record_fault(f),
            },
            Atari2600Chip::Tia => self.tia.write(addr, value),
        }
        self.history = Ghost(self.history@.push(BusOp::Write(addr, value)));
    }
}

impl AddressBus for Atari2600 {
    open spec fn trace(&self) -> Seq<BusOp> {
        self.history@
    }

    open spec fn valid(&self) -> bool {
        self.wf()
    }

    open spec fn read_post(&self, addr: u16, r: u8, after: Self) -> bool {
        Atari2600::read_done(*self, addr, r, after)
    }

    open spec fn write_post(&self, addr: u16, value: u8, after: Self) -> bool {
        Atari2600::write_done(*self, addr, value, after)
    }

    fn read(&mut self, addr: u16) -> (r: u8) {
        self.read_bus(addr)
    }

    fn write(&mut self, addr: u16, value: u8) {
        self.write_bus(addr, value)
    }
}

/// The TIA's color clock after one tick.
pub open spec fn next_clock(cc: u16) -> u16 {
    if cc == 228 {
        1
    } else {
        (cc + 1) as u16
    }
}

/// Whether WSYNC still holds the CPU after the three color clocks of a machine
/// cycle that starts at color clock `cc`: it falls when the clock reaches 228.
pub open spec fn held_after_three_clocks(wsync: bool, cc: u16) -> bool {
    let c1 = next_clock(cc);
    let c2 = next_clock(c1);
    wsync && cc < 227 && c1 < 227 && c2 < 227
}

/// The console before the CPU's part of a machine cycle that started from
/// `s`: the TIA after the color clocks `t1`, `t2`, `t3` and the RIOT after one
/// tick.
pub open spec fn devices_clocked(s: Atari2600, t1: Tia, t2: Tia, t3: Tia, after: Atari2600) -> bool {
    &&& Tia::cycled(s.tia, t1)
    &&& Tia::cycled(t1, t2)
    &&& Tia::cycled(t2, t3)
    &&& after == (Atari2600 { tia: t3, riot: s.riot.ticked(), ..s })
}

/// One machine cycle: three TIA color clocks, one RIOT cycle, then one CPU
/// cycle, held on its fetch while the TIA's WSYNC line is up. A CPU held by
/// WSYNC fetches in the machine cycle in which the line reaches clock 228.
pub fn machine_cycle(cpu: &mut MOS6502<Atari2600>)
    requires
        old(cpu).wf(),
    ensures
        final(cpu).wf(),
        exists|t1: Tia, t2: Tia, t3: Tia, mid: Atari2600|
            #![trigger devices_clocked(old(cpu).bus, t1, t2, t3, mid)]
            devices_clocked(old(cpu).bus, t1, t2, t3, mid)
            && MOS6502::cycled(MOS6502 { bus: mid, ..*old(cpu) }, *final(cpu), !t3.wsync),
        final(cpu).cycles == old(cpu).cycles.wrapping_add(1),
        ({
            let held = held_after_three_clocks(old(cpu).bus.tia.wsync, old(cpu).bus.tia.color_clock);
            &&& !old(cpu).jammed && old(cpu).step == 1 && held ==> final(cpu).step == 1
                && final(cpu).pc == old(cpu).pc && !final(cpu).jammed && final(cpu).regs() == old(cpu).regs()
                && final(cpu).bus.history@ == old(cpu).bus.history@
            &&& !old(cpu).jammed && old(cpu).step == 1 && !held ==> final(cpu).bus.history@
                == old(cpu).bus.history@.push(BusOp::Read(old(cpu).pc, final(cpu).opcode))
                && (final(cpu).step == 2 || final(cpu).jammed)
        }),
{
    let ghost start = cpu.bus;
    let bus = cpu.get_bus();
    bus.tia.cycle();
    let ghost t1 = bus.tia;
    bus.tia.cycle();
    let ghost t2 = bus.tia;
    bus.tia.cycle();
    let ghost t3 = bus.tia;
    bus.riot.cycle();
    let ghost mid = *bus;
    let rdy = !bus.tia.wsync();
    let ghost before = *cpu;
    assert(devices_clocked(start, t1, t2, t3, mid));
    cpu.cycle(rdy);
    assert(before == (MOS6502 { bus: mid, ..*old(cpu) }));
}

} // verus!

verus! {

/// WSYNC holds the CPU through every machine cycle that does not reach the end
/// of the scanline, and lets it go in the machine cycle whose three color
/// clocks reach clock 228.
pub proof fn lemma_wsync_release(cc: u16)
    requires
        1 <= cc <= 228,
    ensures
        held_after_three_clocks(true, cc) == (cc < 225),
        !held_after_three_clocks(false, cc),
{
}

} // verus!
