use vstd::prelude::*;

verus! {

/// Bit of the interrupt flag register set when the timer reaches zero.
pub const TIMER_FLAG: u8 = 0x80;
/// Bit of the interrupt flag register set by an edge on PA7.
pub const PA7_FLAG: u8 = 0x40;

/// An access to an address that no register of a chip answers.
#[derive(Clone, Copy, Debug, PartialEq, Eq, Structural)]
pub enum BusFault {
    UnmappedRead(u16),
    UnmappedWrite(u16),
}

/// The registers that the RIOT answers on a read.
#[derive(Clone, Copy, Debug, PartialEq, Eq, Structural)]
pub enum RiotReadReg {
    Ram,
    PortA,
    PortB,
    TimerIrqOff,
    TimerIrqOn,
    Flags,
}

/// The registers that the RIOT answers on a write.
#[derive(Clone, Copy, Debug, PartialEq, Eq, Structural)]
pub enum RiotWriteReg {
    Ram,
    /// A timer start with the given interval.
    Timer(u16),
}

#[derive(Clone, Copy, Debug, PartialEq, Eq, Structural)]
pub enum Player {
    Zero,
    One,
}

#[derive(Clone, Copy, Debug, PartialEq, Eq, Structural)]
pub enum JoystickDirection {
    Right,
    Left,
    Down,
    Up,
}

/// The register that a read of `addr` reaches: A9 selects RAM, A2 the ports
/// or the timer, and the low bits the register.
pub open spec fn read_register(addr: u16) -> Option<RiotReadReg> {
    if addr & 0x0200 == 0 {
        Some(RiotReadReg::Ram)
    } else if addr & 0x0004 == 0 {
        if addr & 0x1287 == 0x0280 {
            Some(RiotReadReg::PortA)
        } else if addr & 0x1287 == 0x0282 {
            Some(RiotReadReg::PortB)
        } else {
            None
        }
    } else if addr & 0x0001 == 0 {
        if addr & 0x128D == 0x028C {
            Some(RiotReadReg::TimerIrqOn)
        } else if addr & 0x128D == 0x0284 {
            Some(RiotReadReg::TimerIrqOff)
        } else {
            None
        }
    } else if addr & 0x1285 == 0x0285 {
        Some(RiotReadReg::Flags)
    } else {
        None
    }
}

/// The register that a write of `addr` reaches: RAM, or one of the four
/// timer starts at 0x294..0x297 with intervals 1, 8, 64 and 1024.
pub open spec fn write_register(addr: u16) -> Option<RiotWriteReg> {
    if addr & 0x0200 == 0 {
        Some(RiotWriteReg::Ram)
    } else if addr & 0x129F == 0x0294 {
        Some(RiotWriteReg::Timer(1))
    } else if addr & 0x129F == 0x0295 {
        Some(RiotWriteReg::Timer(8))
    } else if addr & 0x129F == 0x0296 {
        Some(RiotWriteReg::Timer(64))
    } else if addr & 0x129F == 0x0297 {
        Some(RiotWriteReg::Timer(1024))
    } else {
        None
    }
}

/// The bit of port A that a joystick direction drives.
pub open spec fn joystick_bit(player: Player, dir: JoystickDirection) -> u8 {
    let shift: u8 = match dir {
        JoystickDirection::Right => 3,
        JoystickDirection::Left => 2,
        JoystickDirection::Down => 1,
        JoystickDirection::Up => 0,
    };
    let bit: u8 = (1u8 << shift) as u8;
    match player {
        Player::Zero => (bit << 4u8) as u8,
        Player::One => bit,
    }
}

/// The 6532 RAM / I/O / timer chip.
pub struct Riot {
    pub ram: [u8; 128],
    pub timer_cnt: u16,
    pub timer_value: u8,
    pub timer_interval: u16,
    pub timer_irq_enable: bool,
    pub interrupt_flag: u8,
    pub porta: u8,
    pub portb: u8,
}

fn decode_read(addr: u16) -> (r: Option<RiotReadReg>)
    ensures
        r == read_register(addr),
{
    if addr & 0x0200 == 0 {
        Some(RiotReadReg::Ram)
    } else if addr & 0x0004 == 0 {
        if addr & 0x1287 == 0x0280 {
            Some(RiotReadReg::PortA)
        } else if addr & 0x1287 == 0x0282 {
            Some(RiotReadReg::PortB)
        } else {
            None
        }
    } else if addr & 0x0001 == 0 {
        if addr & 0x128D == 0x028C {
            Some(RiotReadReg::TimerIrqOn)
        } else if addr & 0x128D == 0x0284 {
            Some(RiotReadReg::TimerIrqOff)
        } else {
            None
        }
    } else if addr & 0x1285 == 0x0285 {
        Some(RiotReadReg::Flags)
    } else {
        None
    }
}

fn decode_write(addr: u16) -> (r: Option<RiotWriteReg>)
    ensures
        r == write_register(addr),
{
    if addr & 0x0200 == 0 {
        Some(RiotWriteReg::Ram)
    } else if addr & 0x129F == 0x0294 {
        Some(RiotWriteReg::Timer(1))
    } else if addr & 0x129F == 0x0295 {
        Some(RiotWriteReg::Timer(8))
    } else if addr & 0x129F == 0x0296 {
        Some(RiotWriteReg::Timer(64))
    } else if addr & 0x129F == 0x0297 {
        Some(RiotWriteReg::Timer(1024))
    } else {
        None
    }
}

impl Riot {
    /// The prescaler never passes the interval, which is one of the four that
    /// the chip offers.
    pub open spec fn wf(self) -> bool {
        &&& (self.timer_interval == 1 || self.timer_interval == 8 || self.timer_interval == 64
            || self.timer_interval == 1024)
        &&& self.timer_cnt <= self.timer_interval
    }

    /// Power-on state: RAM cleared, no joystick direction pressed, the Reset and
    /// Select switches released.
    pub fn new() -> (r: Self)
        ensures
            r.wf(),
            forall|i: int| 0 <= i < 128 ==> r.ram@[i] == 0,
            r.timer_value == 0,
            r.timer_interval == 1024,
            r.timer_cnt == 0,
            !r.timer_irq_enable,
            r.interrupt_flag == 0,
            r.porta == 0xFF,
            r.portb == 0x03,
    {
        Riot {
            ram: [0u8; 128],
            timer_cnt: 0,
            timer_value: 0,
            timer_interval: 1024,
            timer_irq_enable: false,
            interrupt_flag: 0,
            porta: 0xFF,
            portb: 0x03,
        }
    }

    fn set_portb_bit(&mut self, bit: u8, level: bool)
        ensures
            *final(self) == (Riot {
                portb: if level { old(self).portb | bit } else { old(self).portb & !bit },
                ..*old(self)
            }),
    {
        if level {
            self.portb = self.portb | bit;
        } else {
            self.portb = self.portb & !bit;
        }
    }

    /// Sets the Color/BW switch line (bit 3 of port B; high is color).
    pub fn switch_color(&mut self, enabled: bool)
        ensures
            *final(self) == (Riot {
                portb: if enabled { old(self).portb | 0x08 } else { old(self).portb & !0x08u8 },
                ..*old(self)
            }),
    {
        self.set_portb_bit(0x08, enabled);
    }

    /// Sets the Select switch line (bit 1 of port B; low is pressed).
    pub fn switch_select(&mut self, enabled: bool)
        ensures
            *final(self) == (Riot {
                portb: if enabled { old(self).portb | 0x02 } else { old(self).portb & !0x02u8 },
                ..*old(self)
            }),
    {
        self.set_portb_bit(0x02, enabled);
    }

    /// Sets the Reset switch line (bit 0 of port B; low is pressed).
    pub fn switch_reset(&mut self, enabled: bool)
        ensures
            *final(self) == (Riot {
                portb: if enabled { old(self).portb | 0x01 } else { old(self).portb & !0x01u8 },
                ..*old(self)
            }),
    {
        self.set_portb_bit(0x01, enabled);
    }

    /// Presses or releases a joystick direction: its port A line goes low while
    /// pressed.
    pub fn switch_joystick(&mut self, player: Player, dir: JoystickDirection, pressed: bool)
        ensures
            *final(self) == (Riot {
                porta: if pressed {
                    old(self).porta & !joystick_bit(player, dir)
                } else {
                    old(self).porta | joystick_bit(player, dir)
                },
                ..*old(self)
            }),
    {
        let shift: u8 = match dir {
            JoystickDirection::Right => 3,
            JoystickDirection::Left => 2,
            JoystickDirection::Down => 1,
            JoystickDirection::Up => 0,
        };
        let bit: u8 = 1u8 << shift;
        let line: u8 = match player {
            Player::Zero => bit << 4u8,
            Player::One => bit,
        };
        if pressed {
            self.porta = self.porta & !line;
        } else {
            self.porta = self.porta | line;
        }
    }

    /// The timer interrupt line: enabled and the timer flag set.
    pub fn irq(&self) -> (r: bool)
        ensures
            r == (self.timer_irq_enable && self.interrupt_flag & TIMER_FLAG != 0),
    {
        self.timer_irq_enable && self.interrupt_flag & TIMER_FLAG != 0
    }

    /// The chip after one CPU cycle of the timer.
    pub open spec fn ticked(self) -> Riot {
        let fired = self.timer_cnt == self.timer_interval;
        let value = if fired { self.timer_value.wrapping_sub(1) } else { self.timer_value };
        Riot {
            timer_value: value,
            timer_cnt: if fired { 1 } else { (self.timer_cnt + 1) as u16 },
            timer_interval: if fired && self.timer_value == 0 { 1 } else { self.timer_interval },
            interrupt_flag: if self.timer_value == 0 || value == 0 {
                self.interrupt_flag | TIMER_FLAG
            } else {
                self.interrupt_flag
            },
            ..self
        }
    }

    /// The chip after `n` CPU cycles.
    pub open spec fn ticks(self, n: int) -> Riot
        decreases n,
    {
        if n <= 0 {
            self
        } else {
            self.ticks(n - 1).ticked()
        }
    }

    /// One CPU cycle of the timer. When the prescaler has counted the interval
    /// the value steps down (wrapping); stepping down from 0 drops the interval
    /// to 1. The timer flag is set while the value is 0 and on the cycle that
    /// brings it there.
    pub fn cycle(&mut self)
        requires
            old(self).wf(),
        ensures
            final(self).wf(),
            *final(self) == old(self).ticked(),
    {
        if self.timer_value == 0 {
            self.interrupt_flag = self.interrupt_flag | TIMER_FLAG;
        }
        if self.timer_cnt == self.timer_interval {
            if self.timer_value == 0 {
                self.timer_interval = 1;
            }
            self.timer_value = self.timer_value.wrapping_sub(1);
            self.timer_cnt = 0;
            if self.timer_value == 0 {
                self.interrupt_flag = self.interrupt_flag | TIMER_FLAG;
            }
        }
        self.timer_cnt = self.timer_cnt + 1;
    }

    fn read_ram(&self, addr: u16) -> (r: u8)
        ensures
            r == self.ram@[(addr & 0x7F) as int],
    {
        assert(addr & 0x7F < 128) by (bit_vector);
        self.ram[(addr & 0x7F) as usize]
    }

    fn write_ram(&mut self, addr: u16, value: u8)
        ensures
            *final(self) == (Riot { ram: final(self).ram, ..*old(self) }),
            final(self).ram@ == old(self).ram@.update((addr & 0x7F) as int, value),
    {
        assert(addr & 0x7F < 128) by (bit_vector);
        self.ram[(addr & 0x7F) as usize] = value;
    }

    /// The value read from a mapped register `addr` and the chip after it.
    pub open spec fn read_result(self, addr: u16) -> (u8, Riot) {
        match read_register(addr) {
            Some(RiotReadReg::PortA) => (self.porta, self),
            Some(RiotReadReg::PortB) => (self.portb, self),
            Some(RiotReadReg::TimerIrqOn) => (
                self.timer_value,
                Riot { timer_irq_enable: true, interrupt_flag: self.interrupt_flag & !TIMER_FLAG, ..self },
            ),
            Some(RiotReadReg::TimerIrqOff) => (
                self.timer_value,
                Riot { timer_irq_enable: false, interrupt_flag: self.interrupt_flag & !TIMER_FLAG, ..self },
            ),
            Some(RiotReadReg::Flags) => (
                self.interrupt_flag,
                Riot { interrupt_flag: self.interrupt_flag & !PA7_FLAG, ..self },
            ),
            _ => (self.ram@[(addr & 0x7F) as int], self),
        }
    }

    /// Whether a read of `addr` reaches a register. A read of any other
    /// address is a fault of the program, which the caller reports.
    pub fn readable(addr: u16) -> (r: bool)
        ensures
            r == read_register(addr) is Some,
    {
        decode_read(addr).is_some()
    }

    /// A read from a mapped register. Timer reads set or clear the timer
    /// interrupt enable (A3) and clear the timer flag; reading the flags clears
    /// PA7's.
    pub fn read(&mut self, addr: u16) -> (r: u8)
        requires
            read_register(addr) is Some,
        ensures
            (r, *final(self)) == old(self).read_result(addr),
    {
        match decode_read(addr) {
            Some(RiotReadReg::PortA) => self.porta,
            Some(RiotReadReg::PortB) => self.portb,
            Some(RiotReadReg::TimerIrqOn) => {
                self.timer_irq_enable = true;
                self.interrupt_flag = self.interrupt_flag & !TIMER_FLAG;
                self.timer_value
            },
            Some(RiotReadReg::TimerIrqOff) => {
                self.timer_irq_enable = false;
                self.interrupt_flag = self.interrupt_flag & !TIMER_FLAG;
                self.timer_value
            },
            Some(RiotReadReg::Flags) => {
                let value = self.interrupt_flag;
                self.interrupt_flag = self.interrupt_flag & !PA7_FLAG;
                value
            },
            _ => self.read_ram(addr),
        }
    }

    /// What a write of `value` to `addr` returns (`r`) and leaves (`t`).
    pub open spec fn written(s: Riot, t: Riot, addr: u16, value: u8, r: Result<(), BusFault>) -> bool {
        match write_register(addr) {
            None => r == Err::<(), BusFault>(BusFault::UnmappedWrite(addr)) && t == s,
            Some(RiotWriteReg::Ram) => r is Ok && t == (Riot { ram: t.ram, ..s })
                && t.ram@ == s.ram@.update((addr & 0x7F) as int, value),
            Some(RiotWriteReg::Timer(interval)) => r is Ok && t == (Riot {
                timer_value: value,
                timer_interval: interval,
                timer_cnt: interval,
                timer_irq_enable: false,
                interrupt_flag: s.interrupt_flag & !TIMER_FLAG,
                ..s
            }),
        }
    }

    /// A write to the chip: RAM, or a timer start.
    pub fn write(&mut self, addr: u16, value: u8) -> (r: Result<(), BusFault>)
        requires
            old(self).wf(),
        ensures
            final(self).wf(),
            Self::written(*old(self), *final(self), addr, value, r),
    {
        match decode_write(addr) {
            None => Err(BusFault::UnmappedWrite(addr)),
            Some(RiotWriteReg::Ram) => {
                self.write_ram(addr, value);
                Ok(())
            },
            Some(RiotWriteReg::Timer(interval)) => {
                self.timer_cfg(false, value, interval);
                Ok(())
            },
        }
    }

    /// Starts the timer at `value`: the first step down comes on the next
    /// cycle, the following ones every `interval` cycles.
    fn timer_cfg(&mut self, enable: bool, value: u8, interval: u16)
        ensures
            *final(self) == (Riot {
                timer_value: value,
                timer_interval: interval,
                timer_cnt: interval,
                timer_irq_enable: enable,
                interrupt_flag: old(self).interrupt_flag & !TIMER_FLAG,
                ..*old(self)
            }),
    {
        self.timer_irq_enable = enable;
        self.timer_value = value;
        self.timer_interval = interval;
        self.timer_cnt = interval;
        self.interrupt_flag = self.interrupt_flag & !TIMER_FLAG;
    }
}

proof fn lemma_ticks_add(s: Riot, a: int, b: int)
    requires
        a >= 0,
        b >= 0,
    ensures
        s.ticks(a + b) == s.ticks(a).ticks(b),
    decreases b,
{
    if b > 0 {
        lemma_ticks_add(s, a, b - 1);
    }
}

/// Between two steps of the value only the prescaler moves (and the timer flag
/// is held set while the value is 0).
proof fn lemma_ticks_steady(s: Riot, j: int)
    requires
        j >= 0,
        s.timer_cnt == 1,
        j < s.timer_interval,
    ensures
        s.ticks(j) == (Riot {
            timer_cnt: (1 + j) as u16,
            interrupt_flag: if s.timer_value == 0 && j > 0 { s.interrupt_flag | TIMER_FLAG } else { s.interrupt_flag },
            ..s
        }),
    decreases j,
{
    if j > 0 {
        lemma_ticks_steady(s, j - 1);
        let f = s.interrupt_flag;
        assert((f | TIMER_FLAG) | TIMER_FLAG == f | TIMER_FLAG) by (bit_vector);
    }
}

/// The chip `1 + k * interval` cycles after a timer start at `v`: the value
/// has stepped down `k + 1` times, and the flag rises with the value at 0.
proof fn lemma_timer_steps(r: Riot, k: int)
    requires
        k >= 0,
        r.wf(),
        r.timer_cnt == r.timer_interval,
        k < r.timer_value,
    ensures
        r.ticks(1 + k * r.timer_interval) == (Riot {
            timer_value: (r.timer_value - 1 - k) as u8,
            timer_cnt: 1,
            interrupt_flag: if r.timer_value - 1 - k == 0 { r.interrupt_flag | TIMER_FLAG } else { r.interrupt_flag },
            ..r
        }),
    decreases k,
{
    let i = r.timer_interval as int;
    if k == 0 {
        assert(1 + k * i == 1) by (nonlinear_arith)
            requires k == 0;
        assert(r.ticks(0) == r);
        assert(r.ticks(1) == r.ticks(0).ticked());
    } else {
        let km = k - 1;
        lemma_timer_steps(r, km);
        let s = r.ticks(1 + km * i);
        assert(s.timer_value == r.timer_value - k && s.timer_cnt == 1 && s.interrupt_flag == r.interrupt_flag);
        lemma_ticks_steady(s, i - 1);
        let u = s.ticks(i - 1);
        assert(u.timer_cnt == u.timer_interval && u.timer_value == r.timer_value - k);
        assert(u.interrupt_flag == r.interrupt_flag);
        lemma_ticks_add(r, 1 + km * i, i - 1);
        assert(1 + k * i == (1 + km * i) + (i - 1) + 1) by (nonlinear_arith)
            requires k == km + 1, i >= 1;
        assert(r.ticks(1 + k * i) == u.ticked());
    }
}

/// A timer started at `v` with interval `i` (as a write leaves it) reaches 0
/// after `(v - 1) * i + 1` cycles, setting the timer flag on that cycle, and
/// steps from 0 to 0xFF after exactly `v * i + 1` cycles, after which it counts
/// every cycle. Before that every value it shows is `v - 1 - k` after
/// `1 + k * i + j` cycles, so never 0xFF, and the flag does not rise before 0.
pub proof fn lemma_timer_underflow(r: Riot)
    requires
        r.wf(),
        r.timer_cnt == r.timer_interval,
        r.timer_value >= 1,
    ensures
        r.ticks(1 + (r.timer_value - 1) * r.timer_interval).timer_value == 0,
        r.ticks(1 + (r.timer_value - 1) * r.timer_interval).interrupt_flag & TIMER_FLAG != 0,
        r.ticks(1 + r.timer_value * r.timer_interval).timer_value == 0xFF,
        r.ticks(1 + r.timer_value * r.timer_interval).timer_interval == 1,
        forall|k: int, j: int|
            0 <= k < r.timer_value && 0 <= j && j < r.timer_interval ==> #[trigger] r.ticks(1 + k * r.timer_interval + j).timer_value
                == r.timer_value - 1 - k,
        forall|k: int, j: int|
            0 <= k && k + 1 < r.timer_value && 0 <= j && j < r.timer_interval ==> #[trigger] r.ticks(1 + k * r.timer_interval + j).interrupt_flag
                == r.interrupt_flag,
{
    let v = r.timer_value as int;
    let i = r.timer_interval as int;
    assert forall|k: int, j: int| 0 <= k < v && 0 <= j < i implies #[trigger] r.ticks(1 + k * r.timer_interval + j).timer_value
        == v - 1 - k by {
        lemma_timer_steps(r, k);
        lemma_ticks_add(r, 1 + k * i, j);
        lemma_ticks_steady(r.ticks(1 + k * i), j);
    }
    assert forall|k: int, j: int| 0 <= k && k + 1 < v && 0 <= j < i implies #[trigger] r.ticks(1 + k * r.timer_interval + j).interrupt_flag
        == r.interrupt_flag by {
        lemma_timer_steps(r, k);
        lemma_ticks_add(r, 1 + k * i, j);
        lemma_ticks_steady(r.ticks(1 + k * i), j);
    }
    let last = v - 1;
    lemma_timer_steps(r, last);
    let s = r.ticks(1 + last * i);
    let f = r.interrupt_flag;
    assert((f | TIMER_FLAG) & TIMER_FLAG != 0) by (bit_vector);
    assert(1 + v * i == (1 + last * i) + (i - 1) + 1) by (nonlinear_arith)
        requires v == last + 1, i >= 1;
    lemma_ticks_add(r, 1 + last * i, i - 1);
    lemma_ticks_steady(s, i - 1);
    assert(r.ticks(1 + v * i) == r.ticks((1 + last * i) + (i - 1)).ticked());
}

} // verus!
