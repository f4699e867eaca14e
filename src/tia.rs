use vstd::prelude::*;
pub use crate::audio::{AudioChannel, TiaAudioSample};
pub use crate::counter::{modular_add, modular_sub, Counter, GraphicsCounter};

verus! {

pub const NUM_SCANLINES: u16 = 262;
pub const CLOCKS_PER_SCANLINE: u16 = 228;
/// Color clocks of horizontal blank at the start of each scanline.
pub const HBLANK: u16 = 68;
/// Bytes in the frame buffer: one per color clock of each scanline.
pub const FRAME_SIZE: usize = 59736;

/// Bit `n` of `v`.
pub open spec fn bit(v: u8, n: int) -> bool {
    (v >> (n as u8)) & 1 == 1
}

/// Playfield pixel `i` (0..20) of the left half: PF0 bits 4..7, then PF1 bits
/// 7..0, then PF2 bits 0..7.
pub open spec fn playfield_bit(pf0: u8, pf1: u8, pf2: u8, i: int) -> bool {
    if i < 4 {
        bit(pf0, i + 4)
    } else if i < 12 {
        bit(pf1, 7 - (i - 4))
    } else {
        bit(pf2, i - 12)
    }
}

/// The bit of a graphics byte shown for counter value `b` (8 down to 1): the
/// most significant first, or the least significant first when reflected.
pub open spec fn player_bit(grp: u8, b: u8, refp: u8) -> bool {
    b != 0 && if refp & 8 == 0 {
        bit(grp, b - 1)
    } else {
        bit(grp, 7 - (b - 1))
    }
}

/// A player counter after HMOVE: the high nibble of the HMxx register, a
/// two's-complement value from -8 to 7, added modulo 160. A counter ahead by
/// `k` reaches its start `k` clocks earlier, so a positive motion moves the
/// player left.
pub open spec fn player_motion(pos: u16, hm: u8) -> int {
    let n = (hm >> 4u8) as int;
    if n < 8 {
        (pos + n) % 160
    } else {
        (pos - (16 - n) + 160) % 160
    }
}

/// A missile or ball position (a color clock in 68..228) after HMOVE: moved left
/// by the signed high nibble of the HMxx register, modulo the 160 visible clocks.
pub open spec fn object_motion(pos: u16, hm: u8) -> int {
    let n = (hm >> 4u8) as int;
    if n < 8 {
        68 + (pos - 68 - n + 160) % 160
    } else {
        68 + (pos - 68 + (16 - n)) % 160
    }
}

/// Where RESM0, RESM1 and RESBL put an object written at color clock `cc`:
/// `offset` clocks after the later of `cc` and the end of horizontal blank,
/// wrapping into the visible part of the line.
pub open spec fn reset_position(cc: u16, offset: u16) -> u16 {
    let p = (if cc < 68 { 68 } else { cc }) + offset;
    (if p >= 228 { p - 160 } else { p }) as u16
}

/// A collision latch with bit 7 and bit 6 set as the two coincidences say.
pub open spec fn latch(v: u8, b7: bool, b6: bool) -> u8 {
    let v1 = if b7 { v | 0x80 } else { v };
    if b6 { v1 | 0x40 } else { v1 }
}

fn latch_bits(v: u8, b7: bool, b6: bool) -> (r: u8)
    ensures
        r == latch(v, b7, b6),
{
    let v1 = if b7 { v | 0x80 } else { v };
    if b6 { v1 | 0x40 } else { v1 }
}

/// The value of a TIA read register (A0..A3): the collision latches and the
/// inputs; the pot inputs and the unused addresses read 0.
pub open spec fn read_value(t: Tia, addr: u16) -> u8 {
    let reg = addr & 0x0F;
    if reg == 0 { t.cxm0p }
    else if reg == 1 { t.cxm1p }
    else if reg == 2 { t.cxp0fb }
    else if reg == 3 { t.cxp1fb }
    else if reg == 4 { t.cxm0fb }
    else if reg == 5 { t.cxm1fb }
    else if reg == 6 { t.cxblpf }
    else if reg == 7 { t.cxppmm }
    else if reg == 0x0C { t.inpt4 }
    else if reg == 0x0D { t.inpt5 }
    else { 0 }
}

/// The TIA after a write of `value` to the register at `addr` (A0..A5).
pub open spec fn write_effect(t: Tia, addr: u16, value: u8) -> Tia {
    let reg = addr & 0x3F;
    if reg == 0x00 {
        if value & 2 != 0 { Tia { scanline: 0, draw: true, ..t } } else { t }
    } else if reg == 0x01 { Tia { vblank: value, ..t } }
    else if reg == 0x02 { Tia { wsync: true, ..t } }
    else if reg == 0x03 { Tia { color_clock: 0, ..t } }
    else if reg == 0x04 { Tia { nusiz0: value, ..t } }
    else if reg == 0x05 { Tia { nusiz1: value, ..t } }
    else if reg == 0x06 { Tia { colup0: value, ..t } }
    else if reg == 0x07 { Tia { colup1: value, ..t } }
    else if reg == 0x08 { Tia { colupf: value, ..t } }
    else if reg == 0x09 { Tia { colubk: value, ..t } }
    else if reg == 0x0A { Tia { ctrlpf: value, ..t } }
    else if reg == 0x0B { Tia { refp0: value, ..t } }
    else if reg == 0x0C { Tia { refp1: value, ..t } }
    else if reg == 0x0D { Tia { pf0: value, ..t } }
    else if reg == 0x0E { Tia { pf1: value, ..t } }
    else if reg == 0x0F { Tia { pf2: value, ..t } }
    else if reg == 0x10 { Tia { p0_cnt: Counter { value_delayed: 0, assign_cnt: 5, ..t.p0_cnt }, ..t } }
    else if reg == 0x11 { Tia { p1_cnt: Counter { value_delayed: 0, assign_cnt: 5, ..t.p1_cnt }, ..t } }
    else if reg == 0x12 { Tia { resm0: reset_position(t.color_clock, 5), ..t } }
    else if reg == 0x13 { Tia { resm1: reset_position(t.color_clock, 5), ..t } }
    else if reg == 0x14 { Tia { resbl: reset_position(t.color_clock, 3), ..t } }
    else if reg == 0x15 { Tia { chan0: AudioChannel { audc: value & 0x0F, ..t.chan0 }, ..t } }
    else if reg == 0x16 { Tia { chan1: AudioChannel { audc: value & 0x0F, ..t.chan1 }, ..t } }
    else if reg == 0x17 { Tia { chan0: AudioChannel { audf: value & 0x1F, ..t.chan0 }, ..t } }
    else if reg == 0x18 { Tia { chan1: AudioChannel { audf: value & 0x1F, ..t.chan1 }, ..t } }
    else if reg == 0x19 { Tia { chan0: AudioChannel { audv: value & 0x0F, ..t.chan0 }, ..t } }
    else if reg == 0x1A { Tia { chan1: AudioChannel { audv: value & 0x0F, ..t.chan1 }, ..t } }
    else if reg == 0x1B { Tia { grp0: value, grp1a: t.grp1, ..t } }
    else if reg == 0x1C { Tia { grp1: value, grp0a: t.grp0, enabla: t.enabl, ..t } }
    else if reg == 0x1D { Tia { enam0: value & 2, ..t } }
    else if reg == 0x1E { Tia { enam1: value & 2, ..t } }
    else if reg == 0x1F { Tia { enabl: value & 2, ..t } }
    else if reg == 0x20 { Tia { hmp0: value, ..t } }
    else if reg == 0x21 { Tia { hmp1: value, ..t } }
    else if reg == 0x22 { Tia { hmm0: value, ..t } }
    else if reg == 0x23 { Tia { hmm1: value, ..t } }
    else if reg == 0x24 { Tia { hmbl: value, ..t } }
    else if reg == 0x25 { Tia { vdelp0: value & 1, ..t } }
    else if reg == 0x26 { Tia { vdelp1: value & 1, ..t } }
    else if reg == 0x27 { Tia { vdelbl: value & 1, ..t } }
    else if reg == 0x28 { Tia { resmp0: value & 2, ..t } }
    else if reg == 0x29 { Tia { resmp1: value & 2, ..t } }
    else if reg == 0x2A {
        let p0 = player_motion(t.p0_cnt.value, t.hmp0) as u16;
        let p1 = player_motion(t.p1_cnt.value, t.hmp1) as u16;
        Tia {
            resbl: object_motion(t.resbl, t.hmbl) as u16,
            resm0: object_motion(t.resm0, t.hmm0) as u16,
            resm1: object_motion(t.resm1, t.hmm1) as u16,
            p0_cnt: Counter { value: p0, value_delayed: p0, ..t.p0_cnt },
            p1_cnt: Counter { value: p1, value_delayed: p1, ..t.p1_cnt },
            ..t
        }
    }
    else if reg == 0x2B { Tia { hmbl: 0, hmm0: 0, hmm1: 0, hmp0: 0, hmp1: 0, ..t } }
    else if reg == 0x2C {
        Tia { cxppmm: 0, cxblpf: 0, cxm1fb: 0, cxm0fb: 0, cxp1fb: 0, cxp0fb: 0, cxm1p: 0, cxm0p: 0, ..t }
    }
    else { t }
}

/// The 4-bit field that sizes the copies of a player.
pub open spec fn player_clock_div(nusiz: u8) -> u8 {
    if nusiz & 7 == 7 {
        4
    } else if nusiz & 7 == 5 {
        2
    } else {
        1
    }
}

/// Whether a player's graphics restart on this tick: at the counter's wrap,
/// and at the 16, 32 or 64 clock copies that NUSIZ asks for.
pub open spec fn copy_start(c: Counter, nusiz: u8) -> (bool, Counter) {
    let (m160, c1) = c.cmp_delayed_spec(160, 1);
    if m160 {
        (true, c1)
    } else {
        let (m16, c2) = c1.cmp_delayed_spec(16, 1);
        if m16 && nusiz & 5 == 1 {
            (true, c2)
        } else {
            let (m32, c3) = c2.cmp_delayed_spec(32, 1);
            if m32 && nusiz & 6 == 2 {
                (true, c3)
            } else {
                let (m64, c4) = c3.cmp_delayed_spec(64, 1);
                (m64 && nusiz & 5 == 4, c4)
            }
        }
    }
}

/// One visible pixel of a player: its position counter and graphics counter
/// afterwards, and the graphics bit number shown (0 for none).
pub open spec fn player_step(c: Counter, g: GraphicsCounter, nusiz: u8) -> (Counter, GraphicsCounter, u8) {
    let c0 = c.ticked();
    let (start, c1) = copy_start(c0, nusiz);
    let c2 = if c1.value == 160 { Counter { value: 0, value_delayed: 0, ..c1 } } else { c1 };
    let g1 = if start { GraphicsCounter { value: 8, cnt: 0 } } else { g };
    let (b, g2) = g1.ticked(player_clock_div(nusiz));
    (c2, g2, b)
}

/// The Television Interface Adapter: video and audio.
pub struct Tia {
    pub frame: Vec<u8>,
    pub chan0: AudioChannel,
    pub chan1: AudioChannel,
    pub draw: bool,
    pub scanline: u16,
    pub ctr: u16,
    pub color_clock: u16,
    pub audio_div3_ctr: u8,
    pub vblank: u8,
    pub wsync: bool,
    pub resmp0: u8,
    pub resmp1: u8,
    pub vdelbl: u8,
    pub vdelp1: u8,
    pub vdelp0: u8,
    pub hmbl: u8,
    pub hmm1: u8,
    pub hmm0: u8,
    pub hmp1: u8,
    pub hmp0: u8,
    pub enabl: u8,
    pub enabla: u8,
    pub enam1: u8,
    pub enam0: u8,
    pub resbl: u16,
    pub resm1: u16,
    pub resm0: u16,
    pub grp0: u8,
    pub grp0a: u8,
    pub grp1: u8,
    pub grp1a: u8,
    pub pf0: u8,
    pub pf1: u8,
    pub pf2: u8,
    pub refp1: u8,
    pub refp0: u8,
    pub ctrlpf: u8,
    pub colubk: u8,
    pub colupf: u8,
    pub colup1: u8,
    pub colup0: u8,
    pub nusiz1: u8,
    pub nusiz0: u8,
    pub inpt5: u8,
    pub inpt4: u8,
    pub cxppmm: u8,
    pub cxblpf: u8,
    pub cxm1fb: u8,
    pub cxm0fb: u8,
    pub cxp1fb: u8,
    pub cxp0fb: u8,
    pub cxm1p: u8,
    pub cxm0p: u8,
    pub p0_cnt: Counter,
    pub p0_pixel: GraphicsCounter,
    pub p1_cnt: Counter,
    pub p1_pixel: GraphicsCounter,
}

impl Tia {
    pub open spec fn wf(self) -> bool {
        &&& self.frame@.len() == FRAME_SIZE
        &&& self.scanline <= NUM_SCANLINES
        &&& self.color_clock <= CLOCKS_PER_SCANLINE
        &&& self.audio_div3_ctr < 3
        &&& self.chan0.wf() && self.chan1.wf()
        &&& 68 <= self.resbl < 228 && 68 <= self.resm0 < 228 && 68 <= self.resm1 < 228
        &&& self.p0_cnt.value < 160 && self.p0_cnt.value_delayed < 160
        &&& self.p1_cnt.value < 160 && self.p1_cnt.value_delayed < 160
        &&& self.p0_pixel.cnt < 4 && self.p1_pixel.cnt < 4
        &&& self.p0_pixel.value <= 8 && self.p1_pixel.value <= 8
    }

    /// Whether the playfield is on at visible pixel `x` (0..160): the right half
    /// repeats the left, or mirrors it when CTRLPF bit 0 is set.
    pub open spec fn playfield_at(self, x: int) -> bool {
        let i = x / 4;
        if i < 20 {
            playfield_bit(self.pf0, self.pf1, self.pf2, i)
        } else if self.ctrlpf & 1 != 0 {
            playfield_bit(self.pf0, self.pf1, self.pf2, 39 - i)
        } else {
            playfield_bit(self.pf0, self.pf1, self.pf2, i - 20)
        }
    }

    /// Whether the ball is on at color clock `cc`: 1, 2, 4 or 8 clocks wide from
    /// its position, as CTRLPF bits 4-5 say.
    pub open spec fn ball_at(self, cc: u16) -> bool {
        let enabled = if self.vdelbl == 0 { self.enabl != 0 } else { self.enabla != 0 };
        enabled && self.resbl <= cc < self.resbl + (1u16 << ((self.ctrlpf >> 4u8) & 3u8) as u16)
    }

    pub open spec fn missile0_at(self, cc: u16) -> bool {
        self.enam0 != 0 && self.resmp0 == 0 && self.resm0 <= cc < self.resm0 + (1u16 << ((self.nusiz0 >> 4u8) & 3u8) as u16)
    }

    pub open spec fn missile1_at(self, cc: u16) -> bool {
        self.enam1 != 0 && self.resmp1 == 0 && self.resm1 <= cc < self.resm1 + (1u16 << ((self.nusiz1 >> 4u8) & 3u8) as u16)
    }

    /// The color of a visible pixel from the objects on it. From low to high
    /// priority: background, playfield, ball, missile 1, missile 0, player 1,
    /// player 0; with CTRLPF bit 2 the playfield comes above the players. In
    /// score mode (CTRLPF bit 1) the playfield takes the players' colors.
    pub open spec fn pixel_color(self, x: int, pf: bool, bl: bool, m0: bool, m1: bool, p0: bool, p1: bool) -> u8 {
        let pfc = if self.ctrlpf & 2 != 0 {
            if x < 80 { self.colup0 } else { self.colup1 }
        } else {
            self.colupf
        };
        if self.ctrlpf & 4 != 0 && pf {
            pfc
        } else if p0 {
            self.colup0
        } else if p1 {
            self.colup1
        } else if m0 {
            self.colup0
        } else if m1 {
            self.colup1
        } else if bl {
            self.colupf
        } else if pf {
            pfc
        } else {
            self.colubk
        }
    }

    pub fn new() -> (r: Self)
        ensures
            r.wf(),
            r == (Tia {
                frame: r.frame,
                chan0: r.chan0,
                chan1: r.chan1,
                draw: false,
                scanline: 0,
                ctr: 0,
                color_clock: 0,
                audio_div3_ctr: 0,
                vblank: 0,
                wsync: false,
                resmp0: 0,
                resmp1: 0,
                vdelbl: 0,
                vdelp1: 0,
                vdelp0: 0,
                hmbl: 0,
                hmm1: 0,
                hmm0: 0,
                hmp1: 0,
                hmp0: 0,
                enabl: 0,
                enabla: 0,
                enam1: 0,
                enam0: 0,
                resbl: 68,
                resm1: 68,
                resm0: 68,
                grp0: 0,
                grp0a: 0,
                grp1: 0,
                grp1a: 0,
                pf0: 0,
                pf1: 0,
                pf2: 0,
                refp1: 0,
                refp0: 0,
                ctrlpf: 0,
                colubk: 0,
                colupf: 0,
                colup1: 0,
                colup0: 0,
                nusiz1: 0,
                nusiz0: 0,
                inpt5: 0x80,
                inpt4: 0x80,
                cxppmm: 0,
                cxblpf: 0,
                cxm1fb: 0,
                cxm0fb: 0,
                cxp1fb: 0,
                cxp0fb: 0,
                cxm1p: 0,
                cxm0p: 0,
                p0_cnt: Counter { value: 0, value_delayed: 0, assign_cnt: 0, cmp_cnt: 0, matched: 0 },
                p0_pixel: GraphicsCounter { value: 0, cnt: 0 },
                p1_cnt: Counter { value: 0, value_delayed: 0, assign_cnt: 0, cmp_cnt: 0, matched: 0 },
                p1_pixel: GraphicsCounter { value: 0, cnt: 0 },
            }),
            r.chan0.is_power_on() && r.chan1.is_power_on(),
            forall|i: int| 0 <= i < FRAME_SIZE ==> r.frame@[i] == 0,
    {
        Tia {
            frame: vec![0u8; FRAME_SIZE],
            chan0: AudioChannel::new(),
            chan1: AudioChannel::new(),
            draw: false,
            scanline: 0,
            ctr: 0,
            color_clock: 0,
            audio_div3_ctr: 0,
            vblank: 0,
            wsync: false,
            resmp0: 0,
            resmp1: 0,
            vdelbl: 0,
            vdelp1: 0,
            vdelp0: 0,
            hmbl: 0,
            hmm1: 0,
            hmm0: 0,
            hmp1: 0,
            hmp0: 0,
            enabl: 0,
            enabla: 0,
            enam1: 0,
            enam0: 0,
            resbl: 68,
            resm1: 68,
            resm0: 68,
            grp0: 0,
            grp0a: 0,
            grp1: 0,
            grp1a: 0,
            pf0: 0,
            pf1: 0,
            pf2: 0,
            refp1: 0,
            refp0: 0,
            ctrlpf: 0,
            colubk: 0,
            colupf: 0,
            colup1: 0,
            colup0: 0,
            nusiz1: 0,
            nusiz0: 0,
            inpt5: 0x80,
            inpt4: 0x80,
            cxppmm: 0,
            cxblpf: 0,
            cxm1fb: 0,
            cxm0fb: 0,
            cxp1fb: 0,
            cxp0fb: 0,
            cxm1p: 0,
            cxm0p: 0,
            p0_cnt: Counter::new(0),
            p0_pixel: GraphicsCounter::new(),
            p1_cnt: Counter::new(0),
            p1_pixel: GraphicsCounter::new(),
        }
    }

    /// True while the CPU is to be held until the end of the scanline.
    pub fn wsync(&self) -> (r: bool)
        ensures
            r == self.wsync,
    {
        self.wsync
    }

    /// The frame-ready latch.
    pub fn draw(&self) -> (r: bool)
        ensures
            r == self.draw,
    {
        self.draw
    }

    /// Sets the level of trigger input 4 (bit 7 high when released).
    pub fn input4(&mut self, value: u8)
        ensures
            *final(self) == (Tia { inpt4: value, ..*old(self) }),
    {
        self.inpt4 = value;
    }

    /// Sets the level of trigger input 5 (bit 7 high when released).
    pub fn input5(&mut self, value: u8)
        ensures
            *final(self) == (Tia { inpt5: value, ..*old(self) }),
    {
        self.inpt5 = value;
    }

    /// Clears the frame-ready latch once the host has taken the frame.
    pub fn drew(&mut self)
        ensures
            *final(self) == (Tia { draw: false, ..*old(self) }),
    {
        self.draw = false;
    }

    fn playfield_pixel(&self, index: u16, reflect: bool) -> (r: bool)
        requires
            index < 20,
        ensures
            r == playfield_bit(self.pf0, self.pf1, self.pf2, if reflect { 19 - index } else { index as int }),
    {
        let i: u16 = if reflect { 19 - index } else { index };
        if i < 4 {
            (self.pf0 >> ((i + 4) as u8)) & 1 == 1
        } else if i < 12 {
            (self.pf1 >> ((7 - (i - 4)) as u8)) & 1 == 1
        } else {
            (self.pf2 >> ((i - 12) as u8)) & 1 == 1
        }
    }

    fn player_graphic(&self, player0: bool) -> (r: u8)
        ensures
            r == (if player0 {
                if self.vdelp0 != 0 { self.grp0a } else { self.grp0 }
            } else {
                if self.vdelp1 != 0 { self.grp1a } else { self.grp1 }
            }),
    {
        if player0 {
            if self.vdelp0 != 0 { self.grp0a } else { self.grp0 }
        } else {
            if self.vdelp1 != 0 { self.grp1a } else { self.grp1 }
        }
    }

    fn player_pixel2(grp: u8, pixel: u8, refp: u8) -> (r: bool)
        requires
            pixel < 8,
        ensures
            r == player_bit(grp, (pixel + 1) as u8, refp),
    {
        if refp & 8 == 0 {
            (grp >> pixel) & 1 == 1
        } else {
            (grp >> (7 - pixel)) & 1 == 1
        }
    }

    fn player_pixel_clock_div(nusiz: u8) -> (r: u8)
        ensures
            r == player_clock_div(nusiz),
    {
        if nusiz & 7 == 7 {
            4
        } else if nusiz & 7 == 5 {
            2
        } else {
            1
        }
    }

    /// Clocks a player's counters through one visible pixel.
    fn player_step(c: &mut Counter, g: &mut GraphicsCounter, nusiz: u8) -> (b: u8)
        requires
            old(c).value < 160,
            old(c).value_delayed < 160,
            old(g).cnt < 4,
            old(g).value <= 8,
        ensures
            (*final(c), *final(g), b) == player_step(*old(c), *old(g), nusiz),
            final(c).value < 160,
            final(c).value_delayed < 160,
            final(g).cnt < 4,
            final(g).value <= 8,
            b <= 8,
    {
        c.cycle();
        let start = if c.cmp_delayed(160, 1) {
            true
        } else if c.cmp_delayed(16, 1) && nusiz & 5 == 1 {
            true
        } else if c.cmp_delayed(32, 1) && nusiz & 6 == 2 {
            true
        } else {
            c.cmp_delayed(64, 1) && nusiz & 5 == 4
        };
        if c.cmp(160) {
            c.set(0);
        }
        if start {
            g.reset();
        }
        g.cycle(Self::player_pixel_clock_div(nusiz))
    }

    /// A read of a TIA register; the chip decodes A0..A3.
    pub fn read(&self, addr: u16) -> (r: u8)
        ensures
            r == read_value(*self, addr),
    {
        let reg = addr & 0x0F;
        if reg == 0 { self.cxm0p }
        else if reg == 1 { self.cxm1p }
        else if reg == 2 { self.cxp0fb }
        else if reg == 3 { self.cxp1fb }
        else if reg == 4 { self.cxm0fb }
        else if reg == 5 { self.cxm1fb }
        else if reg == 6 { self.cxblpf }
        else if reg == 7 { self.cxppmm }
        else if reg == 0x0C { self.inpt4 }
        else if reg == 0x0D { self.inpt5 }
        else { 0 }
    }

    /// HMOVE for a missile or the ball.
    fn hmove(resp: u16, hm: u8) -> (r: u16)
        requires
            68 <= resp < 228,
        ensures
            r as int == object_motion(resp, hm),
            68 <= r < 228,
    {
        assert(hm >> 4u8 <= 15) by (bit_vector);
        let n: u16 = (hm >> 4u8) as u16;
        if n < 8 {
            modular_sub(resp - 68, n, 160) + 68
        } else {
            modular_add(resp - 68, 16 - n, 160) + 68
        }
    }

    /// HMOVE for a player's position counter.
    fn hmove2(resp: u16, hm: u8) -> (r: u16)
        requires
            resp < 160,
        ensures
            r as int == player_motion(resp, hm),
            r < 160,
    {
        assert(hm >> 4u8 <= 15) by (bit_vector);
        let n: u16 = (hm >> 4u8) as u16;
        if n < 8 {
            modular_add(resp, n, 160)
        } else {
            modular_sub(resp, 16 - n, 160)
        }
    }

    fn reset_pos(cc: u16, offset: u16) -> (r: u16)
        requires
            cc <= 228,
            offset <= 8,
        ensures
            r == reset_position(cc, offset),
            68 <= r < 228,
    {
        let p: u16 = (if cc < 68 { 68 } else { cc }) + offset;
        if p >= 228 { p - 160 } else { p }
    }

    /// A write of a TIA register; the chip decodes A0..A5. Besides setting
    /// registers: WSYNC holds the CPU, VSYNC with bit 1 starts a frame and
    /// raises `draw`, RSYNC restarts the line, RESxx place objects, GRP0 and
    /// GRP1 latch the delayed graphics, HMOVE applies the motions, HMCLR and
    /// CXCLR clear motions and collisions.
    pub fn write(&mut self, addr: u16, value: u8)
        requires
            old(self).wf(),
        ensures
            final(self).wf(),
            *final(self) == write_effect(*old(self), addr, value),
    {
        assert(value & 0x0F < 16 && value & 0x1F < 32) by (bit_vector);
        let reg = addr & 0x3F;
        if reg == 0x00 {
            if value & 2 != 0 {
                self.scanline = 0;
                self.draw = true;
            }
        } else if reg == 0x01 { self.vblank = value; }
        else if reg == 0x02 { self.wsync = true; }
        else if reg == 0x03 { self.color_clock = 0; }
        else if reg == 0x04 { self.nusiz0 = value; }
        else if reg == 0x05 { self.nusiz1 = value; }
        else if reg == 0x06 { self.colup0 = value; }
        else if reg == 0x07 { self.colup1 = value; }
        else if reg == 0x08 { self.colupf = value; }
        else if reg == 0x09 { self.colubk = value; }
        else if reg == 0x0A { self.ctrlpf = value; }
        else if reg == 0x0B { self.refp0 = value; }
        else if reg == 0x0C { self.refp1 = value; }
        else if reg == 0x0D { self.pf0 = value; }
        else if reg == 0x0E { self.pf1 = value; }
        else if reg == 0x0F { self.pf2 = value; }
        else if reg == 0x10 { self.p0_cnt.set_delayed(0, 4); }
        else if reg == 0x11 { self.p1_cnt.set_delayed(0, 4); }
        else if reg == 0x12 { self.resm0 = Self::reset_pos(self.color_clock, 5); }
        else if reg == 0x13 { self.resm1 = Self::reset_pos(self.color_clock, 5); }
        else if reg == 0x14 { self.resbl = Self::reset_pos(self.color_clock, 3); }
        else if reg == 0x15 { self.chan0.audc = value & 0x0F; }
        else if reg == 0x16 { self.chan1.audc = value & 0x0F; }
        else if reg == 0x17 { self.chan0.audf = value & 0x1F; }
        else if reg == 0x18 { self.chan1.audf = value & 0x1F; }
        else if reg == 0x19 { self.chan0.audv = value & 0x0F; }
        else if reg == 0x1A { self.chan1.audv = value & 0x0F; }
        else if reg == 0x1B {
            self.grp0 = value;
            self.grp1a = self.grp1;
        } else if reg == 0x1C {
            self.grp1 = value;
            self.grp0a = self.grp0;
            self.enabla = self.enabl;
        } else if reg == 0x1D { self.enam0 = value & 2; }
        else if reg == 0x1E { self.enam1 = value & 2; }
        else if reg == 0x1F { self.enabl = value & 2; }
        else if reg == 0x20 { self.hmp0 = value; }
        else if reg == 0x21 { self.hmp1 = value; }
        else if reg == 0x22 { self.hmm0 = value; }
        else if reg == 0x23 { self.hmm1 = value; }
        else if reg == 0x24 { self.hmbl = value; }
        else if reg == 0x25 { self.vdelp0 = value & 1; }
        else if reg == 0x26 { self.vdelp1 = value & 1; }
        else if reg == 0x27 { self.vdelbl = value & 1; }
        else if reg == 0x28 { self.resmp0 = value & 2; }
        else if reg == 0x29 { self.resmp1 = value & 2; }
        else if reg == 0x2A {
            self.resbl = Self::hmove(self.resbl, self.hmbl);
            self.resm0 = Self::hmove(self.resm0, self.hmm0);
            self.resm1 = Self::hmove(self.resm1, self.hmm1);
            let p0 = Self::hmove2(self.p0_cnt.value(), self.hmp0);
            self.p0_cnt.set(p0);
            let p1 = Self::hmove2(self.p1_cnt.value(), self.hmp1);
            self.p1_cnt.set(p1);
        } else if reg == 0x2B {
            self.hmbl = 0;
            self.hmm0 = 0;
            self.hmm1 = 0;
            self.hmp0 = 0;
            self.hmp1 = 0;
        } else if reg == 0x2C {
            self.cxppmm = 0;
            self.cxblpf = 0;
            self.cxm1fb = 0;
            self.cxm0fb = 0;
            self.cxp1fb = 0;
            self.cxp0fb = 0;
            self.cxm1p = 0;
            self.cxm0p = 0;
        }
    }

    /// What a tick of the audio clock stamped `ctr` does to the channels.
    pub open spec fn audio_ticked(s: Tia, t: Tia, ctr: u16) -> bool {
        &&& t.audio_div3_ctr == (s.audio_div3_ctr + 1) % 3
        &&& (s.chan0.audc & 12 != 12 || s.audio_div3_ctr == 0) ==> AudioChannel::clocked(s.chan0, t.chan0, ctr)
        &&& (s.chan0.audc & 12 == 12 && s.audio_div3_ctr != 0) ==> t.chan0 == s.chan0
        &&& (s.chan1.audc & 12 != 12 || s.audio_div3_ctr == 0) ==> AudioChannel::clocked(s.chan1, t.chan1, ctr)
        &&& (s.chan1.audc & 12 == 12 && s.audio_div3_ctr != 0) ==> t.chan1 == s.chan1
    }

    /// One step of channel `chan`'s generator.
    pub fn audio_cycle(&mut self, chan: usize) -> (r: u8)
        requires
            old(self).wf(),
            chan < 2,
        ensures
            final(self).wf(),
            chan == 0 ==> AudioChannel::stepped(old(self).chan0, final(self).chan0, r)
                && *final(self) == (Tia { chan0: final(self).chan0, ..*old(self) }),
            chan == 1 ==> AudioChannel::stepped(old(self).chan1, final(self).chan1, r)
                && *final(self) == (Tia { chan1: final(self).chan1, ..*old(self) }),
    {
        if chan == 0 {
            self.chan0.step()
        } else {
            self.chan1.step()
        }
    }

    /// One tick of the audio clock. Each channel's prescaler counts it, except
    /// that the tone controls with both bits 2 and 3 set count only every third
    /// tick.
    pub fn audio_clockgen(&mut self)
        requires
            old(self).wf(),
        ensures
            final(self).wf(),
            *final(self) == (Tia {
                chan0: final(self).chan0,
                chan1: final(self).chan1,
                audio_div3_ctr: final(self).audio_div3_ctr,
                ..*old(self)
            }),
            Self::audio_ticked(*old(self), *final(self), old(self).ctr),
    {
        let ctr = self.ctr;
        if self.chan0.audc & 12 != 12 || self.audio_div3_ctr == 0 {
            self.chan0.clock(ctr);
        }
        if self.chan1.audc & 12 != 12 || self.audio_div3_ctr == 0 {
            self.chan1.clock(ctr);
        }
        self.audio_div3_ctr = if self.audio_div3_ctr == 2 { 0 } else { self.audio_div3_ctr + 1 };
    }

    /// The color of the visible pixel at color clock `cc`.
    pub open spec fn visible_color(self, cc: u16) -> u8 {
        let x = cc - 68;
        let b0 = player_step(self.p0_cnt, self.p0_pixel, self.nusiz0).2;
        let b1 = player_step(self.p1_cnt, self.p1_pixel, self.nusiz1).2;
        let p0 = player_bit(if self.vdelp0 != 0 { self.grp0a } else { self.grp0 }, b0, self.refp0);
        let p1 = player_bit(if self.vdelp1 != 0 { self.grp1a } else { self.grp1 }, b1, self.refp1);
        self.pixel_color(x, self.playfield_at(x), self.ball_at(cc), self.missile0_at(cc), self.missile1_at(cc), p0, p1)
    }

    /// The state after the objects of the visible pixel at color clock `cc`:
    /// player counters clocked and collisions latched (the frame apart). While
    /// RESMPn is set, missile n follows the middle of player n: it takes the
    /// clock at which the player's fifth graphics bit is shown.
    pub open spec fn after_pixel(self, cc: u16) -> Tia {
        let x = cc - 68;
        let (c0, g0, b0) = player_step(self.p0_cnt, self.p0_pixel, self.nusiz0);
        let (c1, g1, b1) = player_step(self.p1_cnt, self.p1_pixel, self.nusiz1);
        let p0 = player_bit(if self.vdelp0 != 0 { self.grp0a } else { self.grp0 }, b0, self.refp0);
        let p1 = player_bit(if self.vdelp1 != 0 { self.grp1a } else { self.grp1 }, b1, self.refp1);
        let pf = self.playfield_at(x);
        let bl = self.ball_at(cc);
        let m0 = self.missile0_at(cc);
        let m1 = self.missile1_at(cc);
        Tia {
            p0_cnt: c0,
            p0_pixel: g0,
            p1_cnt: c1,
            p1_pixel: g1,
            resm0: if self.resmp0 != 0 && b0 == 4 { cc } else { self.resm0 },
            resm1: if self.resmp1 != 0 && b1 == 4 { cc } else { self.resm1 },
            cxppmm: latch(self.cxppmm, p0 && p1, m0 && m1),
            cxblpf: latch(self.cxblpf, bl && pf, false),
            cxm1fb: latch(self.cxm1fb, m1 && pf, m1 && bl),
            cxm0fb: latch(self.cxm0fb, m0 && pf, m0 && bl),
            cxp1fb: latch(self.cxp1fb, p1 && pf, p1 && bl),
            cxp0fb: latch(self.cxp0fb, p0 && pf, p0 && bl),
            cxm1p: latch(self.cxm1p, m1 && p0, m1 && p1),
            cxm0p: latch(self.cxm0p, m0 && p1, m0 && p0),
            ..self
        }
    }


    fn ball_pixel(&self, cc: u16) -> (r: bool)
        requires
            self.wf(),
        ensures
            r == self.ball_at(cc),
    {
        let ctrlpf = self.ctrlpf;
        let size = ctrlpf >> 4u8 & 3u8;
        assert(ctrlpf >> 4u8 & 3u8 <= 3) by (bit_vector);
        let width: u16 = 1u16 << size as u16;
        assert(width <= 8) by (bit_vector)
            requires width == 1u16 << ((ctrlpf >> 4u8 & 3u8) as u16);
        let enabled = if self.vdelbl == 0 { self.enabl != 0 } else { self.enabla != 0 };
        enabled && cc >= self.resbl && cc < self.resbl + width
    }

    fn missile_pixel(cc: u16, enam: u8, resmp: u8, resm: u16, nusiz: u8) -> (r: bool)
        requires
            resm < 228,
        ensures
            r == (enam != 0 && resmp == 0 && resm <= cc < resm + (1u16 << ((nusiz >> 4u8) & 3u8) as u16)),
    {
        let size = nusiz >> 4u8 & 3u8;
        assert(nusiz >> 4u8 & 3u8 <= 3) by (bit_vector);
        let width: u16 = 1u16 << size as u16;
        assert(width <= 8) by (bit_vector)
            requires width == 1u16 << ((nusiz >> 4u8 & 3u8) as u16);
        enam != 0 && resmp == 0 && cc >= resm && cc < resm + width
    }

    fn compose(&self, x: u16, pf: bool, bl: bool, m0: bool, m1: bool, p0: bool, p1: bool) -> (r: u8)
        ensures
            r == self.pixel_color(x as int, pf, bl, m0, m1, p0, p1),
    {
        let pfc = if self.ctrlpf & 2 != 0 {
            if x < 80 { self.colup0 } else { self.colup1 }
        } else {
            self.colupf
        };
        if self.ctrlpf & 4 != 0 && pf {
            pfc
        } else if p0 {
            self.colup0
        } else if p1 {
            self.colup1
        } else if m0 {
            self.colup0
        } else if m1 {
            self.colup1
        } else if bl {
            self.colupf
        } else if pf {
            pfc
        } else {
            self.colubk
        }
    }

    /// Draws the visible pixel at color clock `cc` into the frame at `index`.
    fn draw_pixel(&mut self, index: usize, cc: u16)
        requires
            old(self).wf(),
            index < FRAME_SIZE,
            68 <= cc < 228,
        ensures
            final(self).wf(),
            final(self).frame@ == old(self).frame@.update(index as int, old(self).visible_color(cc)),
            *final(self) == (Tia { frame: final(self).frame, ..old(self).after_pixel(cc) }),
    {
        let x = cc - HBLANK;
        let pf_index = x / 4;
        let pf = if pf_index < 20 {
            self.playfield_pixel(pf_index, false)
        } else {
            self.playfield_pixel(pf_index - 20, self.ctrlpf & 1 != 0)
        };
        let bl = self.ball_pixel(cc);
        let m0 = Self::missile_pixel(cc, self.enam0, self.resmp0, self.resm0, self.nusiz0);
        let m1 = Self::missile_pixel(cc, self.enam1, self.resmp1, self.resm1, self.nusiz1);
        let nusiz0 = self.nusiz0;
        let b0 = Self::player_step(&mut self.p0_cnt, &mut self.p0_pixel, nusiz0);
        let g0 = self.player_graphic(true);
        let p0 = b0 != 0 && Self::player_pixel2(g0, b0 - 1, self.refp0);
        let nusiz1 = self.nusiz1;
        let b1 = Self::player_step(&mut self.p1_cnt, &mut self.p1_pixel, nusiz1);
        let g1 = self.player_graphic(false);
        let p1 = b1 != 0 && Self::player_pixel2(g1, b1 - 1, self.refp1);
        let color = self.compose(x, pf, bl, m0, m1, p0, p1);
        self.frame.set(index, color);
        self.cxppmm = latch_bits(self.cxppmm, p0 && p1, m0 && m1);
        self.cxblpf = latch_bits(self.cxblpf, bl && pf, false);
        self.cxm1fb = latch_bits(self.cxm1fb, m1 && pf, m1 && bl);
        self.cxm0fb = latch_bits(self.cxm0fb, m0 && pf, m0 && bl);
        self.cxp1fb = latch_bits(self.cxp1fb, p1 && pf, p1 && bl);
        self.cxp0fb = latch_bits(self.cxp0fb, p0 && pf, p0 && bl);
        self.cxm1p = latch_bits(self.cxm1p, m1 && p0, m1 && p1);
        self.cxm0p = latch_bits(self.cxm0p, m0 && p1, m0 && p0);
        if self.resmp0 != 0 && b0 == 4 {
            self.resm0 = cc;
        }
        if self.resmp1 != 0 && b1 == 4 {
            self.resm1 = cc;
        }
    }

    /// The start of a color clock: the cycle counter, the wrap at the end of
    /// the line, and the audio clock at color clocks 0 and 114.
    fn start_clock(&mut self)
        requires
            old(self).wf(),
        ensures
            final(self).wf(),
            ({
                let o = *old(self);
                let wrap = o.color_clock == CLOCKS_PER_SCANLINE;
                let cc = if wrap { 0 } else { o.color_clock };
                let sl = if wrap && o.scanline < NUM_SCANLINES { (o.scanline + 1) as u16 } else { o.scanline };
                &&& *final(self) == (Tia {
                    ctr: o.ctr.wrapping_add(1),
                    color_clock: cc,
                    scanline: sl,
                    wsync: o.wsync && !wrap,
                    chan0: final(self).chan0,
                    chan1: final(self).chan1,
                    audio_div3_ctr: final(self).audio_div3_ctr,
                    ..o
                })
                &&& (cc == 0 || cc == 114) ==> Self::audio_ticked(o, *final(self), o.ctr.wrapping_add(1))
                &&& (cc != 0 && cc != 114) ==> final(self).chan0 == o.chan0 && final(self).chan1 == o.chan1
                    && final(self).audio_div3_ctr == o.audio_div3_ctr
            }),
    {
        self.ctr = self.ctr.wrapping_add(1);
        if self.color_clock == CLOCKS_PER_SCANLINE {
            self.color_clock = 0;
            if self.scanline < NUM_SCANLINES {
                self.scanline = self.scanline + 1;
            }
            self.wsync = false;
        }
        if self.color_clock == 0 || self.color_clock == 114 {
            self.audio_clockgen();
        }
    }

    /// One color clock from `s` to `f`, as `cycle` does it.
    pub open spec fn cycled(s: Tia, f: Tia) -> bool {
        let o = s;
        let wrap = o.color_clock == CLOCKS_PER_SCANLINE;
        let cc = if wrap { 0 } else { o.color_clock };
        let sl = if wrap && o.scanline < NUM_SCANLINES { (o.scanline + 1) as u16 } else { o.scanline };
        let index = sl * 228 + cc;
        let visible = index < FRAME_SIZE && o.vblank & 2 == 0 && cc >= 68;
        &&& f == (Tia {
            ctr: o.ctr.wrapping_add(1),
            color_clock: (cc + 1) as u16,
            scanline: sl,
            wsync: o.wsync && o.color_clock < 227,
            frame: f.frame,
            chan0: f.chan0,
            chan1: f.chan1,
            audio_div3_ctr: f.audio_div3_ctr,
            ..(if visible { o.after_pixel(cc) } else { o })
        })
        &&& index >= FRAME_SIZE ==> f.frame@ == o.frame@
        &&& index < FRAME_SIZE ==> f.frame@ == o.frame@.update(
            index,
            if visible { o.visible_color(cc) } else { 0 },
        )
        &&& (cc == 0 || cc == 114) ==> Self::audio_ticked(o, f, o.ctr.wrapping_add(1))
        &&& (cc != 0 && cc != 114) ==> f.chan0 == o.chan0 && f.chan1 == o.chan1
            && f.audio_div3_ctr == o.audio_div3_ctr
    }

    /// One color clock. At the end of a line the clock wraps, the scanline
    /// advances (stopping past the frame) and WSYNC is released; at clocks 0
    /// and 114 the audio clock ticks. The frame gets 0 where the beam is
    /// blanked (horizontal blank or VBLANK bit 1), else the composed color.
    pub fn cycle(&mut self)
        requires
            old(self).wf(),
        ensures
            final(self).wf(),
            Self::cycled(*old(self), *final(self)),
    {
        self.start_clock();
        let index: usize = self.scanline as usize * CLOCKS_PER_SCANLINE as usize + self.color_clock as usize;
        if index >= FRAME_SIZE {
            self.color_clock = self.color_clock + 1;
            if self.color_clock == CLOCKS_PER_SCANLINE {
                self.wsync = false;
            }
            return;
        }
        if self.vblank & 2 != 0 || self.color_clock < HBLANK {
            self.frame.set(index, 0);
            self.color_clock = self.color_clock + 1;
            if self.color_clock == CLOCKS_PER_SCANLINE {
                self.wsync = false;
            }
            return;
        }
        let cc = self.color_clock;
        self.draw_pixel(index, cc);
        self.color_clock = self.color_clock + 1;
        if self.color_clock == CLOCKS_PER_SCANLINE {
            self.wsync = false;
        }
    }
}

} // verus!

verus! {

/// HMOVE after HMP0 = 0x70 puts player 0's counter 7 ahead (modulo 160), so
/// the player shows 7 clocks further left; after HMP0 = 0x80 the counter is 8
/// behind, so the player shows 8 clocks further right.
pub proof fn lemma_hmove_player0(t: Tia)
    requires
        t.wf(),
    ensures
        write_effect(write_effect(t, 0x20, 0x70), 0x2A, 0).p0_cnt.value as int == (t.p0_cnt.value + 7) % 160,
        write_effect(write_effect(t, 0x20, 0x80), 0x2A, 0).p0_cnt.value as int == (t.p0_cnt.value + 160 - 8) % 160,
{
    assert((0x70u8 >> 4u8) == 7) by (bit_vector);
    assert((0x80u8 >> 4u8) == 8) by (bit_vector);
    assert(0x20u16 & 0x3F == 0x20) by (bit_vector);
    assert(0x2Au16 & 0x3F == 0x2A) by (bit_vector);
}

/// A write of VSYNC with bit 1 set starts a frame: scanline 0 and the `draw`
/// latch up. No other write lowers the latch; only `drew` does.
pub proof fn lemma_vsync_draw(t: Tia, addr: u16, value: u8)
    ensures
        addr & 0x3F == 0 && value & 2 != 0 ==> write_effect(t, addr, value).scanline == 0
            && write_effect(t, addr, value).draw,
        write_effect(t, addr, value).draw == (t.draw || (addr & 0x3F == 0 && value & 2 != 0)),
{
}

} // verus!
