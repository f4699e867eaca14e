use vstd::prelude::*;
use std::collections::VecDeque;

verus! {

/// One step of a channel's output: the level and the TIA cycle counter at
/// which it starts.
#[derive(Clone, Copy, Debug, PartialEq, Eq, Structural)]
pub struct TiaAudioSample {
    pub value: u8,
    pub cycles: u16,
}

/// One of the TIA's two sound generators.
pub struct AudioChannel {
    /// Frequency divider, 5 bits.
    pub audf: u8,
    /// Tone control, 4 bits.
    pub audc: u8,
    /// Volume, 4 bits.
    pub audv: u8,
    pub div_ctr: u8,
    pub lfsr4: u8,
    pub lfsr5: u8,
    pub lfsr9: u16,
    /// Output level of the pure tones.
    pub polarity: bool,
    pub samples: VecDeque<TiaAudioSample>,
}

/// The tone controls that give a pure square wave: the output flips on every
/// step (with the divide-by-3 prescaler for 12 and 13).
pub open spec fn is_pure_tone(audc: u8) -> bool {
    audc == 4 || audc == 5 || audc == 12 || audc == 13
}

/// The tone controls that silence the channel.
pub open spec fn is_silent(audc: u8) -> bool {
    audc == 0 || audc == 11
}

/// The level for output bit `high` at volume `audv`: 128 plus or minus 8 per
/// volume step.
pub open spec fn level(audv: u8, high: bool) -> int {
    if high {
        128 + 8 * audv
    } else {
        128 - 8 * audv
    }
}

/// One step of the 5-bit shift register, held in bits 1..5 with the previous
/// output in bit 0: shift right, feeding back bit 2 xor bit 0.
pub open spec fn next_lfsr5(l: u8) -> u8 {
    ((l >> 1u8) | ((((l >> 2u8) ^ l) & 1) << 5u8)) & 0x3F
}

/// One step of the 9-bit shift register: shift right, feeding back bit 4 xor bit 0.
pub open spec fn next_lfsr9(l: u16) -> u16 {
    ((l >> 1u16) | ((((l >> 4u16) ^ l) & 1) << 8u16)) & 0x1FF
}

impl AudioChannel {
    pub open spec fn wf(self) -> bool {
        self.audf < 32 && self.audc < 16 && self.audv < 16
    }

    /// The power-on state: registers 0, shift registers all ones, nothing queued.
    pub open spec fn is_power_on(self) -> bool {
        &&& self == (AudioChannel {
            audf: 0,
            audc: 0,
            audv: 0,
            div_ctr: 0,
            lfsr4: 0xF,
            lfsr5: 0x3F,
            lfsr9: 0x1FF,
            polarity: false,
            samples: self.samples,
        })
        &&& self.samples@.len() == 0
    }

    pub fn new() -> (r: Self)
        ensures
            r.wf(),
            r.is_power_on(),
    {
        AudioChannel {
            audf: 0,
            audc: 0,
            audv: 0,
            div_ctr: 0,
            lfsr4: 0xF,
            lfsr5: 0x3F,
            lfsr9: 0x1FF,
            polarity: false,
            samples: VecDeque::new(),
        }
    }

    fn sample(&self, polarity: bool) -> (r: u8)
        requires
            self.wf(),
        ensures
            r as int == level(self.audv, polarity),
    {
        if polarity {
            128 + self.audv * 8
        } else {
            128 - self.audv * 8
        }
    }

    /// What one step of the generator guarantees of its output `r`.
    pub open spec fn stepped(s: Self, t: Self, r: u8) -> bool {
        &&& t.wf()
        &&& t.audf == s.audf && t.audc == s.audc && t.audv == s.audv && t.div_ctr == s.div_ctr
        &&& t.samples == s.samples
        &&& is_silent(s.audc) ==> r == 128
        &&& is_pure_tone(s.audc) ==> t.polarity == !s.polarity && r as int == level(s.audv, t.polarity)
        &&& !is_silent(s.audc) ==> r as int == level(s.audv, true) || r as int == level(s.audv, false)
        &&& s.audc == 0 ==> t.lfsr4 == 0xF && t.lfsr5 == 0x3F && t.lfsr9 == 0x1FF
        &&& s.audc == 11 ==> t.lfsr4 == 0xF && t.lfsr9 == 0x00F
        &&& s.audc != 0 ==> t.lfsr5 == next_lfsr5(s.lfsr5)
        &&& s.audc != 0 && s.audc != 11 ==> t.lfsr9 == next_lfsr9(s.lfsr9)
        &&& s.audc == 8 ==> r as int == level(s.audv, s.lfsr9 & 1 == 1)
        &&& (s.audc == 6 || s.audc == 9 || s.audc == 10 || s.audc == 14)
            ==> r as int == level(s.audv, next_lfsr5(s.lfsr5) & 1 == 1)
        &&& (s.audc == 1 || s.audc == 2 || s.audc == 3 || s.audc == 7 || s.audc == 15)
            ==> r as int == level(s.audv, s.lfsr4 & 1 == 1)
    }

    /// What one tick of the audio clock does to a channel, with timestamp `ctr`.
    pub open spec fn clocked(s: Self, t: Self, ctr: u16) -> bool {
        &&& t.wf()
        &&& t.audf == s.audf && t.audc == s.audc && t.audv == s.audv
        &&& s.div_ctr >= s.audf ==> t.div_ctr == 0
            && t.samples@.len() == s.samples@.len() + 1
            && t.samples@.drop_last() == s.samples@
            && t.samples@.last().cycles == ctr
            && (is_silent(s.audc) ==> t.samples@.last().value == 128)
            && (is_pure_tone(s.audc) ==> t.polarity == !s.polarity
                && t.samples@.last().value as int == level(s.audv, t.polarity))
            && (!is_silent(s.audc) ==> t.samples@.last().value as int == level(s.audv, true)
                || t.samples@.last().value as int == level(s.audv, false))
        &&& s.div_ctr < s.audf ==> t.div_ctr == s.div_ctr + 1 && t.samples == s.samples
            && t.polarity == s.polarity
    }

    /// Advances the noise generators by one step and gives the output level.
    /// Silent modes give 128; pure tones flip their output each step; the
    /// other modes give the bit of the shift register that the mode selects.
    pub fn step(&mut self) -> (r: u8)
        requires
            old(self).wf(),
        ensures
            Self::stepped(*old(self), *final(self), r),
    {
        let l5 = self.lfsr5;
        let lfsr5_prev_out = l5 & 1 == 1;
        self.lfsr5 = ((l5 >> 1u8) | ((((l5 >> 2u8) ^ l5) & 1) << 5u8)) & 0x3F;
        let lfsr5_out = self.lfsr5 & 1 == 1;
        let l9 = self.lfsr9;
        let lfsr9_out = l9 & 1 == 1;
        self.lfsr9 = ((l9 >> 1u16) | ((((l9 >> 4u16) ^ l9) & 1) << 8u16)) & 0x1FF;
        let audc = self.audc;
        let modified_clock = if audc == 2 {
            self.lfsr5 >> 1u8 == 1 || self.lfsr5 >> 1u8 == 15
        } else if audc == 3 || audc == 7 || audc == 15 {
            lfsr5_out && !lfsr5_prev_out
        } else if audc == 6 || audc == 10 || audc == 14 {
            self.lfsr5 >> 1u8 == 1
        } else {
            true
        };
        let l4 = self.lfsr4;
        let lfsr4_out = l4 & 1 == 1;
        if modified_clock {
            if audc == 7 || audc == 15 {
                self.lfsr4 = ((l4 >> 1u8) | ((((l4 >> 3u8) ^ 1) & 1) << 3u8)) & 0xF;
            } else {
                self.lfsr4 = ((l4 >> 1u8) | ((((l4 >> 1u8) ^ l4) & 1) << 3u8)) & 0xF;
            }
        }
        if audc == 0 {
            self.lfsr4 = 0xF;
            self.lfsr5 = 0x3F;
            self.lfsr9 = 0x1FF;
            128
        } else if audc == 11 {
            self.lfsr4 = 0xF;
            self.lfsr9 = 0x00F;
            128
        } else if audc == 4 || audc == 5 || audc == 12 || audc == 13 {
            self.polarity = !self.polarity;
            self.sample(self.polarity)
        } else if audc == 8 {
            self.sample(lfsr9_out)
        } else if audc == 6 || audc == 9 || audc == 10 || audc == 14 {
            self.sample(lfsr5_out)
        } else {
            self.sample(lfsr4_out)
        }
    }

    /// One tick of the audio clock for this channel: the prescaler counts up to
    /// AUDF, and on reload a step of the generator is queued with timestamp `ctr`.
    pub fn clock(&mut self, ctr: u16)
        requires
            old(self).wf(),
        ensures
            Self::clocked(*old(self), *final(self), ctr),
    {
        if self.div_ctr >= self.audf {
            let value = self.step();
            self.samples.push_back(TiaAudioSample { value, cycles: ctr });
            self.div_ctr = 0;
            assert(self.samples@.drop_last() =~= old(self).samples@);
        } else {
            self.div_ctr = self.div_ctr + 1;
        }
    }
}

} // verus!
