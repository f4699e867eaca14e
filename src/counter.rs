use vstd::prelude::*;

verus! {

/// A position counter that can be loaded after a delay and compared with a
/// delay, as the TIA's object counters are.
pub struct Counter {
    pub value: u16,
    pub value_delayed: u16,
    pub assign_cnt: u8,
    pub cmp_cnt: u8,
    pub matched: u16,
}

/// The counter that clocks a player's eight graphics bits out, one every
/// `clk_div` pixels, from 8 down to 1; 0 when idle.
pub struct GraphicsCounter {
    pub value: u8,
    pub cnt: u8,
}

impl Counter {
    /// One tick: count up, and load the pending value when its delay runs out.
    pub open spec fn ticked(self) -> Counter {
        let c = Counter { value: (self.value + 1) as u16, ..self };
        if self.assign_cnt == 0 {
            c
        } else if self.assign_cnt == 1 {
            Counter { value: self.value_delayed, assign_cnt: 0, ..c }
        } else {
            Counter { assign_cnt: (self.assign_cnt - 1) as u8, ..c }
        }
    }

    /// The result of `cmp_delayed(value, delay)` and the counter after it.
    pub open spec fn cmp_delayed_spec(self, value: u16, delay: u8) -> (bool, Counter) {
        let c = if self.value == value { Counter { matched: value, cmp_cnt: delay, ..self } } else { self };
        if c.cmp_cnt != 0 {
            (false, Counter { cmp_cnt: (c.cmp_cnt - 1) as u8, ..c })
        } else if c.matched == value {
            (true, Counter { matched: 0, ..c })
        } else {
            (false, c)
        }
    }

    pub fn new(value: u16) -> (r: Self)
        ensures
            r == (Counter { value, value_delayed: 0, assign_cnt: 0, cmp_cnt: 0, matched: 0 }),
    {
        Self { value, value_delayed: 0, assign_cnt: 0, cmp_cnt: 0, matched: 0 }
    }

    pub fn value(&self) -> (r: u16)
        ensures
            r == self.value,
    {
        self.value
    }

    /// Loads a value at once; a pending delayed load then loads the same value.
    pub fn set(&mut self, value: u16)
        ensures
            *final(self) == (Counter { value, value_delayed: value, ..*old(self) }),
    {
        self.value = value;
        self.value_delayed = value;
    }

    pub fn cmp(&self, value: u16) -> (r: bool)
        ensures
            r == (self.value == value),
    {
        self.value == value
    }

    /// Loads `value` on the tick that comes `delay + 1` ticks from now.
    pub fn set_delayed(&mut self, value: u16, delay: u8)
        requires
            delay < 255,
        ensures
            *final(self) == (Counter { value_delayed: value, assign_cnt: (delay + 1) as u8, ..*old(self) }),
    {
        self.value_delayed = value;
        self.assign_cnt = delay + 1;
    }

    /// Reports a match with `value` `delay` calls after the call that saw it.
    pub fn cmp_delayed(&mut self, value: u16, delay: u8) -> (r: bool)
        ensures
            (r, *final(self)) == old(self).cmp_delayed_spec(value, delay),
    {
        if self.value == value {
            self.matched = value;
            self.cmp_cnt = delay;
        }
        if self.cmp_cnt != 0 {
            self.cmp_cnt = self.cmp_cnt - 1;
            false
        } else if self.matched == value {
            self.matched = 0;
            true
        } else {
            false
        }
    }

    pub fn cycle(&mut self)
        requires
            old(self).value < 0xFFFF,
        ensures
            *final(self) == old(self).ticked(),
    {
        self.value = self.value + 1;
        if self.assign_cnt != 0 {
            self.assign_cnt = self.assign_cnt - 1;
            if self.assign_cnt == 0 {
                self.value = self.value_delayed;
            }
        }
    }
}

impl GraphicsCounter {
    /// The bit number shown and the counter after a tick with divider `clk_div`.
    pub open spec fn ticked(self, clk_div: u8) -> (u8, GraphicsCounter) {
        if self.cnt + 1 >= clk_div {
            (self.value, GraphicsCounter { value: if self.value > 0 { (self.value - 1) as u8 } else { 0 }, cnt: 0 })
        } else {
            (self.value, GraphicsCounter { cnt: (self.cnt + 1) as u8, ..self })
        }
    }

    pub fn new() -> (r: Self)
        ensures
            r == (GraphicsCounter { value: 0, cnt: 0 }),
    {
        Self { value: 0, cnt: 0 }
    }

    /// Starts clocking the eight bits out.
    pub fn reset(&mut self)
        ensures
            *final(self) == (GraphicsCounter { value: 8, cnt: 0 }),
    {
        self.value = 8;
        self.cnt = 0;
    }

    pub fn value(&self) -> (r: u8)
        ensures
            r == self.value,
    {
        self.value
    }

    pub fn cycle(&mut self, clk_div: u8) -> (r: u8)
        requires
            old(self).cnt < 255,
        ensures
            (r, *final(self)) == old(self).ticked(clk_div),
    {
        self.cnt = self.cnt + 1;
        let value = self.value;
        if self.cnt >= clk_div {
            self.cnt = 0;
            if self.value > 0 {
                self.value = self.value - 1;
            }
        }
        value
    }
}

/// `a + b` modulo `modulo`, for `a` and `b` below it.
pub fn modular_add(a: u16, b: u16, modulo: u16) -> (r: u16)
    requires
        a < modulo,
        b < modulo,
    ensures
        r as int == (a + b) % (modulo as int),
{
    if a as u32 + b as u32 > modulo as u32 - 1 {
        assert((a + b) % (modulo as int) == a + b - modulo) by {
            vstd::arithmetic::div_mod::lemma_fundamental_div_mod_converse(a + b, modulo as int, 1, a + b - modulo);
        }
        ((a as u32 + b as u32) - modulo as u32) as u16
    } else {
        assert((a + b) % (modulo as int) == a + b) by {
            vstd::arithmetic::div_mod::lemma_fundamental_div_mod_converse(a + b, modulo as int, 0, a + b);
        }
        a + b
    }
}

/// `a - b` modulo `modulo`, for `a` below it and `b` at most it.
pub fn modular_sub(a: u16, b: u16, modulo: u16) -> (r: u16)
    requires
        a < modulo,
        b <= modulo,
    ensures
        r as int == (a - b + modulo) % (modulo as int),
{
    if b > a {
        assert((a - b + modulo) % (modulo as int) == a - b + modulo) by {
            vstd::arithmetic::div_mod::lemma_fundamental_div_mod_converse(a - b + modulo, modulo as int, 0, a - b + modulo);
        }
        modulo - (b - a)
    } else {
        assert((a - b + modulo) % (modulo as int) == a - b) by {
            vstd::arithmetic::div_mod::lemma_fundamental_div_mod_converse(a - b + modulo, modulo as int, 1, a - b);
        }
        a - b
    }
}

} // verus!
