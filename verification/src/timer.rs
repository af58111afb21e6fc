//! Timer unit: the free-running DIV register (one increment every 256
//! T-cycles), and the TIMA/TMA/TAC counter with its selectable input clock.
//! A TIMA overflow reloads TIMA from TMA and requests the Timer interrupt.

use vstd::prelude::*;
use vstd::arithmetic::div_mod::{lemma_fundamental_div_mod, lemma_fundamental_div_mod_converse};
use vstd::arithmetic::div_mod::lemma_small_mod;

use crate::interrupt::{Interrupt, InterruptController};

verus! {

/// The four input clocks TAC can select for TIMA.
#[derive(Clone, Copy, PartialEq, Eq, Structural, Debug)]
pub enum InputClockFreq {
    Freq4096,
    Freq262144,
    Freq65536,
    Freq16384,
}

impl InputClockFreq {
    /// T-cycles between two TIMA increments at this clock.
    pub open spec fn spec_to_cycles(self) -> u32 {
        match self {
            InputClockFreq::Freq4096 => 1024,
            InputClockFreq::Freq262144 => 16,
            InputClockFreq::Freq65536 => 64,
            InputClockFreq::Freq16384 => 256,
        }
    }

    pub fn to_cycles(&self) -> (r: u32)
        ensures
            r == self.spec_to_cycles(),
    {
        match *self {
            InputClockFreq::Freq4096 => 1024,
            InputClockFreq::Freq262144 => 16,
            InputClockFreq::Freq65536 => 64,
            InputClockFreq::Freq16384 => 256,
        }
    }

    /// The two selector bits of TAC that choose this clock.
    pub open spec fn spec_selector(self) -> u8 {
        match self {
            InputClockFreq::Freq4096 => 0,
            InputClockFreq::Freq262144 => 1,
            InputClockFreq::Freq65536 => 2,
            InputClockFreq::Freq16384 => 3,
        }
    }

    pub open spec fn spec_from_selector(sel: u8) -> InputClockFreq {
        if sel == 0 {
            InputClockFreq::Freq4096
        } else if sel == 1 {
            InputClockFreq::Freq262144
        } else if sel == 2 {
            InputClockFreq::Freq65536
        } else {
            InputClockFreq::Freq16384
        }
    }
}

/// TIMA after one input-clock tick: increment, or reload from TMA on overflow.
pub open spec fn tima_next(counter: u8, modulo: u8) -> u8 {
    if counter == 0xFF {
        modulo
    } else {
        (counter + 1) as u8
    }
}

/// TIMA after `n` input-clock ticks.
pub open spec fn tima_after(counter: u8, modulo: u8, n: nat) -> u8
    decreases n,
{
    if n == 0 {
        counter
    } else {
        tima_after(tima_next(counter, modulo), modulo, (n - 1) as nat)
    }
}

/// Whether any of `n` input-clock ticks overflows TIMA (and so requests the
/// Timer interrupt).
pub open spec fn tima_overflows(counter: u8, modulo: u8, n: nat) -> bool
    decreases n,
{
    n > 0 && (counter == 0xFF || tima_overflows(tima_next(counter, modulo), modulo, (n - 1) as nat))
}

/// The DIV register after `cycles` more T-cycles, given the current register
/// and its accumulator of T-cycles not yet folded in.
pub open spec fn spec_div_after(div: u8, idiv: u32, cycles: u32) -> int {
    (div + (idiv + cycles) / 256) % 256
}

/// The timer and the IF byte after `cycles` T-cycles: the canonical
/// transition `Timer::step` implements.
pub open spec fn spec_timer_step(t: Timer, cycles: u32, iflag: u8) -> (Timer, u8) {
    let div = (spec_div_after(t.div, t.idiv, cycles)) as u8;
    let idiv = ((t.idiv + cycles) % 256) as u32;
    if !t.enabled {
        (Timer { div, idiv, ..t }, iflag)
    } else {
        let p = t.input_freq.spec_to_cycles();
        let total = t.icounter + cycles;
        let n = (total / p as int) as nat;
        (
            Timer {
                div,
                idiv,
                counter: tima_after(t.counter, t.modulo, n),
                icounter: (total % p as int) as u32,
                ..t
            },
            if tima_overflows(t.counter, t.modulo, n) {
                iflag | 0x04
            } else {
                iflag
            },
        )
    }
}

pub struct Timer {
    /// TIMA (0xFF05).
    pub counter: u8,
    /// TMA (0xFF06), the reload value on overflow.
    pub modulo: u8,
    /// DIV (0xFF04).
    pub div: u8,
    /// T-cycles accumulated toward the next DIV increment.
    pub idiv: u32,
    /// T-cycles accumulated toward the next TIMA increment.
    pub icounter: u32,
    /// TAC bit 2.
    pub enabled: bool,
    /// TAC bits 1..0.
    pub input_freq: InputClockFreq,
}

impl Timer {
    pub open spec fn wf(self) -> bool {
        &&& self.idiv < 256
        &&& self.icounter < 1024
    }

    pub fn new() -> (r: Timer)
        ensures
            r.wf(),
            r.counter == 0,
            r.modulo == 0,
            r.div == 0,
            r.idiv == 0,
            r.icounter == 0,
            !r.enabled,
            r.input_freq == InputClockFreq::Freq4096,
    {
        Timer {
            counter: 0,
            modulo: 0,
            div: 0,
            idiv: 0,
            icounter: 0,
            enabled: false,
            input_freq: InputClockFreq::Freq4096,
        }
    }

    pub fn get_div(&self) -> (r: u8)
        ensures
            r == self.div,
    {
        self.div
    }

    /// Any write to DIV resets it to zero.
    pub fn set_div(&mut self, val: u8)
        ensures
            *final(self) == (Timer { div: 0, ..*old(self) }),
    {
        let _ = val;
        self.div = 0;
    }

    pub fn get_tima(&self) -> (r: u8)
        ensures
            r == self.counter,
    {
        self.counter
    }

    pub fn set_tima(&mut self, val: u8)
        ensures
            *final(self) == (Timer { counter: val, ..*old(self) }),
    {
        self.counter = val;
    }

    pub fn get_tma(&self) -> (r: u8)
        ensures
            r == self.modulo,
    {
        self.modulo
    }

    pub fn set_tma(&mut self, val: u8)
        ensures
            *final(self) == (Timer { modulo: val, ..*old(self) }),
    {
        self.modulo = val;
    }

    /// The TAC byte: bit 2 the enable, bits 1..0 the input-clock selector.
    pub open spec fn spec_tac(self) -> u8 {
        ((if self.enabled {
            4int
        } else {
            0int
        }) + self.input_freq.spec_selector()) as u8
    }

    pub fn get_tac(&self) -> (r: u8)
        ensures
            r == self.spec_tac(),
    {
        let ics: u8 = match self.input_freq {
            InputClockFreq::Freq4096 => 0,
            InputClockFreq::Freq262144 => 1,
            InputClockFreq::Freq65536 => 2,
            InputClockFreq::Freq16384 => 3,
        };
        if self.enabled {
            4 + ics
        } else {
            ics
        }
    }

    pub fn set_tac(&mut self, val: u8)
        ensures
            *final(self) == (Timer {
                enabled: val & 0x04 != 0,
                input_freq: InputClockFreq::spec_from_selector((val % 4) as u8),
                ..*old(self)
            }),
    {
        let sel = val % 4;
        self.input_freq = if sel == 0 {
            InputClockFreq::Freq4096
        } else if sel == 1 {
            InputClockFreq::Freq262144
        } else if sel == 2 {
            InputClockFreq::Freq65536
        } else {
            InputClockFreq::Freq16384
        };
        self.enabled = val & 0x04 != 0;
    }

    /// Advances the timer by `cycles` T-cycles: folds whole 256-cycle periods
    /// into DIV, and, when TAC enables it, whole input-clock periods into
    /// TIMA, requesting the Timer interrupt exactly when a period overflows
    /// TIMA.
    pub fn step(&mut self, cycles: u32, ic: &mut InterruptController)
        requires
            old(self).wf(),
            cycles <= 0x1000_0000,
        ensures
            final(self).wf(),
            (*final(self), final(ic).iflag) == spec_timer_step(
                *old(self),
                cycles,
                old(ic).iflag,
            ),
            final(self).div == spec_div_after(old(self).div, old(self).idiv, cycles),
            final(self).idiv == (old(self).idiv + cycles) % 256,
            final(self).modulo == old(self).modulo,
            final(self).enabled == old(self).enabled,
            final(self).input_freq == old(self).input_freq,
            final(ic).ime == old(ic).ime,
            final(ic).ie == old(ic).ie,
            !old(self).enabled ==> {
                &&& final(self).counter == old(self).counter
                &&& final(self).icounter == old(self).icounter
                &&& final(ic).iflag == old(ic).iflag
            },
            old(self).enabled ==> {
                let p = old(self).input_freq.spec_to_cycles();
                let total = old(self).icounter + cycles;
                let n = (total / p as int) as nat;
                &&& final(self).counter == tima_after(old(self).counter, old(self).modulo, n)
                &&& final(self).icounter == total % p as int
                &&& final(ic).iflag == (if tima_overflows(old(self).counter, old(self).modulo, n) {
                    old(ic).iflag | 0x04
                } else {
                    old(ic).iflag
                })
            },
    {
        self.step_div(cycles);

        if !self.enabled {
            return ;
        }

        let ghost old_counter = self.counter;
        let ghost old_modulo = self.modulo;
        let ghost old_iflag = ic.iflag;

        let p = self.input_freq.to_cycles();
        let ghost total = self.icounter + cycles;
        self.icounter = self.icounter + cycles;

        let ghost mut k: nat = 0nat;
        while self.icounter >= p
            invariant
                p == self.input_freq.spec_to_cycles(),
                self.modulo == old_modulo,
                self.icounter == total - p * k,
                self.counter == tima_after(old_counter, old_modulo, k),
                ic.iflag == (if tima_overflows(old_counter, old_modulo, k) {
                    old_iflag | 0x04
                } else {
                    old_iflag
                }),
                ic.ime == old(ic).ime,
                ic.ie == old(ic).ie,
                self.div == spec_div_after(old(self).div, old(self).idiv, cycles),
                self.idiv == (old(self).idiv + cycles) % 256,
                self.enabled,
                self.input_freq == old(self).input_freq,
            decreases self.icounter,
        {
            proof {
                lemma_tima_unroll_last(old_counter, old_modulo, k);
                assert((old_iflag | 0x04) | 0x04 == old_iflag | 0x04) by (bit_vector);
            }
            self.icounter = self.icounter - p;
            if self.counter != 0xFF {
                self.counter = self.counter + 1;
            } else {
                self.counter = self.modulo;
                ic.request_interrupt(Interrupt::Timer);
            }
            proof {
                k = k + 1;
            }
        }
        proof {
            assert(total as int == (k as int) * (p as int) + (self.icounter as int))
                by (nonlinear_arith)
                requires
                    self.icounter == total - p * k,
            ;
            lemma_fundamental_div_mod_converse(
                total as int,
                p as int,
                k as int,
                self.icounter as int,
            );
        }
    }

    fn step_div(&mut self, cycles: u32)
        requires
            old(self).wf(),
            cycles <= 0x1000_0000,
        ensures
            final(self).div == spec_div_after(old(self).div, old(self).idiv, cycles),
            final(self).idiv == (old(self).idiv + cycles) % 256,
            final(self).idiv < 256,
            *final(self) == (Timer { div: final(self).div, idiv: final(self).idiv, ..*old(self) }),
    {
        let ghost total = self.idiv + cycles;
        self.idiv = self.idiv + cycles;

        let ghost mut k: int = 0;
        while self.idiv >= 256
            invariant
                0 <= k,
                self.idiv == total - 256 * k,
                self.div == (old(self).div + k) % 256,
                *self == (Timer { div: self.div, idiv: self.idiv, ..*old(self) }),
            decreases self.idiv,
        {
            proof {
                lemma_mod256_incr(old(self).div + k);
            }
            self.idiv = self.idiv - 256;
            if self.div == 255 {
                self.div = 0;
            } else {
                self.div = self.div + 1;
            }
            proof {
                k = k + 1;
            }
        }
        proof {
            lemma_fundamental_div_mod_converse(total as int, 256, k, self.idiv as int);
        }
    }
}

/// `(x + 1) % 256` in terms of `x % 256`: wrap at 255.
proof fn lemma_mod256_incr(x: int)
    requires
        x >= 0,
    ensures
        (x + 1) % 256 == if x % 256 == 255 {
            0int
        } else {
            x % 256 + 1
        },
{
    lemma_fundamental_div_mod(x, 256);
    if x % 256 == 255 {
        lemma_fundamental_div_mod_converse(x + 1, 256, x / 256 + 1, 0);
    } else {
        lemma_fundamental_div_mod_converse(x + 1, 256, x / 256, x % 256 + 1);
    }
}

/// Peeling the last tick off `tima_after` / `tima_overflows`.
proof fn lemma_tima_unroll_last(counter: u8, modulo: u8, k: nat)
    ensures
        tima_after(counter, modulo, k + 1) == tima_next(tima_after(counter, modulo, k), modulo),
        tima_overflows(counter, modulo, k + 1) == (tima_overflows(counter, modulo, k)
            || tima_after(counter, modulo, k) == 0xFF),
    decreases k,
{
    reveal_with_fuel(tima_after, 3);
    reveal_with_fuel(tima_overflows, 3);
    if k == 0 {
        assert(tima_after(counter, modulo, 1) == tima_next(counter, modulo));
        assert(tima_overflows(counter, modulo, 1) == (counter == 0xFF));
    } else {
        lemma_tima_unroll_last(tima_next(counter, modulo), modulo, (k - 1) as nat);
        assert(tima_after(counter, modulo, k + 1) == tima_after(
            tima_next(counter, modulo),
            modulo,
            k,
        ));
        assert(tima_after(counter, modulo, k) == tima_after(
            tima_next(counter, modulo),
            modulo,
            (k - 1) as nat,
        ));
        assert(tima_overflows(counter, modulo, k + 1) == (counter == 0xFF || tima_overflows(
            tima_next(counter, modulo),
            modulo,
            k,
        )));
        assert(tima_overflows(counter, modulo, k) == (counter == 0xFF || tima_overflows(
            tima_next(counter, modulo),
            modulo,
            (k - 1) as nat,
        )));
    }
}

/// Law: starting from DIV = 0 with an empty accumulator, after `n` T-cycles
/// the DIV register reads `(n / 256) mod 256`.
pub proof fn lemma_div_counts_cycles(n: u32)
    ensures
        spec_div_after(0, 0, n) == (n as int / 256) % 256,
{
}

/// Law: DIV accumulates across step calls. Two steps of `c1` and `c2`
/// T-cycles land on the same DIV and accumulator as one step of `c1 + c2`,
/// so repeated calls summing to `n` always read `(n / 256) mod 256` from a
/// fresh timer.
pub proof fn lemma_div_accumulates(div: u8, idiv: u32, c1: u32, c2: u32)
    requires
        idiv < 256,
        c1 + c2 <= u32::MAX,
    ensures
        spec_div_after(
            spec_div_after(div, idiv, c1) as u8,
            ((idiv + c1) % 256) as u32,
            c2,
        ) == spec_div_after(div, idiv, (c1 + c2) as u32),
        ((idiv + c1) % 256 + c2) % 256 == (idiv + c1 + c2) % 256,
{
    let t = idiv + c1;
    let a = t / 256;
    let r = t % 256;
    let b = (r + c2) / 256;
    lemma_fundamental_div_mod(t, 256);
    lemma_fundamental_div_mod(r + c2, 256);
    lemma_fundamental_div_mod_converse(t + c2, 256, a + b, (r + c2) % 256);
    // fold the outer mod of the first step's DIV into the sum
    vstd::arithmetic::div_mod::lemma_add_mod_noop(div + a, b, 256);
    vstd::arithmetic::div_mod::lemma_add_mod_noop_right((div + a) % 256, b, 256);
    assert(((div + a) % 256 + b) % 256 == (div + a + b) % 256);
    vstd::arithmetic::div_mod::lemma_add_mod_noop(r, c2 as int, 256);
    vstd::arithmetic::div_mod::lemma_add_mod_noop_right(r % 256, c2 as int, 256);
    lemma_small_mod(r as nat, 256);
}

} // verus!
