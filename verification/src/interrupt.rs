//! Interrupt controller: the IME master switch, the IF request flags and the
//! IE enable mask, with fixed per-kind bits and vector addresses. Priority
//! follows bit order: the lowest set bit of `IF & IE` wins.

use vstd::prelude::*;

verus! {

/// The five interrupt kinds of the DMG, in priority order.
#[derive(Clone, Copy, PartialEq, Eq, Structural, Debug)]
pub enum Interrupt {
    VBlank,
    LCDCStat,
    Timer,
    Serial,
    Joypad,
}

impl Interrupt {
    /// The bit this kind occupies in IF and IE.
    pub open spec fn spec_mask(self) -> u8 {
        match self {
            Interrupt::VBlank => 0x01,
            Interrupt::LCDCStat => 0x02,
            Interrupt::Timer => 0x04,
            Interrupt::Serial => 0x08,
            Interrupt::Joypad => 0x10,
        }
    }

    pub fn mask(self) -> (r: u8)
        ensures
            r == self.spec_mask(),
    {
        match self {
            Interrupt::VBlank => 0x01,
            Interrupt::LCDCStat => 0x02,
            Interrupt::Timer => 0x04,
            Interrupt::Serial => 0x08,
            Interrupt::Joypad => 0x10,
        }
    }

    /// The address the CPU jumps to when this kind is dispatched.
    pub open spec fn spec_addr(self) -> u16 {
        match self {
            Interrupt::VBlank => 0x0040,
            Interrupt::LCDCStat => 0x0048,
            Interrupt::Timer => 0x0050,
            Interrupt::Serial => 0x0058,
            Interrupt::Joypad => 0x0060,
        }
    }

    pub fn get_addr(&self) -> (r: u16)
        ensures
            r == self.spec_addr(),
    {
        match *self {
            Interrupt::VBlank => 0x0040,
            Interrupt::LCDCStat => 0x0048,
            Interrupt::Timer => 0x0050,
            Interrupt::Serial => 0x0058,
            Interrupt::Joypad => 0x0060,
        }
    }
}

pub struct InterruptController {
    /// Interrupt master enable.
    pub ime: bool,
    /// IF: pending interrupt requests, one bit per kind (0xFF0F).
    pub iflag: u8,
    /// IE: the enable mask (0xFFFF).
    pub ie: u8,
}

impl InterruptController {
    /// The highest-priority kind pending and enabled, when IME allows any.
    /// Bits outside the five interrupt bits never select a kind.
    pub open spec fn spec_get_interrupt(self) -> Option<Interrupt> {
        let pending = self.iflag & self.ie;
        if !self.ime {
            None
        } else if pending & 0x01 != 0 {
            Some(Interrupt::VBlank)
        } else if pending & 0x02 != 0 {
            Some(Interrupt::LCDCStat)
        } else if pending & 0x04 != 0 {
            Some(Interrupt::Timer)
        } else if pending & 0x08 != 0 {
            Some(Interrupt::Serial)
        } else if pending & 0x10 != 0 {
            Some(Interrupt::Joypad)
        } else {
            None
        }
    }

    pub fn new() -> (r: InterruptController)
        ensures
            !r.ime,
            r.iflag == 0,
            r.ie == 0,
    {
        InterruptController { ime: false, iflag: 0, ie: 0 }
    }

    pub fn get_interrupt(&self) -> (r: Option<Interrupt>)
        ensures
            r == self.spec_get_interrupt(),
    {
        let pending = self.iflag & self.ie;
        if !self.ime {
            None
        } else if pending & 0x01 != 0 {
            Some(Interrupt::VBlank)
        } else if pending & 0x02 != 0 {
            Some(Interrupt::LCDCStat)
        } else if pending & 0x04 != 0 {
            Some(Interrupt::Timer)
        } else if pending & 0x08 != 0 {
            Some(Interrupt::Serial)
        } else if pending & 0x10 != 0 {
            Some(Interrupt::Joypad)
        } else {
            None
        }
    }

    /// Clears this kind's bit in IF.
    pub fn reset_interrupt(&mut self, kind: Interrupt)
        ensures
            final(self).iflag == old(self).iflag & !kind.spec_mask(),
            final(self).ime == old(self).ime,
            final(self).ie == old(self).ie,
    {
        let m = kind.mask();
        self.iflag = self.iflag & !m;
    }

    /// Sets this kind's bit in IF.
    pub fn request_interrupt(&mut self, kind: Interrupt)
        ensures
            final(self).iflag == old(self).iflag | kind.spec_mask(),
            final(self).ime == old(self).ime,
            final(self).ie == old(self).ie,
    {
        let m = kind.mask();
        self.iflag = self.iflag | m;
    }

    /// Replaces the IE mask (a write to 0xFFFF).
    pub fn enable_all_interrupts(&mut self, mask: u8)
        ensures
            final(self).ie == mask,
            final(self).ime == old(self).ime,
            final(self).iflag == old(self).iflag,
    {
        self.ie = mask;
    }
}

/// Law: dispatch priority follows bit order. With IME on, the lowest set
/// bit of `IF & IE` selects the kind; bits above it do not matter.
pub proof fn lemma_interrupt_priority(ic: InterruptController)
    requires
        ic.ime,
    ensures
        (ic.iflag & ic.ie) & 0x01 != 0 ==> ic.spec_get_interrupt() == Some(Interrupt::VBlank),
        ((ic.iflag & ic.ie) & 0x01 == 0 && (ic.iflag & ic.ie) & 0x02 != 0)
            ==> ic.spec_get_interrupt() == Some(Interrupt::LCDCStat),
        ((ic.iflag & ic.ie) & 0x03 == 0 && (ic.iflag & ic.ie) & 0x04 != 0)
            ==> ic.spec_get_interrupt() == Some(Interrupt::Timer),
        ((ic.iflag & ic.ie) & 0x07 == 0 && (ic.iflag & ic.ie) & 0x08 != 0)
            ==> ic.spec_get_interrupt() == Some(Interrupt::Serial),
        ((ic.iflag & ic.ie) & 0x0F == 0 && (ic.iflag & ic.ie) & 0x10 != 0)
            ==> ic.spec_get_interrupt() == Some(Interrupt::Joypad),
{
    let p = ic.iflag & ic.ie;
    assert((p & 0x03 == 0 ==> p & 0x01 == 0 && p & 0x02 == 0) && (p & 0x07 == 0 ==> p & 0x01 == 0
        && p & 0x02 == 0 && p & 0x04 == 0) && (p & 0x0F == 0 ==> p & 0x01 == 0 && p & 0x02 == 0
        && p & 0x04 == 0 && p & 0x08 == 0)) by (bit_vector);
}

} // verus!
