//! The machine facade: owns the CPU (which transitively owns the bus) and
//! runs a tick-budget loop for the host.

use vstd::prelude::*;

use crate::bootrom::Bootrom;
use crate::cartridge::Cartridge;
use crate::cpu::{Cpu, StepError};
use crate::interconnect::Interconnect;

verus! {

/// T-cycles per second of the DMG master clock.
pub const CPU_HZ: u32 = 4_194_304;

pub const SCREEN_W: usize = 160;

pub const SCREEN_H: usize = 144;

pub struct GameBoy {
    pub cpu: Cpu,
}

impl GameBoy {
    pub open spec fn wf(self) -> bool {
        self.cpu.wf()
    }

    /// Builds the whole machine around a cartridge and an optional boot
    /// ROM. Without one, CPU registers and MMIO take the standard
    /// post-boot values and PC starts at 0x0100.
    pub fn new(cart: Cartridge, bootrom: Bootrom) -> (r: GameBoy)
        requires
            cart.wf(),
            bootrom.wf(),
        ensures
            r.wf(),
            (bootrom.buf matches None) ==> {
                &&& r.cpu.regs.a == 0x01 && r.cpu.regs.f == 0xB0
                &&& r.cpu.regs.b == 0x00 && r.cpu.regs.c == 0x13
                &&& r.cpu.regs.d == 0x00 && r.cpu.regs.e == 0xD8
                &&& r.cpu.regs.h == 0x01 && r.cpu.regs.l == 0x4D
                &&& r.cpu.regs.sp == 0xFFFE && r.cpu.regs.pc == 0x0100
                &&& r.cpu.interconnect.gpu@.spec_lcdc() == 0x91
                &&& r.cpu.interconnect.gpu.bgp.reg == 0xFC
                &&& !r.cpu.interconnect.boot_mode
            },
            r.cpu.interconnect.cart == cart,
            !r.cpu.interconnect.ic.ime,
            r.cpu.interconnect.ic.iflag == 0,
            r.cpu.interconnect.ic.ie == 0,
    {
        let ic = Interconnect::new(cart, bootrom);
        let gb = GameBoy { cpu: Cpu::new(ic) };
        gb
    }

    /// Runs whole CPU steps until the tick budget is spent, returning the
    /// T-cycles actually consumed: the first per-step total beyond the
    /// timeslice, which the CPU clock advances by exactly. Since no step
    /// takes more than 32 T-cycles, the overshoot is bounded. An error
    /// comes back exactly when the machine hits an instruction outside
    /// this core's set, and names that opcode and its address.
    pub fn run(&mut self, timeslice: u32) -> (r: Result<u32, StepError>)
        requires
            old(self).wf(),
            timeslice <= 0xFFFF_0000,
        ensures
            final(self).wf(),
            r matches Ok(t) ==> timeslice < t <= timeslice + 32,
            r matches Ok(t) ==> final(self).cpu.clk.cycles == ((old(self).cpu.clk.cycles + t)
                % 0x1_0000_0000),
            r matches Err(e) ==> match e {
                StepError::Stop { pc } => final(self).cpu@.interconnect.spec_readb(pc) == 0x10,
                StepError::Unimplemented { op, pc } => final(self).cpu@.interconnect.spec_readb(
                    pc,
                ) == op && crate::cpu::spec_unimplemented(op),
            },
    {
        let mut ticks: u32 = 0;
        loop
            invariant
                self.wf(),
                ticks <= timeslice,
                timeslice <= 0xFFFF_0000,
                self.cpu.clk.cycles == ((old(self).cpu.clk.cycles + ticks) % 0x1_0000_0000),
            decreases timeslice - ticks,
        {
            let ghost clk_before = self.cpu.clk.cycles;
            let t = match self.cpu.step() {
                Ok(t) => t,
                Err(e) => {
                    return Err(e);
                },
            };
            proof {
                vstd::arithmetic::div_mod::lemma_add_mod_noop(
                    old(self).cpu.clk.cycles + ticks,
                    t as int,
                    0x1_0000_0000,
                );
                vstd::arithmetic::div_mod::lemma_small_mod(t as nat, 0x1_0000_0000);
            }
            ticks = ticks + t;
            if ticks > timeslice {
                return Ok(ticks);
            }
        }
    }

    /// The PPU's back buffer: exactly 160 x 144 bytes, row-major with row
    /// 0 on top, every byte a shade in 0..=3.
    pub fn back_buffer(&self) -> (r: &Vec<u8>)
        requires
            self.wf(),
        ensures
            r == &self.cpu.interconnect.gpu.buffer,
            r@.len() == 160 * 144,
            forall|i: int| 0 <= i < r@.len() ==> r@[i] < 4,
    {
        &self.cpu.interconnect.gpu.buffer
    }
}

} // verus!
