//! The bus: a strict address decoder over the 16-bit space, dispatching
//! reads and writes to the cartridge, WRAM, HRAM, the PPU, the timer, the
//! interrupt controller and the boot-mode latch, and driving the timer and
//! PPU forward by cycles.

use vstd::prelude::*;

use crate::bootrom::{spec_brom_readb, Bootrom};
use crate::cartridge::{CartV, Cartridge};
use crate::gpu::{Gpu, GpuV};
use crate::interrupt::InterruptController;
use crate::timer::{spec_timer_step, Timer};

verus! {

pub const WRAM_SZ: usize = 0x2000;

pub const ZRAM_SZ: usize = 0x7F;

pub struct Interconnect {
    /// Optional boot ROM, overlaid at 0x0000..=0x00FF while `boot_mode`.
    pub brom: Bootrom,
    /// 8 KiB of work RAM (0xC000..=0xDFFF, echoed at 0xE000..=0xFDFF).
    pub wram: Vec<u8>,
    /// 127 bytes of high RAM (0xFF80..=0xFFFE).
    pub zram: Vec<u8>,
    pub cart: Cartridge,
    /// Whether the boot ROM is still mapped over the cartridge.
    pub boot_mode: bool,
    pub ic: InterruptController,
    pub timer: Timer,
    pub gpu: Gpu,
}

/// The ghost view of the whole bus.
pub ghost struct InterconnectV {
    pub brom: Option<Seq<u8>>,
    pub wram: Seq<u8>,
    pub zram: Seq<u8>,
    pub cart: CartV,
    pub boot_mode: bool,
    pub ic: InterruptController,
    pub timer: Timer,
    pub gpu: GpuV,
}

impl View for Interconnect {
    type V = InterconnectV;

    open spec fn view(&self) -> InterconnectV {
        InterconnectV {
            brom: self.brom@,
            wram: self.wram@,
            zram: self.zram@,
            cart: self.cart@,
            boot_mode: self.boot_mode,
            ic: self.ic,
            timer: self.timer,
            gpu: self.gpu@,
        }
    }
}

impl InterconnectV {
    /// The byte a CPU read returns for every address: the complete decode
    /// of the memory map.
    #[verifier::opaque]
    pub open spec fn spec_readb(self, addr: u16) -> u8 {
        if addr < 0x100 && self.boot_mode {
            spec_brom_readb(self.brom, addr)
        } else if addr < 0x8000 {
            self.cart.spec_read_rom(addr)
        } else if addr < 0x9800 {
            self.gpu.spec_read_tileset((addr - 0x8000) as u16)
        } else if addr < 0x9C00 {
            self.gpu.spec_read_tilemap1((addr - 0x9800) as u16)
        } else if addr < 0xA000 {
            self.gpu.spec_read_tilemap2((addr - 0x9C00) as u16)
        } else if addr < 0xC000 {
            self.cart.spec_read_ram(addr)
        } else if addr < 0xFE00 {
            self.wram[((addr - 0xC000) % 0x2000) as int]
        } else if addr < 0xFEA0 {
            self.gpu.spec_read_oam((addr - 0xFE00) as u16)
        } else if addr < 0xFF00 {
            0
        } else if addr == 0xFF04 {
            self.timer.div
        } else if addr == 0xFF05 {
            self.timer.counter
        } else if addr == 0xFF06 {
            self.timer.modulo
        } else if addr == 0xFF07 {
            self.timer.spec_tac()
        } else if addr == 0xFF0F {
            self.ic.iflag
        } else if addr == 0xFF40 {
            self.gpu.spec_lcdc()
        } else if addr == 0xFF41 {
            self.gpu.spec_stat()
        } else if addr == 0xFF42 {
            self.gpu.scroll_y
        } else if addr == 0xFF43 {
            self.gpu.scroll_x
        } else if addr == 0xFF44 {
            self.gpu.ly
        } else if addr == 0xFF45 {
            self.gpu.lyc
        } else if addr == 0xFF47 {
            self.gpu.bgp
        } else if addr == 0xFF48 {
            self.gpu.obp0
        } else if addr == 0xFF49 {
            self.gpu.obp1
        } else if addr == 0xFF4A {
            self.gpu.win_y
        } else if addr == 0xFF4B {
            self.gpu.win_x
        } else if addr < 0xFF80 {
            0
        } else if addr < 0xFFFF {
            self.zram[(addr - 0xFF80) as int]
        } else {
            self.ic.ie
        }
    }

    /// The bus after a CPU write for every address: the complete decode of
    /// the memory map; unmapped MMIO addresses ignore writes.
    #[verifier::opaque]
    pub open spec fn spec_writeb(self, addr: u16, val: u8) -> InterconnectV {
        if addr < 0x8000 {
            InterconnectV { cart: self.cart.spec_write_rom(addr, val), ..self }
        } else if addr < 0x9800 {
            InterconnectV { gpu: self.gpu.spec_write_tileset((addr - 0x8000) as u16, val), ..self }
        } else if addr < 0x9C00 {
            InterconnectV { gpu: self.gpu.spec_write_tilemap1((addr - 0x9800) as u16, val), ..self }
        } else if addr < 0xA000 {
            InterconnectV { gpu: self.gpu.spec_write_tilemap2((addr - 0x9C00) as u16, val), ..self }
        } else if addr < 0xC000 {
            InterconnectV { cart: self.cart.spec_write_ram(addr, val), ..self }
        } else if addr < 0xFE00 {
            InterconnectV { wram: self.wram.update(((addr - 0xC000) % 0x2000) as int, val), ..self }
        } else if addr < 0xFEA0 {
            InterconnectV { gpu: self.gpu.spec_write_oam((addr - 0xFE00) as u16, val), ..self }
        } else if addr < 0xFF00 {
            self
        } else if addr == 0xFF04 {
            InterconnectV { timer: Timer { div: 0, ..self.timer }, ..self }
        } else if addr == 0xFF05 {
            InterconnectV { timer: Timer { counter: val, ..self.timer }, ..self }
        } else if addr == 0xFF06 {
            InterconnectV { timer: Timer { modulo: val, ..self.timer }, ..self }
        } else if addr == 0xFF07 {
            InterconnectV {
                timer: Timer {
                    enabled: val & 0x04 != 0,
                    input_freq: crate::timer::InputClockFreq::spec_from_selector((val % 4) as u8),
                    ..self.timer
                },
                ..self
            }
        } else if addr == 0xFF0F {
            InterconnectV { ic: InterruptController { iflag: val, ..self.ic }, ..self }
        } else if addr == 0xFF40 {
            InterconnectV { gpu: self.gpu.spec_write_lcdc(val), ..self }
        } else if addr == 0xFF41 {
            InterconnectV { gpu: self.gpu.spec_write_stat(val), ..self }
        } else if addr == 0xFF42 {
            InterconnectV { gpu: GpuV { scroll_y: val, ..self.gpu }, ..self }
        } else if addr == 0xFF43 {
            InterconnectV { gpu: GpuV { scroll_x: val, ..self.gpu }, ..self }
        } else if addr == 0xFF44 {
            InterconnectV { gpu: GpuV { ly: val, ..self.gpu }, ..self }
        } else if addr == 0xFF45 {
            InterconnectV { gpu: GpuV { lyc: val, ..self.gpu }, ..self }
        } else if addr == 0xFF47 {
            InterconnectV { gpu: GpuV { bgp: val, ..self.gpu }, ..self }
        } else if addr == 0xFF48 {
            InterconnectV { gpu: GpuV { obp0: val, ..self.gpu }, ..self }
        } else if addr == 0xFF49 {
            InterconnectV { gpu: GpuV { obp1: val, ..self.gpu }, ..self }
        } else if addr == 0xFF4A {
            InterconnectV { gpu: GpuV { win_y: val, ..self.gpu }, ..self }
        } else if addr == 0xFF4B {
            InterconnectV { gpu: GpuV { win_x: val, ..self.gpu }, ..self }
        } else if addr == 0xFF50 {
            // a write of 1 leaves boot mode for good; other values are ignored
            if val == 1 {
                InterconnectV { boot_mode: false, ..self }
            } else {
                self
            }
        } else if addr < 0xFF80 {
            self
        } else if addr < 0xFFFF {
            InterconnectV { zram: self.zram.update((addr - 0xFF80) as int, val), ..self }
        } else {
            InterconnectV { ic: InterruptController { ie: val, ..self.ic }, ..self }
        }
    }

    /// A little-endian word read: low byte at `addr`, high byte above it
    /// (wrapping at the top of the address space).
    pub open spec fn spec_readw(self, addr: u16) -> u16 {
        (self.spec_readb(addr) + 256 * self.spec_readb(
            ((addr + 1) % 0x10000) as u16,
        )) as u16
    }

    /// A little-endian word write: two byte writes, low then high.
    pub open spec fn spec_writew(self, addr: u16, val: u16) -> InterconnectV {
        self.spec_writeb(addr, (val % 256) as u8).spec_writeb(
            ((addr + 1) % 0x10000) as u16,
            (val / 256) as u8,
        )
    }

    /// The bus after the timer and then the PPU have advanced by `ticks`
    /// T-cycles, each free to raise its interrupts.
    pub open spec fn spec_step(self, ticks: u32) -> InterconnectV {
        let tf = spec_timer_step(self.timer, ticks, self.ic.iflag);
        let gf = self.gpu.spec_step(ticks, tf.1);
        InterconnectV {
            timer: tf.0,
            gpu: gf.0,
            ic: InterruptController { iflag: gf.1, ..self.ic },
            ..self
        }
    }
}

impl Interconnect {
    pub open spec fn wf(self) -> bool {
        &&& self.wram@.len() == 0x2000
        &&& self.zram@.len() == 0x7F
        &&& self.brom.wf()
        &&& self.cart.wf()
        &&& self.timer.wf()
        &&& self.gpu.wf()
    }

    /// Builds the bus around a cartridge. With no boot ROM, the machine
    /// starts directly in the post-boot state: the overlay is off and the
    /// MMIO registers hold their standard power-up values.
    pub fn new(cart: Cartridge, bootrom: Bootrom) -> (r: Interconnect)
        requires
            cart.wf(),
            bootrom.wf(),
        ensures
            r.wf(),
            r.cart == cart,
            r.brom == bootrom,
            r.boot_mode == (bootrom.buf matches Some(_)),
            r.wram@ == Seq::new(0x2000, |_i: int| 0u8),
            r.zram@ == Seq::new(0x7F, |_i: int| 0u8),
            !r.ic.ime && r.ic.iflag == 0 && r.ic.ie == 0,
            r.timer.counter == 0 && r.timer.modulo == 0 && r.timer.div == 0 && !r.timer.enabled,
            (bootrom.buf matches Some(_)) ==> !r.gpu.lcd_enable && r.gpu.bgp.reg == 0,
            (bootrom.buf matches None) ==> {
                &&& r.gpu.lcd_enable && r.gpu.bg_tile_set && r.gpu.bg_enable
                &&& !r.gpu.win_tile_map && !r.gpu.win_enable && !r.gpu.bg_tile_map
                &&& !r.gpu.obj_size_large && !r.gpu.obj_enable
                &&& r.gpu.bgp.reg == 0xFC && r.gpu.obp0.reg == 0xFF && r.gpu.obp1.reg == 0xFF
                &&& r.gpu.ly == 0 && r.gpu.lyc == 0 && r.gpu.scroll_x == 0 && r.gpu.scroll_y == 0
                &&& r.gpu.win_x == 0 && r.gpu.win_y == 0
                &&& r.gpu.mode == crate::gpu::Mode::AccessingOam && r.gpu.ticks == 80
                &&& r.gpu.stat == 0
            },
            r.gpu.buffer@ == Seq::new(160 * 144, |_i: int| 0u8),
            r.gpu.tile_set@ == Seq::new(0x1800, |_i: int| 0u8),
            r.gpu.tile_map1@ == Seq::new(0x400, |_i: int| 0u8),
            r.gpu.tile_map2@ == Seq::new(0x400, |_i: int| 0u8),
    {
        let used = bootrom.is_used();
        let mut bus = Interconnect {
            brom: bootrom,
            wram: zero_bytes(WRAM_SZ),
            zram: zero_bytes(ZRAM_SZ),
            cart,
            boot_mode: used,
            ic: InterruptController::new(),
            timer: Timer::new(),
            gpu: Gpu::new(),
        };
        if !used {
            bus.fake_boot_rom();
        }
        bus
    }

    /// Applies the standard post-boot MMIO register values (as a real boot
    /// ROM would leave them) without running one. Writes that would land in
    /// unmapped MMIO, such as the sound registers, are dropped by the bus
    /// and so have no counterpart here.
    pub fn fake_boot_rom(&mut self)
        requires
            old(self).wf(),
        ensures
            final(self).wf(),
            final(self).timer == (Timer {
                counter: 0,
                modulo: 0,
                enabled: false,
                input_freq: crate::timer::InputClockFreq::Freq4096,
                ..old(self).timer
            }),
            final(self).gpu@ == (GpuV {
                scroll_y: 0,
                scroll_x: 0,
                lyc: 0,
                bgp: 0xFC,
                obp0: 0xFF,
                obp1: 0xFF,
                win_y: 0,
                win_x: 0,
                ..old(self).gpu@.spec_write_lcdc(0x91)
            }),
            final(self).ic == (InterruptController { ie: 0, ..old(self).ic }),
            final(self).wram == old(self).wram,
            final(self).zram == old(self).zram,
            final(self).cart == old(self).cart,
            final(self).brom == old(self).brom,
            final(self).boot_mode == old(self).boot_mode,
    {
        self.timer.set_tima(0x00);
        self.timer.set_tma(0x00);
        self.timer.set_tac(0x00);
        self.gpu.write_lcdc_reg(0x91);
        self.gpu.write_scy(0x00);
        self.gpu.write_scx(0x00);
        self.gpu.write_lyc(0x00);
        self.gpu.write_bgp(0xFC);
        self.gpu.write_obp0(0xFF);
        self.gpu.write_obp1(0xFF);
        self.gpu.write_wy(0x00);
        self.gpu.write_wx(0x00);
        self.ic.enable_all_interrupts(0x00);
        proof {
            assert(0u8 & 0x04u8 == 0u8) by (bit_vector);
        }
    }

    pub fn readb(&self, addr: u16) -> (r: u8)
        requires
            self.wf(),
        ensures
            r == self@.spec_readb(addr),
    {
        proof {
            reveal(InterconnectV::spec_readb);
        }
        if addr < 0x100 && self.boot_mode {
            self.brom.readb(addr)
        } else if addr < 0x8000 {
            self.cart.read_rom(addr)
        } else if addr < 0x9800 {
            self.gpu.read_tileset(addr - 0x8000)
        } else if addr < 0x9C00 {
            self.gpu.read_tilemap1(addr - 0x9800)
        } else if addr < 0xA000 {
            self.gpu.read_tilemap2(addr - 0x9C00)
        } else if addr < 0xC000 {
            self.cart.read_ram(addr)
        } else if addr < 0xFE00 {
            self.wram[((addr - 0xC000) % 0x2000) as usize]
        } else if addr < 0xFEA0 {
            self.gpu.read_oam(addr - 0xFE00)
        } else if addr < 0xFF00 {
            0
        } else if addr == 0xFF04 {
            self.timer.get_div()
        } else if addr == 0xFF05 {
            self.timer.get_tima()
        } else if addr == 0xFF06 {
            self.timer.get_tma()
        } else if addr == 0xFF07 {
            self.timer.get_tac()
        } else if addr == 0xFF0F {
            self.ic.iflag
        } else if addr == 0xFF40 {
            self.gpu.read_lcdc_reg()
        } else if addr == 0xFF41 {
            self.gpu.read_stat()
        } else if addr == 0xFF42 {
            self.gpu.read_scy()
        } else if addr == 0xFF43 {
            self.gpu.read_scx()
        } else if addr == 0xFF44 {
            self.gpu.read_ly()
        } else if addr == 0xFF45 {
            self.gpu.read_lyc()
        } else if addr == 0xFF47 {
            self.gpu.read_bgp()
        } else if addr == 0xFF48 {
            self.gpu.read_obp0()
        } else if addr == 0xFF49 {
            self.gpu.read_obp1()
        } else if addr == 0xFF4A {
            self.gpu.read_wy()
        } else if addr == 0xFF4B {
            self.gpu.read_wx()
        } else if addr < 0xFF80 {
            0
        } else if addr < 0xFFFF {
            self.zram[(addr - 0xFF80) as usize]
        } else {
            self.ic.ie
        }
    }

    pub fn writeb(&mut self, addr: u16, val: u8)
        requires
            old(self).wf(),
        ensures
            final(self)@ == old(self)@.spec_writeb(addr, val),
            final(self).wf(),
    {
        if addr < 0xFF00 {
            self.writeb_mem(addr, val);
        } else {
            self.writeb_mmio(addr, val);
        }
    }

    /// Writes below the MMIO page: cartridge, VRAM, WRAM and OAM.
    fn writeb_mem(&mut self, addr: u16, val: u8)
        requires
            old(self).wf(),
            addr < 0xFF00,
        ensures
            final(self)@ == old(self)@.spec_writeb(addr, val),
            final(self).wf(),
    {
        proof {
            reveal(InterconnectV::spec_writeb);
        }
        if addr < 0x8000 {
            self.cart.write_rom(addr, val);
        } else if addr < 0x9800 {
            self.gpu.write_tileset(addr - 0x8000, val);
        } else if addr < 0x9C00 {
            self.gpu.write_tilemap1(addr - 0x9800, val);
        } else if addr < 0xA000 {
            self.gpu.write_tilemap2(addr - 0x9C00, val);
        } else if addr < 0xC000 {
            self.cart.write_ram(addr, val);
        } else if addr < 0xFE00 {
            let i = ((addr - 0xC000) % 0x2000) as usize;
            self.wram.set(i, val);
        } else if addr < 0xFEA0 {
            self.gpu.write_oam(addr - 0xFE00, val);
        }
    }

    /// Writes into the MMIO page, HRAM and IE.
    #[verifier::rlimit(100)]
    fn writeb_mmio(&mut self, addr: u16, val: u8)
        requires
            old(self).wf(),
            addr >= 0xFF00,
        ensures
            final(self)@ == old(self)@.spec_writeb(addr, val),
            final(self).wf(),
    {
        proof {
            reveal(InterconnectV::spec_writeb);
        }
        if addr == 0xFF04 {
            self.timer.set_div(val);
        } else if addr == 0xFF05 {
            self.timer.set_tima(val);
        } else if addr == 0xFF06 {
            self.timer.set_tma(val);
        } else if addr == 0xFF07 {
            self.timer.set_tac(val);
        } else if addr == 0xFF0F {
            self.ic.iflag = val;
        } else if 0xFF40 <= addr && addr <= 0xFF4B {
            self.writeb_gpu_reg(addr, val);
        } else if addr == 0xFF50 {
            if val == 1 {
                self.boot_mode = false;
            }
        } else if addr < 0xFF80 {
        } else if addr < 0xFFFF {
            let i = (addr - 0xFF80) as usize;
            self.zram.set(i, val);
        } else {
            self.ic.enable_all_interrupts(val);
        }
    }

    /// Writes into the PPU's register block, 0xFF40..=0xFF4B.
    #[verifier::rlimit(100)]
    fn writeb_gpu_reg(&mut self, addr: u16, val: u8)
        requires
            old(self).wf(),
            0xFF40 <= addr <= 0xFF4B,
        ensures
            final(self)@ == old(self)@.spec_writeb(addr, val),
            final(self).wf(),
    {
        proof {
            reveal(InterconnectV::spec_writeb);
        }
        if addr == 0xFF40 {
            self.gpu.write_lcdc_reg(val);
        } else if addr == 0xFF41 {
            self.gpu.write_stat(val);
        } else if addr == 0xFF42 {
            self.gpu.write_scy(val);
        } else if addr == 0xFF43 {
            self.gpu.write_scx(val);
        } else if addr == 0xFF44 {
            self.gpu.write_ly(val);
        } else if addr == 0xFF45 {
            self.gpu.write_lyc(val);
        } else if addr == 0xFF47 {
            self.gpu.write_bgp(val);
        } else if addr == 0xFF48 {
            self.gpu.write_obp0(val);
        } else if addr == 0xFF49 {
            self.gpu.write_obp1(val);
        } else if addr == 0xFF4A {
            self.gpu.write_wy(val);
        } else if addr == 0xFF4B {
            self.gpu.write_wx(val);
        }
    }

    pub fn readw(&self, addr: u16) -> (r: u16)
        requires
            self.wf(),
        ensures
            r == self@.spec_readw(addr),
    {
        let lo = self.readb(addr) as u16;
        let hi = self.readb(addr.wrapping_add(1)) as u16;
        lo + hi * 256
    }

    pub fn writew(&mut self, addr: u16, val: u16)
        requires
            old(self).wf(),
        ensures
            final(self)@ == old(self)@.spec_writew(addr, val),
            final(self).wf(),
    {
        self.writeb(addr, (val % 256) as u8);
        self.writeb(addr.wrapping_add(1), (val / 256) as u8);
    }

    /// Forwards `ticks` T-cycles to the timer and then the PPU; the bus
    /// itself consumes no extra time, so the same count comes back.
    pub fn step(&mut self, ticks: u32) -> (r: u32)
        requires
            old(self).wf(),
            ticks <= 0x10000,
        ensures
            final(self)@ == old(self)@.spec_step(ticks),
            final(self).wf(),
            r == ticks,
    {
        let mut ic = InterruptController { ime: self.ic.ime, iflag: self.ic.iflag, ie: self.ic.ie };
        self.timer.step(ticks, &mut ic);
        self.gpu.step(ticks, &mut ic);
        self.ic.iflag = ic.iflag;
        ticks
    }
}

/// The laws of the byte bus: a write to plain memory reads back, wherever
/// the PPU's mode gating permits the access at all.
///
/// Holds for WRAM and its echo, HRAM, the tileset and both tilemaps while
/// VRAM is not blocked, and OAM while OAM is not blocked (each blocked only
/// with the LCD on, in the modes where the PPU owns that memory).
pub proof fn lemma_bus_write_read_roundtrip(v: InterconnectV, addr: u16, val: u8)
    requires
        v.wram.len() == 0x2000,
        v.zram.len() == 0x7F,
        v.gpu.tile_set.len() == 0x1800,
        v.gpu.tile_map1.len() == 0x400,
        v.gpu.tile_map2.len() == 0x400,
        v.gpu.oam.len() == 40,
        (0xC000 <= addr < 0xFE00) || (0xFF80 <= addr < 0xFFFF) || (0x8000 <= addr < 0xA000
            && !v.gpu.spec_vram_blocked()) || (0xFE00 <= addr < 0xFEA0
            && !v.gpu.spec_oam_blocked()),
    ensures
        v.spec_writeb(addr, val).spec_readb(addr) == val,
{
    reveal(InterconnectV::spec_writeb);
    reveal(InterconnectV::spec_readb);
}

/// The law of word access: a word write is exactly the two byte writes of
/// its little-endian halves, low byte first, and a word read assembles the
/// same two bytes.
pub proof fn lemma_word_access_is_little_endian(v: InterconnectV, addr: u16, val: u16)
    ensures
        v.spec_writew(addr, val) == v.spec_writeb(addr, (val % 256) as u8).spec_writeb(
            ((addr + 1) % 0x10000) as u16,
            (val / 256) as u8,
        ),
        v.spec_readw(addr) == v.spec_readb(addr) + 256 * v.spec_readb(
            ((addr + 1) % 0x10000) as u16,
        ),
{
}

/// A zeroed byte vector of the wanted length.
fn zero_bytes(n: usize) -> (r: Vec<u8>)
    ensures
        r@ == Seq::new(n as nat, |_i: int| 0u8),
{
    let mut v: Vec<u8> = Vec::new();
    let mut i: usize = 0;
    while i < n
        invariant
            i <= n,
            v@ == Seq::new(i as nat, |_j: int| 0u8),
        decreases n - i,
    {
        v.push(0);
        i = i + 1;
        proof {
            assert(v@ == Seq::new(i as nat, |_j: int| 0u8));
        }
    }
    v
}

} // verus!
