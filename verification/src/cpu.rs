//! The Sharp LR35902 CPU: the register file, fetch/decode/execute of the
//! full opcode set including the CB prefix, the interrupt-acknowledge
//! sequence, and the T-cycle accounting that drives the bus.

use vstd::prelude::*;

use crate::interconnect::{Interconnect, InterconnectV};
use crate::interrupt::Interrupt;

verus! {

/// Running total of T-cycles consumed, wrapping at 2^32.
#[derive(Clone, Copy, PartialEq, Eq, Structural, Debug, Default)]
pub struct Clock {
    pub cycles: u32,
}

impl Clock {
    /// One machine cycle: four T-cycles.
    pub fn tick(&mut self)
        ensures
            final(self).cycles == (old(self).cycles + 4) % 0x1_0000_0000,
    {
        self.add_cycles(4);
    }

    pub fn add_cycles(&mut self, cycles: u32)
        ensures
            final(self).cycles == (old(self).cycles + cycles) % 0x1_0000_0000,
    {
        let before = self.cycles;
        self.cycles = self.cycles.wrapping_add(cycles);
        proof {
            if before + cycles > u32::MAX {
                vstd::arithmetic::div_mod::lemma_fundamental_div_mod_converse(
                    before + cycles,
                    0x1_0000_0000,
                    1,
                    before + cycles - 0x1_0000_0000,
                );
            } else {
                vstd::arithmetic::div_mod::lemma_small_mod(
                    (before + cycles) as nat,
                    0x1_0000_0000,
                );
            }
        }
    }
}

/// The four condition-code flags, stored in the upper nibble of F.
#[derive(Clone, Copy, PartialEq, Eq, Structural, Debug)]
pub enum Flags {
    C,
    H,
    N,
    Z,
}

impl Flags {
    /// The bit this flag occupies in F.
    pub open spec fn spec_mask(self) -> u8 {
        match self {
            Flags::C => 0x10,
            Flags::H => 0x20,
            Flags::N => 0x40,
            Flags::Z => 0x80,
        }
    }

    pub fn mask(self) -> (r: u8)
        ensures
            r == self.spec_mask(),
    {
        match self {
            Flags::C => 0x10,
            Flags::H => 0x20,
            Flags::N => 0x40,
            Flags::Z => 0x80,
        }
    }
}

/// Whether `flag` is set in the F byte `f`.
pub open spec fn spec_flag(f: u8, flag: Flags) -> bool {
    f & flag.spec_mask() != 0
}

/// An F byte built from the four flags (lower nibble zero).
pub open spec fn mk_f(z: bool, n: bool, h: bool, c: bool) -> u8 {
    ((if z {
        0x80int
    } else {
        0int
    }) + (if n {
        0x40int
    } else {
        0int
    }) + (if h {
        0x20int
    } else {
        0int
    }) + (if c {
        0x10int
    } else {
        0int
    })) as u8
}

/// The branch conditions of the conditional jumps, calls and returns.
pub enum Condition {
    NZ,
    Z,
    NC,
    C,
}

impl Condition {
    /// Whether the condition holds of the F byte `f`.
    pub open spec fn spec_test(self, f: u8) -> bool {
        match self {
            Condition::NZ => !spec_flag(f, Flags::Z),
            Condition::Z => spec_flag(f, Flags::Z),
            Condition::NC => !spec_flag(f, Flags::C),
            Condition::C => spec_flag(f, Flags::C),
        }
    }

    pub fn test(&self, cpu: &Cpu) -> (r: bool)
        ensures
            r == self.spec_test(cpu.regs.f),
    {
        match *self {
            Condition::NZ => !cpu.check_flag(Flags::Z),
            Condition::Z => cpu.check_flag(Flags::Z),
            Condition::NC => !cpu.check_flag(Flags::C),
            Condition::C => cpu.check_flag(Flags::C),
        }
    }
}

/// Direction of a rotate or shift.
#[derive(Clone, Copy, PartialEq, Eq, Structural, Debug)]
pub enum RotateDir {
    L,
    R,
}

/// The 8-bit registers.
#[derive(Clone, Copy, PartialEq, Eq, Structural, Debug)]
pub enum RegsB {
    A,
    B,
    C,
    D,
    E,
    H,
    L,
}

/// The 16-bit registers and pairs.
#[derive(Clone, Copy, PartialEq, Eq, Structural, Debug)]
pub enum RegsW {
    PC,
    SP,
    AF,
    BC,
    DE,
    HL,
}

/// The indirect addressing forms: a pair as a pointer, the post-increment
/// and post-decrement forms of HL, the zero-page forms, and a fetched
/// 16-bit address.
#[derive(Clone, Copy, PartialEq, Eq, Structural, Debug)]
pub enum IndirectAddr {
    SP,
    AF,
    BC,
    DE,
    HL,
    HLP,
    HLM,
    ZeroPage,
    ZeroPageC,
    AddressW,
}

/// A byte operand: a register, an indirect address, or an immediate.
#[derive(Clone, Copy, PartialEq, Eq, Structural, Debug)]
pub enum ByteLoc {
    Reg(RegsB),
    Ind(IndirectAddr),
    Imm,
}

/// A word source: a 16-bit register or a fetched immediate word.
#[derive(Clone, Copy, PartialEq, Eq, Structural, Debug)]
pub enum WordSrc {
    Reg(RegsW),
    Imm,
}

/// The register file. The four pairs AF, BC, DE and HL alias the 8-bit
/// registers big-endian; the lower nibble of F always holds zero.
#[derive(Clone, Copy, PartialEq, Eq, Structural, Debug)]
pub struct Registers {
    pub a: u8,
    pub b: u8,
    pub c: u8,
    pub d: u8,
    pub e: u8,
    pub f: u8,
    pub h: u8,
    pub l: u8,
    pub pc: u16,
    pub sp: u16,
}

impl Registers {
    pub open spec fn spec_readb(self, reg: RegsB) -> u8 {
        match reg {
            RegsB::A => self.a,
            RegsB::B => self.b,
            RegsB::C => self.c,
            RegsB::D => self.d,
            RegsB::E => self.e,
            RegsB::H => self.h,
            RegsB::L => self.l,
        }
    }

    pub open spec fn spec_writeb(self, reg: RegsB, val: u8) -> Registers {
        match reg {
            RegsB::A => Registers { a: val, ..self },
            RegsB::B => Registers { b: val, ..self },
            RegsB::C => Registers { c: val, ..self },
            RegsB::D => Registers { d: val, ..self },
            RegsB::E => Registers { e: val, ..self },
            RegsB::H => Registers { h: val, ..self },
            RegsB::L => Registers { l: val, ..self },
        }
    }

    /// Pairs read big-endian: the high byte is the first letter.
    pub open spec fn spec_readw(self, reg: RegsW) -> u16 {
        match reg {
            RegsW::PC => self.pc,
            RegsW::SP => self.sp,
            RegsW::AF => (self.a * 256 + self.f) as u16,
            RegsW::BC => (self.b * 256 + self.c) as u16,
            RegsW::DE => (self.d * 256 + self.e) as u16,
            RegsW::HL => (self.h * 256 + self.l) as u16,
        }
    }

    /// Pair writes split big-endian; a write to AF clears the lower nibble
    /// of F.
    pub open spec fn spec_writew(self, reg: RegsW, val: u16) -> Registers {
        match reg {
            RegsW::PC => Registers { pc: val, ..self },
            RegsW::SP => Registers { sp: val, ..self },
            RegsW::AF => Registers {
                a: (val / 256) as u8,
                f: (((val % 256) / 16) * 16) as u8,
                ..self
            },
            RegsW::BC => Registers { b: (val / 256) as u8, c: (val % 256) as u8, ..self },
            RegsW::DE => Registers { d: (val / 256) as u8, e: (val % 256) as u8, ..self },
            RegsW::HL => Registers { h: (val / 256) as u8, l: (val % 256) as u8, ..self },
        }
    }

    pub fn readb(&self, reg: RegsB) -> (r: u8)
        ensures
            r == self.spec_readb(reg),
    {
        match reg {
            RegsB::A => self.a,
            RegsB::B => self.b,
            RegsB::C => self.c,
            RegsB::D => self.d,
            RegsB::E => self.e,
            RegsB::H => self.h,
            RegsB::L => self.l,
        }
    }

    pub fn writeb(&mut self, reg: RegsB, val: u8)
        ensures
            *final(self) == old(self).spec_writeb(reg, val),
    {
        match reg {
            RegsB::A => self.a = val,
            RegsB::B => self.b = val,
            RegsB::C => self.c = val,
            RegsB::D => self.d = val,
            RegsB::E => self.e = val,
            RegsB::H => self.h = val,
            RegsB::L => self.l = val,
        }
    }

    pub fn readw(&self, reg: RegsW) -> (r: u16)
        ensures
            r == self.spec_readw(reg),
    {
        match reg {
            RegsW::PC => self.pc,
            RegsW::SP => self.sp,
            RegsW::AF => self.a as u16 * 256 + self.f as u16,
            RegsW::BC => self.b as u16 * 256 + self.c as u16,
            RegsW::DE => self.d as u16 * 256 + self.e as u16,
            RegsW::HL => self.h as u16 * 256 + self.l as u16,
        }
    }

    pub fn writew(&mut self, reg: RegsW, val: u16)
        ensures
            *final(self) == old(self).spec_writew(reg, val),
    {
        match reg {
            RegsW::PC => self.pc = val,
            RegsW::SP => self.sp = val,
            RegsW::AF => {
                self.a = (val / 256) as u8;
                self.f = ((val % 256) / 16 * 16) as u8;
            },
            RegsW::BC => {
                self.b = (val / 256) as u8;
                self.c = (val % 256) as u8;
            },
            RegsW::DE => {
                self.d = (val / 256) as u8;
                self.e = (val % 256) as u8;
            },
            RegsW::HL => {
                self.h = (val / 256) as u8;
                self.l = (val % 256) as u8;
            },
        }
    }
}

/// Law: writing a word to a pair and reading it back returns the word for
/// BC, DE and HL; for AF the lower nibble of F reads as zero, so the word
/// comes back masked to its upper twelve bits.
pub proof fn lemma_pair_write_read(regs: Registers, reg: RegsW, val: u16)
    ensures
        (reg == RegsW::BC || reg == RegsW::DE || reg == RegsW::HL || reg == RegsW::PC || reg
            == RegsW::SP) ==> regs.spec_writew(reg, val).spec_readw(reg) == val,
        reg == RegsW::AF ==> regs.spec_writew(reg, val).spec_readw(reg) == (val / 16) * 16,
{
    vstd::arithmetic::div_mod::lemma_fundamental_div_mod(val as int, 256);
    if reg == RegsW::AF {
        vstd::arithmetic::div_mod::lemma_fundamental_div_mod(val as int % 256, 16);
        assert((val / 256) * 256 + ((val % 256) / 16) * 16 == (val / 16) * 16) by (nonlinear_arith);
    }
}

/// Law: setting one flag and reading it back returns the value set, and
/// leaves each of the other three flags exactly as it was.
pub proof fn lemma_flag_set_check(f: u8, flag: Flags, enable: bool, other: Flags)
    ensures
        spec_flag(spec_set_flag(f, flag, enable), flag) == enable,
        other != flag ==> spec_flag(spec_set_flag(f, flag, enable), other) == spec_flag(f, other),
{
    let m = flag.spec_mask();
    let o = other.spec_mask();
    assert(((f | 0x10) & 0x10 != 0) && ((f & !0x10) & 0x10 == 0) && ((f | 0x10) & 0x20 == f & 0x20)
        && ((f & !0x10) & 0x20 == f & 0x20) && ((f | 0x10) & 0x40 == f & 0x40) && ((f & !0x10)
        & 0x40 == f & 0x40) && ((f | 0x10) & 0x80 == f & 0x80) && ((f & !0x10) & 0x80 == f & 0x80))
        by (bit_vector);
    assert(((f | 0x20) & 0x20 != 0) && ((f & !0x20) & 0x20 == 0) && ((f | 0x20) & 0x10 == f & 0x10)
        && ((f & !0x20) & 0x10 == f & 0x10) && ((f | 0x20) & 0x40 == f & 0x40) && ((f & !0x20)
        & 0x40 == f & 0x40) && ((f | 0x20) & 0x80 == f & 0x80) && ((f & !0x20) & 0x80 == f & 0x80))
        by (bit_vector);
    assert(((f | 0x40) & 0x40 != 0) && ((f & !0x40) & 0x40 == 0) && ((f | 0x40) & 0x10 == f & 0x10)
        && ((f & !0x40) & 0x10 == f & 0x10) && ((f | 0x40) & 0x20 == f & 0x20) && ((f & !0x40)
        & 0x20 == f & 0x20) && ((f | 0x40) & 0x80 == f & 0x80) && ((f & !0x40) & 0x80 == f & 0x80))
        by (bit_vector);
    assert(((f | 0x80) & 0x80 != 0) && ((f & !0x80) & 0x80 == 0) && ((f | 0x80) & 0x10 == f & 0x10)
        && ((f & !0x80) & 0x10 == f & 0x10) && ((f | 0x80) & 0x20 == f & 0x20) && ((f & !0x80)
        & 0x20 == f & 0x20) && ((f | 0x80) & 0x40 == f & 0x40) && ((f & !0x80) & 0x40 == f & 0x40))
        by (bit_vector);
}

/// F after one flag is set or cleared.
pub open spec fn spec_set_flag(f: u8, flag: Flags, enable: bool) -> u8 {
    if enable {
        f | flag.spec_mask()
    } else {
        f & !flag.spec_mask()
    }
}

/// Why `step` or `dexec` could not complete.
#[derive(Clone, Copy, PartialEq, Eq, Structural, Debug)]
pub enum StepError {
    /// A STOP instruction: a terminal condition in this core.
    Stop { pc: u16 },
    /// An opcode outside the implemented set.
    Unimplemented { op: u8, pc: u16 },
}

pub struct Cpu {
    pub clk: Clock,
    pub regs: Registers,
    pub interconnect: Interconnect,
}

/// The ghost view of the CPU together with everything it owns.
pub ghost struct CpuV {
    pub clk: Clock,
    pub regs: Registers,
    pub interconnect: InterconnectV,
}

impl View for Cpu {
    type V = CpuV;

    open spec fn view(&self) -> CpuV {
        CpuV { clk: self.clk, regs: self.regs, interconnect: self.interconnect@ }
    }
}

/// `(a + d) mod 2^16` for a possibly negative displacement `d`.
pub open spec fn wrap16(x: int) -> u16 {
    (((x % 0x10000) + 0x10000) % 0x10000) as u16
}

/// `x mod 256` for ints.
pub open spec fn wrap8(x: int) -> u8 {
    (((x % 256) + 256) % 256) as u8
}

impl CpuV {
    /// One fetched byte: the byte at PC, with PC advanced (wrapping).
    pub open spec fn spec_fetchb(self) -> (CpuV, u8) {
        (
            CpuV { regs: Registers { pc: wrap16(self.regs.pc + 1), ..self.regs }, ..self },
            self.interconnect.spec_readb(self.regs.pc),
        )
    }

    /// One fetched little-endian word: PC advances by two (wrapping).
    pub open spec fn spec_fetchw(self) -> (CpuV, u16) {
        (
            CpuV { regs: Registers { pc: wrap16(self.regs.pc + 2), ..self.regs }, ..self },
            self.interconnect.spec_readw(self.regs.pc),
        )
    }

    /// The effective address of an indirect operand, with the state changes
    /// address computation itself makes (HL+/-, fetches).
    pub open spec fn spec_iaddr(self, ia: IndirectAddr) -> (CpuV, u16) {
        match ia {
            IndirectAddr::SP => (self, self.regs.sp),
            IndirectAddr::AF => (self, self.regs.spec_readw(RegsW::AF)),
            IndirectAddr::BC => (self, self.regs.spec_readw(RegsW::BC)),
            IndirectAddr::DE => (self, self.regs.spec_readw(RegsW::DE)),
            IndirectAddr::HL => (self, self.regs.spec_readw(RegsW::HL)),
            IndirectAddr::HLP => {
                let hl = self.regs.spec_readw(RegsW::HL);
                (
                    CpuV { regs: self.regs.spec_writew(RegsW::HL, wrap16(hl + 1)), ..self },
                    hl,
                )
            },
            IndirectAddr::HLM => {
                let hl = self.regs.spec_readw(RegsW::HL);
                (
                    CpuV { regs: self.regs.spec_writew(RegsW::HL, wrap16(hl - 1)), ..self },
                    hl,
                )
            },
            IndirectAddr::ZeroPage => {
                let fv = self.spec_fetchb();
                (fv.0, (0xFF00 + fv.1) as u16)
            },
            IndirectAddr::ZeroPageC => (self, (0xFF00 + self.regs.c) as u16),
            IndirectAddr::AddressW => {
                let fv = self.spec_fetchw();
                (fv.0, fv.1)
            },
        }
    }

    /// Reading a byte operand, with all state changes that entails.
    pub open spec fn spec_read_byte(self, loc: ByteLoc) -> (CpuV, u8) {
        match loc {
            ByteLoc::Reg(r) => (self, self.regs.spec_readb(r)),
            ByteLoc::Imm => self.spec_fetchb(),
            ByteLoc::Ind(ia) => {
                let av = self.spec_iaddr(ia);
                (av.0, av.0.interconnect.spec_readb(av.1))
            },
        }
    }

    /// Writing a byte operand, with all state changes that entails.
    pub open spec fn spec_write_byte(self, loc: ByteLoc, val: u8) -> CpuV {
        match loc {
            ByteLoc::Reg(r) => CpuV { regs: self.regs.spec_writeb(r, val), ..self },
            ByteLoc::Imm => self,
            ByteLoc::Ind(ia) => {
                let av = self.spec_iaddr(ia);
                CpuV { interconnect: av.0.interconnect.spec_writeb(av.1, val), ..av.0 }
            },
        }
    }

    /// The state with F replaced.
    pub open spec fn with_f(self, f: u8) -> CpuV {
        CpuV { regs: Registers { f, ..self.regs }, ..self }
    }

    /// A word pushed onto the stack: SP drops by two, the word goes to the
    /// new SP little-endian.
    pub open spec fn spec_pushw(self, val: u16) -> CpuV {
        let sp = wrap16(self.regs.sp - 2);
        CpuV {
            regs: Registers { sp, ..self.regs },
            interconnect: self.interconnect.spec_writew(sp, val),
            ..self
        }
    }

    /// A word popped off the stack: two byte reads, SP rises by two.
    pub open spec fn spec_popw(self) -> (CpuV, u16) {
        let lo = self.interconnect.spec_readb(self.regs.sp);
        let hi = self.interconnect.spec_readb(wrap16(self.regs.sp + 1));
        (
            CpuV { regs: Registers { sp: wrap16(self.regs.sp + 2), ..self.regs }, ..self },
            (lo + 256 * hi) as u16,
        )
    }

    /// The interrupt-acknowledge sequence for `kind`: its IF bit clears,
    /// PC is pushed, PC becomes the vector, and IME drops.
    pub open spec fn spec_dispatch(self, kind: Interrupt) -> CpuV {
        let b1 = InterconnectV {
            ic: crate::interrupt::InterruptController {
                iflag: self.interconnect.ic.iflag & !kind.spec_mask(),
                ..self.interconnect.ic
            },
            ..self.interconnect
        };
        let c1 = CpuV { interconnect: b1, ..self };
        let c2 = c1.spec_pushw(self.regs.pc);
        let c3 = CpuV {
            regs: Registers { pc: kind.spec_addr(), ..c2.regs },
            interconnect: InterconnectV {
                ic: crate::interrupt::InterruptController { ime: false, ..c2.interconnect.ic },
                ..c2.interconnect
            },
            ..c2
        };
        c3
    }
}

/// The byte operand each three-bit field of an opcode selects: B, C, D,
/// E, H, L, (HL), A.
pub open spec fn spec_operand(i: int) -> ByteLoc {
    if i == 0 {
        ByteLoc::Reg(RegsB::B)
    } else if i == 1 {
        ByteLoc::Reg(RegsB::C)
    } else if i == 2 {
        ByteLoc::Reg(RegsB::D)
    } else if i == 3 {
        ByteLoc::Reg(RegsB::E)
    } else if i == 4 {
        ByteLoc::Reg(RegsB::H)
    } else if i == 5 {
        ByteLoc::Reg(RegsB::L)
    } else if i == 6 {
        ByteLoc::Ind(IndirectAddr::HL)
    } else {
        ByteLoc::Reg(RegsB::A)
    }
}

/// The byte operand a three-bit opcode field selects, as executable code.
fn operand_of(i: u8) -> (l: ByteLoc)
    requires
        i < 8,
    ensures
        l == spec_operand(i as int),
{
    if i == 0 {
        ByteLoc::Reg(RegsB::B)
    } else if i == 1 {
        ByteLoc::Reg(RegsB::C)
    } else if i == 2 {
        ByteLoc::Reg(RegsB::D)
    } else if i == 3 {
        ByteLoc::Reg(RegsB::E)
    } else if i == 4 {
        ByteLoc::Reg(RegsB::H)
    } else if i == 5 {
        ByteLoc::Reg(RegsB::L)
    } else if i == 6 {
        ByteLoc::Ind(IndirectAddr::HL)
    } else {
        ByteLoc::Reg(RegsB::A)
    }
}

impl CpuV {
    // ----- the per-instruction transitions -----
    //
    // Each gives the state after one instruction (the opcode byte already
    // fetched) together with its T-cycle count; the dispatchers below
    // assemble them into the transition of an arbitrary opcode.

    pub open spec fn spec_op_nop(self) -> (CpuV, u32) {
        (self, 4u32)
    }

    pub open spec fn spec_op_incw(self, reg: RegsW) -> (CpuV, u32) {
        (
            CpuV {
                regs: self.regs.spec_writew(reg, wrap16(self.regs.spec_readw(reg) + 1)),
                ..self
            },
            8u32,
        )
    }

    pub open spec fn spec_op_decw(self, reg: RegsW) -> (CpuV, u32) {
        (
            CpuV {
                regs: self.regs.spec_writew(reg, wrap16(self.regs.spec_readw(reg) - 1)),
                ..self
            },
            8u32,
        )
    }

    pub open spec fn spec_op_ldw(self, dd: RegsW, src: WordSrc) -> (CpuV, u32) {
        let sv = spec_word_src(self, src);
        (
            CpuV { regs: sv.0.regs.spec_writew(dd, sv.1), ..sv.0 },
            match src {
                WordSrc::Imm => 12u32,
                WordSrc::Reg(_) => 8u32,
            },
        )
    }

    pub open spec fn spec_op_ldw_nn_sp(self) -> (CpuV, u32) {
        let fv = self.spec_fetchw();
        (
            CpuV { interconnect: fv.0.interconnect.spec_writew(fv.1, fv.0.regs.sp), ..fv.0 },
            20u32,
        )
    }

    pub open spec fn spec_op_ldw_hl_sp(self) -> (CpuV, u32) {
        let fv = self.spec_fetchb();
        let sp = fv.0.regs.sp;
        let hl = wrap16(sp + spec_signed(fv.1));
        let regs2 = fv.0.regs.spec_writew(RegsW::HL, hl);
        (
            CpuV {
                regs: Registers {
                    f: mk_f(false, false, sp % 16 + fv.1 % 16 > 15, sp % 256 + fv.1 > 255),
                    ..regs2
                },
                ..fv.0
            },
            12u32,
        )
    }

    pub open spec fn spec_op_addw(self, ss: RegsW) -> (CpuV, u32) {
        let hl = self.regs.spec_readw(RegsW::HL);
        let v = self.regs.spec_readw(ss);
        let regs2 = Registers {
            f: mk_f(
                spec_flag(self.regs.f, Flags::Z),
                false,
                hl % 0x800 + v % 0x800 > 0x7FF,
                hl + v > 0xFFFF,
            ),
            ..self.regs
        };
        (CpuV { regs: regs2.spec_writew(RegsW::HL, wrap16(hl + v)), ..self }, 8u32)
    }

    pub open spec fn spec_op_addw_sp(self) -> (CpuV, u32) {
        let fv = self.spec_fetchb();
        let sp = fv.0.regs.sp;
        (
            CpuV {
                regs: Registers {
                    sp: wrap16(sp + spec_signed(fv.1)),
                    f: mk_f(false, false, sp % 16 + fv.1 % 16 > 15, sp % 256 + fv.1 > 255),
                    ..fv.0.regs
                },
                ..fv.0
            },
            16u32,
        )
    }

    pub open spec fn spec_op_inc(self, loc: ByteLoc) -> (CpuV, u32) {
        let rv = self.spec_read_byte(loc);
        let out = wrap8(rv.1 + 1);
        (
            rv.0.with_f(
                mk_f(out == 0, false, out % 16 == 0, spec_flag(rv.0.regs.f, Flags::C)),
            ).spec_write_byte(loc, out),
            (4 + 2 * spec_loc_extra(loc)) as u32,
        )
    }

    pub open spec fn spec_op_dec(self, loc: ByteLoc) -> (CpuV, u32) {
        let rv = self.spec_read_byte(loc);
        let out = wrap8(rv.1 - 1);
        (
            rv.0.with_f(
                mk_f(out == 0, true, out % 16 == 15, spec_flag(rv.0.regs.f, Flags::C)),
            ).spec_write_byte(loc, out),
            (4 + 2 * spec_loc_extra(loc)) as u32,
        )
    }

    pub open spec fn spec_op_ld(self, dst: ByteLoc, src: ByteLoc) -> (CpuV, u32) {
        let rv = self.spec_read_byte(src);
        (
            rv.0.spec_write_byte(dst, rv.1),
            (4 + spec_loc_extra(dst) + spec_loc_extra(src)) as u32,
        )
    }

    pub open spec fn spec_op_add(self, loc: ByteLoc, use_carry: bool) -> (CpuV, u32) {
        let rv = self.spec_read_byte(loc);
        (
            CpuV { regs: spec_alu_add(rv.0.regs, rv.1, use_carry), ..rv.0 },
            (4 + spec_loc_extra(loc)) as u32,
        )
    }

    pub open spec fn spec_op_sub(self, loc: ByteLoc, use_carry: bool, keep_a: bool) -> (
        CpuV,
        u32,
    ) {
        let rv = self.spec_read_byte(loc);
        (
            CpuV { regs: spec_alu_sub(rv.0.regs, rv.1, use_carry, keep_a), ..rv.0 },
            (4 + spec_loc_extra(loc)) as u32,
        )
    }

    pub open spec fn spec_op_or(self, loc: ByteLoc) -> (CpuV, u32) {
        let rv = self.spec_read_byte(loc);
        let out = rv.0.regs.a | rv.1;
        (
            CpuV {
                regs: Registers { a: out, f: mk_f(out == 0, false, false, false), ..rv.0.regs },
                ..rv.0
            },
            (4 + spec_loc_extra(loc)) as u32,
        )
    }

    pub open spec fn spec_op_xor(self, loc: ByteLoc) -> (CpuV, u32) {
        let rv = self.spec_read_byte(loc);
        let out = rv.0.regs.a ^ rv.1;
        (
            CpuV {
                regs: Registers { a: out, f: mk_f(out == 0, false, false, false), ..rv.0.regs },
                ..rv.0
            },
            (4 + spec_loc_extra(loc)) as u32,
        )
    }

    pub open spec fn spec_op_and(self, loc: ByteLoc) -> (CpuV, u32) {
        let rv = self.spec_read_byte(loc);
        let out = rv.0.regs.a & rv.1;
        (
            CpuV {
                regs: Registers { a: out, f: mk_f(out == 0, false, true, false), ..rv.0.regs },
                ..rv.0
            },
            (4 + spec_loc_extra(loc)) as u32,
        )
    }

    pub open spec fn spec_op_cpl(self) -> (CpuV, u32) {
        (
            CpuV {
                regs: Registers {
                    a: !self.regs.a,
                    f: mk_f(
                        spec_flag(self.regs.f, Flags::Z),
                        true,
                        true,
                        spec_flag(self.regs.f, Flags::C),
                    ),
                    ..self.regs
                },
                ..self
            },
            4u32,
        )
    }

    pub open spec fn spec_op_ccf(self) -> (CpuV, u32) {
        (
            self.with_f(
                mk_f(
                    spec_flag(self.regs.f, Flags::Z),
                    false,
                    false,
                    !spec_flag(self.regs.f, Flags::C),
                ),
            ),
            4u32,
        )
    }

    pub open spec fn spec_op_scf(self) -> (CpuV, u32) {
        (self.with_f(mk_f(spec_flag(self.regs.f, Flags::Z), false, false, true)), 4u32)
    }

    pub open spec fn spec_op_jp(self, src: WordSrc) -> (CpuV, u32) {
        let sv = spec_word_src(self, src);
        (
            CpuV { regs: Registers { pc: sv.1, ..sv.0.regs }, ..sv.0 },
            match src {
                WordSrc::Imm => 16u32,
                WordSrc::Reg(_) => 4u32,
            },
        )
    }

    pub open spec fn spec_op_jp_cond(self, cond: Condition) -> (CpuV, u32) {
        let fv = self.spec_fetchw();
        if cond.spec_test(fv.0.regs.f) {
            (CpuV { regs: Registers { pc: fv.1, ..fv.0.regs }, ..fv.0 }, 16u32)
        } else {
            (fv.0, 12u32)
        }
    }

    pub open spec fn spec_op_jr(self) -> (CpuV, u32) {
        let fv = self.spec_fetchb();
        (
            CpuV {
                regs: Registers { pc: wrap16(fv.0.regs.pc + spec_signed(fv.1)), ..fv.0.regs },
                ..fv.0
            },
            12u32,
        )
    }

    pub open spec fn spec_op_jr_cond(self, cond: Condition) -> (CpuV, u32) {
        let fv = self.spec_fetchb();
        if cond.spec_test(fv.0.regs.f) {
            (
                CpuV {
                    regs: Registers {
                        pc: wrap16(fv.0.regs.pc + spec_signed(fv.1)),
                        ..fv.0.regs
                    },
                    ..fv.0
                },
                12u32,
            )
        } else {
            (fv.0, 8u32)
        }
    }

    pub open spec fn spec_op_push(self, reg: RegsW) -> (CpuV, u32) {
        (self.spec_pushw(self.regs.spec_readw(reg)), 16u32)
    }

    pub open spec fn spec_op_pop(self, reg: RegsW) -> (CpuV, u32) {
        let pv = self.spec_popw();
        (CpuV { regs: pv.0.regs.spec_writew(reg, pv.1), ..pv.0 }, 12u32)
    }

    pub open spec fn spec_op_call(self) -> (CpuV, u32) {
        let fv = self.spec_fetchw();
        let pushed = fv.0.spec_pushw(fv.0.regs.pc);
        (CpuV { regs: Registers { pc: fv.1, ..pushed.regs }, ..pushed }, 24u32)
    }

    pub open spec fn spec_op_call_cond(self, cond: Condition) -> (CpuV, u32) {
        let fv = self.spec_fetchw();
        if cond.spec_test(fv.0.regs.f) {
            let pushed = fv.0.spec_pushw(fv.0.regs.pc);
            (CpuV { regs: Registers { pc: fv.1, ..pushed.regs }, ..pushed }, 24u32)
        } else {
            (fv.0, 12u32)
        }
    }

    pub open spec fn spec_op_ret(self) -> (CpuV, u32) {
        let pv = self.spec_popw();
        (CpuV { regs: Registers { pc: pv.1, ..pv.0.regs }, ..pv.0 }, 16u32)
    }

    pub open spec fn spec_op_reti(self) -> (CpuV, u32) {
        let c1 = CpuV {
            interconnect: InterconnectV {
                ic: crate::interrupt::InterruptController { ime: true, ..self.interconnect.ic },
                ..self.interconnect
            },
            ..self
        };
        let pv = c1.spec_popw();
        (CpuV { regs: Registers { pc: pv.1, ..pv.0.regs }, ..pv.0 }, 16u32)
    }

    pub open spec fn spec_op_ret_cond(self, cond: Condition) -> (CpuV, u32) {
        if cond.spec_test(self.regs.f) {
            let pv = self.spec_popw();
            (CpuV { regs: Registers { pc: pv.1, ..pv.0.regs }, ..pv.0 }, 20u32)
        } else {
            (self, 8u32)
        }
    }

    pub open spec fn spec_op_rst(self, addr: u8) -> (CpuV, u32) {
        let pushed = self.spec_pushw(self.regs.pc);
        (CpuV { regs: Registers { pc: addr as u16, ..pushed.regs }, ..pushed }, 16u32)
    }

    pub open spec fn spec_op_ei(self) -> (CpuV, u32) {
        (
            CpuV {
                interconnect: InterconnectV {
                    ic: crate::interrupt::InterruptController {
                        ime: true,
                        ..self.interconnect.ic
                    },
                    ..self.interconnect
                },
                ..self
            },
            4u32,
        )
    }

    pub open spec fn spec_op_di(self) -> (CpuV, u32) {
        (
            CpuV {
                interconnect: InterconnectV {
                    ic: crate::interrupt::InterruptController {
                        ime: false,
                        ..self.interconnect.ic
                    },
                    ..self.interconnect
                },
                ..self
            },
            4u32,
        )
    }

    /// RLCA, RLA, RRCA and RRA: rotates of A with Z cleared.
    pub open spec fn spec_op_rot_a(self, dir: RotateDir, through_carry: bool) -> (CpuV, u32) {
        (
            CpuV {
                regs: Registers {
                    a: spec_rot(self.regs.a, dir, through_carry, spec_flag(self.regs.f, Flags::C)),
                    f: mk_f(false, false, false, spec_rot_carry(self.regs.a, dir)),
                    ..self.regs
                },
                ..self
            },
            4u32,
        )
    }

    /// The CB rotates: RLC, RRC, RL and RR, with Z from the result.
    pub open spec fn spec_op_cb_rot(self, loc: ByteLoc, dir: RotateDir, through_carry: bool) -> (
        CpuV,
        u32,
    ) {
        let rv = self.spec_read_byte(loc);
        let out = spec_rot(rv.1, dir, through_carry, spec_flag(rv.0.regs.f, Flags::C));
        (
            rv.0.with_f(
                mk_f(out == 0, false, false, spec_rot_carry(rv.1, dir)),
            ).spec_write_byte(loc, out),
            (8 + 2 * spec_loc_extra(loc)) as u32,
        )
    }

    /// The CB shifts: SLA, SRA and SRL.
    pub open spec fn spec_op_cb_shift(self, loc: ByteLoc, dir: RotateDir, preserve_msb: bool) -> (
        CpuV,
        u32,
    ) {
        let rv = self.spec_read_byte(loc);
        let out = spec_shift(rv.1, dir, preserve_msb);
        (
            rv.0.with_f(
                mk_f(out == 0, false, false, spec_rot_carry(rv.1, dir)),
            ).spec_write_byte(loc, out),
            (8 + 2 * spec_loc_extra(loc)) as u32,
        )
    }

    pub open spec fn spec_op_swap(self, loc: ByteLoc) -> (CpuV, u32) {
        let rv = self.spec_read_byte(loc);
        let out = ((rv.1 % 16) * 16 + rv.1 / 16) as u8;
        (
            rv.0.with_f(mk_f(out == 0, false, false, false)).spec_write_byte(loc, out),
            (8 + 2 * spec_loc_extra(loc)) as u32,
        )
    }

    pub open spec fn spec_op_bit(self, b: int, loc: ByteLoc) -> (CpuV, u32) {
        let rv = self.spec_read_byte(loc);
        (
            rv.0.with_f(
                mk_f(spec_bit_n(rv.1, b) == 0, false, true, spec_flag(rv.0.regs.f, Flags::C)),
            ),
            (8 + spec_loc_extra(loc)) as u32,
        )
    }

    pub open spec fn spec_op_setb(self, b: int, loc: ByteLoc) -> (CpuV, u32) {
        let rv = self.spec_read_byte(loc);
        (
            rv.0.spec_write_byte(loc, spec_set_bit(rv.1, b)),
            (8 + 2 * spec_loc_extra(loc)) as u32,
        )
    }

    pub open spec fn spec_op_resb(self, b: int, loc: ByteLoc) -> (CpuV, u32) {
        let rv = self.spec_read_byte(loc);
        (
            rv.0.spec_write_byte(loc, spec_res_bit(rv.1, b)),
            (8 + 2 * spec_loc_extra(loc)) as u32,
        )
    }

    // ----- the dispatchers, as specs -----

    /// The transition of one CB-prefixed opcode (the prefix and the opcode
    /// byte already fetched).
    #[verifier::opaque]
    pub open spec fn spec_cb_insn(self, op: u8) -> (CpuV, u32) {
        let loc = spec_operand(op as int % 8);
        if op < 0x08 {
            self.spec_op_cb_rot(loc, RotateDir::L, false)
        } else if op < 0x10 {
            self.spec_op_cb_rot(loc, RotateDir::R, false)
        } else if op < 0x18 {
            self.spec_op_cb_rot(loc, RotateDir::L, true)
        } else if op < 0x20 {
            self.spec_op_cb_rot(loc, RotateDir::R, true)
        } else if op < 0x28 {
            self.spec_op_cb_shift(loc, RotateDir::L, false)
        } else if op < 0x30 {
            self.spec_op_cb_shift(loc, RotateDir::R, true)
        } else if op < 0x38 {
            self.spec_op_swap(loc)
        } else if op < 0x40 {
            self.spec_op_cb_shift(loc, RotateDir::R, false)
        } else if op < 0x80 {
            self.spec_op_bit((op - 0x40) / 8, loc)
        } else if op < 0xC0 {
            self.spec_op_resb((op - 0x80) / 8, loc)
        } else {
            self.spec_op_setb((op - 0xC0) / 8, loc)
        }
    }

    /// The transition of one primary opcode (the opcode byte already
    /// fetched). For the opcodes this core does not implement the value is
    /// immaterial: `spec_unimplemented` marks them and `dexec` returns an
    /// error instead.
    #[verifier::opaque]
    pub open spec fn spec_insn(self, op: u8) -> (CpuV, u32) {
        if op < 0x40 {
            self.spec_insn_misc(op)
        } else if op < 0x80 {
            self.spec_insn_ld(op)
        } else if op < 0xC0 {
            self.spec_insn_alu(op)
        } else {
            self.spec_insn_ctrl(op)
        }
    }

    /// The 0x00..0x3F quadrant of `spec_insn`.
    #[verifier::opaque]
    pub open spec fn spec_insn_misc(self, op: u8) -> (CpuV, u32) {
        if op == 0x00 {
            self.spec_op_nop()
        } else if op == 0x01 {
            self.spec_op_ldw(RegsW::BC, WordSrc::Imm)
        } else if op == 0x02 {
            self.spec_op_ld(ByteLoc::Ind(IndirectAddr::BC), ByteLoc::Reg(RegsB::A))
        } else if op == 0x03 {
            self.spec_op_incw(RegsW::BC)
        } else if op == 0x04 {
            self.spec_op_inc(ByteLoc::Reg(RegsB::B))
        } else if op == 0x05 {
            self.spec_op_dec(ByteLoc::Reg(RegsB::B))
        } else if op == 0x06 {
            self.spec_op_ld(ByteLoc::Reg(RegsB::B), ByteLoc::Imm)
        } else if op == 0x07 {
            self.spec_op_rot_a(RotateDir::L, false)
        } else if op == 0x08 {
            self.spec_op_ldw_nn_sp()
        } else if op == 0x09 {
            self.spec_op_addw(RegsW::BC)
        } else if op == 0x0A {
            self.spec_op_ld(ByteLoc::Reg(RegsB::A), ByteLoc::Ind(IndirectAddr::BC))
        } else if op == 0x0B {
            self.spec_op_decw(RegsW::BC)
        } else if op == 0x0C {
            self.spec_op_inc(ByteLoc::Reg(RegsB::C))
        } else if op == 0x0D {
            self.spec_op_dec(ByteLoc::Reg(RegsB::C))
        } else if op == 0x0E {
            self.spec_op_ld(ByteLoc::Reg(RegsB::C), ByteLoc::Imm)
        } else if op == 0x0F {
            self.spec_op_rot_a(RotateDir::R, false)
        } else if op == 0x11 {
            self.spec_op_ldw(RegsW::DE, WordSrc::Imm)
        } else if op == 0x12 {
            self.spec_op_ld(ByteLoc::Ind(IndirectAddr::DE), ByteLoc::Reg(RegsB::A))
        } else if op == 0x13 {
            self.spec_op_incw(RegsW::DE)
        } else if op == 0x14 {
            self.spec_op_inc(ByteLoc::Reg(RegsB::D))
        } else if op == 0x15 {
            self.spec_op_dec(ByteLoc::Reg(RegsB::D))
        } else if op == 0x16 {
            self.spec_op_ld(ByteLoc::Reg(RegsB::D), ByteLoc::Imm)
        } else if op == 0x17 {
            self.spec_op_rot_a(RotateDir::L, true)
        } else if op == 0x18 {
            self.spec_op_jr()
        } else if op == 0x19 {
            self.spec_op_addw(RegsW::DE)
        } else if op == 0x1A {
            self.spec_op_ld(ByteLoc::Reg(RegsB::A), ByteLoc::Ind(IndirectAddr::DE))
        } else if op == 0x1B {
            self.spec_op_decw(RegsW::DE)
        } else if op == 0x1C {
            self.spec_op_inc(ByteLoc::Reg(RegsB::E))
        } else if op == 0x1D {
            self.spec_op_dec(ByteLoc::Reg(RegsB::E))
        } else if op == 0x1E {
            self.spec_op_ld(ByteLoc::Reg(RegsB::E), ByteLoc::Imm)
        } else if op == 0x1F {
            self.spec_op_rot_a(RotateDir::R, true)
        } else if op == 0x20 {
            self.spec_op_jr_cond(Condition::NZ)
        } else if op == 0x21 {
            self.spec_op_ldw(RegsW::HL, WordSrc::Imm)
        } else if op == 0x22 {
            self.spec_op_ld(ByteLoc::Ind(IndirectAddr::HLP), ByteLoc::Reg(RegsB::A))
        } else if op == 0x23 {
            self.spec_op_incw(RegsW::HL)
        } else if op == 0x24 {
            self.spec_op_inc(ByteLoc::Reg(RegsB::H))
        } else if op == 0x25 {
            self.spec_op_dec(ByteLoc::Reg(RegsB::H))
        } else if op == 0x26 {
            self.spec_op_ld(ByteLoc::Reg(RegsB::H), ByteLoc::Imm)
        } else if op == 0x28 {
            self.spec_op_jr_cond(Condition::Z)
        } else if op == 0x29 {
            self.spec_op_addw(RegsW::HL)
        } else if op == 0x2A {
            self.spec_op_ld(ByteLoc::Reg(RegsB::A), ByteLoc::Ind(IndirectAddr::HLP))
        } else if op == 0x2B {
            self.spec_op_decw(RegsW::HL)
        } else if op == 0x2C {
            self.spec_op_inc(ByteLoc::Reg(RegsB::L))
        } else if op == 0x2D {
            self.spec_op_dec(ByteLoc::Reg(RegsB::L))
        } else if op == 0x2E {
            self.spec_op_ld(ByteLoc::Reg(RegsB::L), ByteLoc::Imm)
        } else if op == 0x2F {
            self.spec_op_cpl()
        } else if op == 0x30 {
            self.spec_op_jr_cond(Condition::NC)
        } else if op == 0x31 {
            self.spec_op_ldw(RegsW::SP, WordSrc::Imm)
        } else if op == 0x32 {
            self.spec_op_ld(ByteLoc::Ind(IndirectAddr::HLM), ByteLoc::Reg(RegsB::A))
        } else if op == 0x33 {
            self.spec_op_incw(RegsW::SP)
        } else if op == 0x34 {
            self.spec_op_inc(ByteLoc::Ind(IndirectAddr::HL))
        } else if op == 0x35 {
            self.spec_op_dec(ByteLoc::Ind(IndirectAddr::HL))
        } else if op == 0x36 {
            self.spec_op_ld(ByteLoc::Ind(IndirectAddr::HL), ByteLoc::Imm)
        } else if op == 0x37 {
            self.spec_op_scf()
        } else if op == 0x38 {
            self.spec_op_jr_cond(Condition::C)
        } else if op == 0x39 {
            self.spec_op_addw(RegsW::SP)
        } else if op == 0x3A {
            self.spec_op_ld(ByteLoc::Reg(RegsB::A), ByteLoc::Ind(IndirectAddr::HLM))
        } else if op == 0x3B {
            self.spec_op_decw(RegsW::SP)
        } else if op == 0x3C {
            self.spec_op_inc(ByteLoc::Reg(RegsB::A))
        } else if op == 0x3D {
            self.spec_op_dec(ByteLoc::Reg(RegsB::A))
        } else if op == 0x3E {
            self.spec_op_ld(ByteLoc::Reg(RegsB::A), ByteLoc::Imm)
        } else if op == 0x3F {
            self.spec_op_ccf()
        } else {
            (self, 0u32)
        }
    }

    /// The 0x40..0x7F quadrant of `spec_insn`: the loads.
    #[verifier::opaque]
    pub open spec fn spec_insn_ld(self, op: u8) -> (CpuV, u32) {
        if op == 0x76 {
            (self, 0u32)
        } else {
            self.spec_op_ld(
                spec_operand((op - 0x40) / 8),
                spec_operand(op as int % 8),
            )
        }
    }

    /// The 0x80..0xBF quadrant of `spec_insn`: the eight-bit ALU.
    #[verifier::opaque]
    pub open spec fn spec_insn_alu(self, op: u8) -> (CpuV, u32) {
        let loc = spec_operand(op as int % 8);
        if op < 0x88 {
            self.spec_op_add(loc, false)
        } else if op < 0x90 {
            self.spec_op_add(loc, true)
        } else if op < 0x98 {
            self.spec_op_sub(loc, false, false)
        } else if op < 0xA0 {
            self.spec_op_sub(loc, true, false)
        } else if op < 0xA8 {
            self.spec_op_and(loc)
        } else if op < 0xB0 {
            self.spec_op_xor(loc)
        } else if op < 0xB8 {
            self.spec_op_or(loc)
        } else {
            self.spec_op_sub(loc, false, true)
        }
    }

    /// The 0xC0..0xFF quadrant of `spec_insn`: control flow, stack, the CB
    /// prefix and the remaining loads.
    #[verifier::opaque]
    pub open spec fn spec_insn_ctrl(self, op: u8) -> (CpuV, u32) {
        if op == 0xC0 {
            self.spec_op_ret_cond(Condition::NZ)
        } else if op == 0xC1 {
            self.spec_op_pop(RegsW::BC)
        } else if op == 0xC2 {
            self.spec_op_jp_cond(Condition::NZ)
        } else if op == 0xC3 {
            self.spec_op_jp(WordSrc::Imm)
        } else if op == 0xC4 {
            self.spec_op_call_cond(Condition::NZ)
        } else if op == 0xC5 {
            self.spec_op_push(RegsW::BC)
        } else if op == 0xC6 {
            self.spec_op_add(ByteLoc::Imm, false)
        } else if op == 0xC7 {
            self.spec_op_rst(0x00)
        } else if op == 0xC8 {
            self.spec_op_ret_cond(Condition::Z)
        } else if op == 0xC9 {
            self.spec_op_ret()
        } else if op == 0xCA {
            self.spec_op_jp_cond(Condition::Z)
        } else if op == 0xCB {
            let f = self.spec_fetchb();
            f.0.spec_cb_insn(f.1)
        } else if op == 0xCC {
            self.spec_op_call_cond(Condition::Z)
        } else if op == 0xCD {
            self.spec_op_call()
        } else if op == 0xCE {
            self.spec_op_add(ByteLoc::Imm, true)
        } else if op == 0xCF {
            self.spec_op_rst(0x08)
        } else if op == 0xD0 {
            self.spec_op_ret_cond(Condition::NC)
        } else if op == 0xD1 {
            self.spec_op_pop(RegsW::DE)
        } else if op == 0xD2 {
            self.spec_op_jp_cond(Condition::NC)
        } else if op == 0xD4 {
            self.spec_op_call_cond(Condition::NC)
        } else if op == 0xD5 {
            self.spec_op_push(RegsW::DE)
        } else if op == 0xD6 {
            self.spec_op_sub(ByteLoc::Imm, false, false)
        } else if op == 0xD7 {
            self.spec_op_rst(0x10)
        } else if op == 0xD8 {
            self.spec_op_ret_cond(Condition::C)
        } else if op == 0xD9 {
            self.spec_op_reti()
        } else if op == 0xDA {
            self.spec_op_jp_cond(Condition::C)
        } else if op == 0xDC {
            self.spec_op_call_cond(Condition::C)
        } else if op == 0xDE {
            self.spec_op_sub(ByteLoc::Imm, true, false)
        } else if op == 0xDF {
            self.spec_op_rst(0x18)
        } else if op == 0xE0 {
            self.spec_op_ld(ByteLoc::Ind(IndirectAddr::ZeroPage), ByteLoc::Reg(RegsB::A))
        } else if op == 0xE1 {
            self.spec_op_pop(RegsW::HL)
        } else if op == 0xE2 {
            self.spec_op_ld(ByteLoc::Ind(IndirectAddr::ZeroPageC), ByteLoc::Reg(RegsB::A))
        } else if op == 0xE5 {
            self.spec_op_push(RegsW::HL)
        } else if op == 0xE6 {
            self.spec_op_and(ByteLoc::Imm)
        } else if op == 0xE7 {
            self.spec_op_rst(0x20)
        } else if op == 0xE8 {
            self.spec_op_addw_sp()
        } else if op == 0xE9 {
            self.spec_op_jp(WordSrc::Reg(RegsW::HL))
        } else if op == 0xEA {
            self.spec_op_ld(ByteLoc::Ind(IndirectAddr::AddressW), ByteLoc::Reg(RegsB::A))
        } else if op == 0xEE {
            self.spec_op_xor(ByteLoc::Imm)
        } else if op == 0xEF {
            self.spec_op_rst(0x28)
        } else if op == 0xF0 {
            self.spec_op_ld(ByteLoc::Reg(RegsB::A), ByteLoc::Ind(IndirectAddr::ZeroPage))
        } else if op == 0xF1 {
            self.spec_op_pop(RegsW::AF)
        } else if op == 0xF2 {
            self.spec_op_ld(ByteLoc::Reg(RegsB::A), ByteLoc::Ind(IndirectAddr::ZeroPageC))
        } else if op == 0xF3 {
            self.spec_op_di()
        } else if op == 0xF5 {
            self.spec_op_push(RegsW::AF)
        } else if op == 0xF6 {
            self.spec_op_or(ByteLoc::Imm)
        } else if op == 0xF7 {
            self.spec_op_rst(0x30)
        } else if op == 0xF8 {
            self.spec_op_ldw_hl_sp()
        } else if op == 0xF9 {
            self.spec_op_ldw(RegsW::SP, WordSrc::Reg(RegsW::HL))
        } else if op == 0xFA {
            self.spec_op_ld(ByteLoc::Reg(RegsB::A), ByteLoc::Ind(IndirectAddr::AddressW))
        } else if op == 0xFB {
            self.spec_op_ei()
        } else if op == 0xFE {
            self.spec_op_sub(ByteLoc::Imm, false, true)
        } else if op == 0xFF {
            self.spec_op_rst(0x38)
        } else {
            (self, 0u32)
        }
    }
}

/// ALU add: `A + val (+ carry)`, flags Z 0 H C.
pub open spec fn spec_alu_add(regs: Registers, val: u8, use_carry: bool) -> Registers {
    let cin: int = if use_carry && spec_flag(regs.f, Flags::C) {
        1
    } else {
        0
    };
    let sum = regs.a + val + cin;
    let out = wrap8(sum);
    Registers {
        a: out,
        f: mk_f(out == 0, false, regs.a % 16 + val % 16 + cin > 15, sum > 255),
        ..regs
    }
}

/// ALU subtract: `A - val (- carry)`, flags Z 1 H C; CP leaves A alone.
pub open spec fn spec_alu_sub(regs: Registers, val: u8, use_carry: bool, keep_a: bool) -> Registers {
    let cin: int = if use_carry && spec_flag(regs.f, Flags::C) {
        1
    } else {
        0
    };
    let out = wrap8(regs.a - val - cin);
    Registers {
        a: if keep_a {
            regs.a
        } else {
            out
        },
        f: mk_f(out == 0, true, regs.a % 16 < val % 16 + cin, (regs.a as int) < val + cin),
        ..regs
    }
}

/// A rotate through or around the carry, one bit in the given direction.
pub open spec fn spec_rot(v: u8, dir: RotateDir, through_carry: bool, cin: bool) -> u8 {
    match dir {
        RotateDir::L => {
            let top: int = if through_carry {
                if cin {
                    1
                } else {
                    0
                }
            } else {
                v as int / 128
            };
            (((v as int * 2) % 256) + top) as u8
        },
        RotateDir::R => {
            let top: int = if through_carry {
                if cin {
                    128
                } else {
                    0
                }
            } else {
                (v as int % 2) * 128
            };
            (v / 2 + top) as u8
        },
    }
}

/// The carry a rotate or shift pushes out: bit 7 leftward, bit 0 rightward.
pub open spec fn spec_rot_carry(v: u8, dir: RotateDir) -> bool {
    match dir {
        RotateDir::L => v >= 128,
        RotateDir::R => v % 2 == 1,
    }
}

/// A shift one bit in the given direction; SRA keeps the sign bit.
pub open spec fn spec_shift(v: u8, dir: RotateDir, preserve_msb: bool) -> u8 {
    match dir {
        RotateDir::L => ((v as int * 2) % 256) as u8,
        RotateDir::R => (v / 2 + (if preserve_msb {
            (v / 128) * 128
        } else {
            0int
        })) as u8,
    }
}

/// The extra T-cycles a byte operand costs over the register form.
pub open spec fn spec_loc_extra(loc: ByteLoc) -> u32 {
    match loc {
        ByteLoc::Reg(_) => 0,
        ByteLoc::Imm => 4,
        ByteLoc::Ind(ia) => match ia {
            IndirectAddr::ZeroPage => 8,
            IndirectAddr::AddressW => 12,
            _ => 4,
        },
    }
}

impl Cpu {
    pub open spec fn wf(self) -> bool {
        self.interconnect.wf()
    }

    /// Builds the CPU around a bus. Without a boot ROM the registers take
    /// the standard post-boot values, PC starting at 0x0100.
    pub fn new(interconnect: Interconnect) -> (r: Cpu)
        requires
            interconnect.wf(),
        ensures
            r.wf(),
            r.interconnect == interconnect,
            r.clk.cycles == 0,
            (interconnect.brom.buf matches Some(_)) ==> r.regs == (Registers {
                a: 0,
                b: 0,
                c: 0,
                d: 0,
                e: 0,
                f: 0,
                h: 0,
                l: 0,
                pc: 0,
                sp: 0,
            }),
            (interconnect.brom.buf matches None) ==> r.regs == (Registers {
                a: 0x01,
                f: 0xB0,
                b: 0x00,
                c: 0x13,
                d: 0x00,
                e: 0xD8,
                h: 0x01,
                l: 0x4D,
                sp: 0xFFFE,
                pc: 0x0100,
            }),
    {
        let mut cpu = Cpu {
            clk: Clock { cycles: 0 },
            regs: Registers { a: 0, b: 0, c: 0, d: 0, e: 0, f: 0, h: 0, l: 0, pc: 0, sp: 0 },
            interconnect,
        };
        if !cpu.interconnect.brom.is_used() {
            cpu.fake_boot_regs();
        }
        cpu
    }

    /// The register values a real boot ROM leaves behind.
    fn fake_boot_regs(&mut self)
        ensures
            final(self).regs == (Registers {
                a: 0x01,
                f: 0xB0,
                b: 0x00,
                c: 0x13,
                d: 0x00,
                e: 0xD8,
                h: 0x01,
                l: 0x4D,
                sp: 0xFFFE,
                pc: 0x0100,
            }),
            final(self).interconnect == old(self).interconnect,
            final(self).clk == old(self).clk,
    {
        self.regs.writew(RegsW::AF, 0x01B0);
        self.regs.writew(RegsW::BC, 0x0013);
        self.regs.writew(RegsW::DE, 0x00D8);
        self.regs.writew(RegsW::HL, 0x014D);
        self.regs.writew(RegsW::SP, 0xFFFE);
        self.regs.writew(RegsW::PC, 0x0100);
    }

    pub fn set_flag(&mut self, flag: Flags, enable: bool)
        ensures
            final(self).regs.f == spec_set_flag(old(self).regs.f, flag, enable),
            *final(self) == (Cpu {
                regs: Registers { f: final(self).regs.f, ..old(self).regs },
                ..*old(self)
            }),
    {
        let bit = flag.mask();
        self.regs.f = if enable {
            self.regs.f | bit
        } else {
            self.regs.f & !bit
        };
    }

    pub fn check_flag(&self, flag: Flags) -> (r: bool)
        ensures
            r == spec_flag(self.regs.f, flag),
    {
        self.regs.f & flag.mask() > 0
    }

    /// Sets all four flags at once; the lower nibble of F stays zero.
    fn set_znhc(&mut self, z: bool, n: bool, h: bool, c: bool)
        ensures
            final(self).regs.f == mk_f(z, n, h, c),
            *final(self) == (Cpu {
                regs: Registers { f: final(self).regs.f, ..old(self).regs },
                ..*old(self)
            }),
    {
        let mut f: u8 = 0;
        if z {
            f = f + 0x80;
        }
        if n {
            f = f + 0x40;
        }
        if h {
            f = f + 0x20;
        }
        if c {
            f = f + 0x10;
        }
        self.regs.f = f;
    }

    /// Fetches the byte at PC and advances PC.
    pub fn fetchb(&mut self) -> (v: u8)
        requires
            old(self).wf(),
        ensures
            final(self).wf(),
            (final(self)@, v) == old(self)@.spec_fetchb(),
    {
        let v = self.interconnect.readb(self.regs.pc);
        self.regs.pc = wrap_add16(self.regs.pc, 1);
        v
    }

    /// Fetches a little-endian word at PC and advances PC by two.
    pub fn fetchw(&mut self) -> (v: u16)
        requires
            old(self).wf(),
        ensures
            final(self).wf(),
            (final(self)@, v) == old(self)@.spec_fetchw(),
    {
        let v = self.interconnect.readw(self.regs.pc);
        self.regs.pc = wrap_add16(self.regs.pc, 2);
        v
    }

    /// The effective address of an indirect operand (may fetch or step HL).
    pub fn iaddr(&mut self, ia: IndirectAddr) -> (addr: u16)
        requires
            old(self).wf(),
        ensures
            final(self).wf(),
            (final(self)@, addr) == old(self)@.spec_iaddr(ia),
    {
        match ia {
            IndirectAddr::SP => self.regs.readw(RegsW::SP),
            IndirectAddr::AF => self.regs.readw(RegsW::AF),
            IndirectAddr::BC => self.regs.readw(RegsW::BC),
            IndirectAddr::DE => self.regs.readw(RegsW::DE),
            IndirectAddr::HL => self.regs.readw(RegsW::HL),
            IndirectAddr::HLP => {
                let val = self.regs.readw(RegsW::HL);
                self.regs.writew(RegsW::HL, wrap_add16(val, 1));
                val
            },
            IndirectAddr::HLM => {
                let val = self.regs.readw(RegsW::HL);
                self.regs.writew(RegsW::HL, wrap_sub16(val, 1));
                val
            },
            IndirectAddr::ZeroPage => {
                let n = self.fetchb();
                0xFF00 + n as u16
            },
            IndirectAddr::ZeroPageC => 0xFF00 + self.regs.c as u16,
            IndirectAddr::AddressW => self.fetchw(),
        }
    }

    /// Reads a byte operand.
    fn read_byte_loc(&mut self, loc: ByteLoc) -> (v: u8)
        requires
            old(self).wf(),
        ensures
            final(self).wf(),
            (final(self)@, v) == old(self)@.spec_read_byte(loc),
    {
        match loc {
            ByteLoc::Reg(r) => self.regs.readb(r),
            ByteLoc::Imm => self.fetchb(),
            ByteLoc::Ind(ia) => {
                let addr = self.iaddr(ia);
                self.interconnect.readb(addr)
            },
        }
    }

    /// Writes a byte operand.
    fn write_byte_loc(&mut self, loc: ByteLoc, val: u8)
        requires
            old(self).wf(),
        ensures
            final(self).wf(),
            final(self)@ == old(self)@.spec_write_byte(loc, val),
    {
        match loc {
            ByteLoc::Reg(r) => self.regs.writeb(r, val),
            ByteLoc::Imm => {},
            ByteLoc::Ind(ia) => {
                let addr = self.iaddr(ia);
                self.interconnect.writeb(addr, val);
            },
        }
    }

    fn pushw(&mut self, val: u16)
        requires
            old(self).wf(),
        ensures
            final(self).wf(),
            final(self)@ == old(self)@.spec_pushw(val),
    {
        let sp = wrap_sub16(self.regs.sp, 2);
        self.regs.sp = sp;
        self.interconnect.writew(sp, val);
    }

    fn popw(&mut self) -> (v: u16)
        requires
            old(self).wf(),
        ensures
            final(self).wf(),
            (final(self)@, v) == old(self)@.spec_popw(),
    {
        let sp = self.regs.sp;
        let lo = self.interconnect.readb(sp) as u16;
        let hi = self.interconnect.readb(wrap_add16(sp, 1)) as u16;
        self.regs.sp = wrap_add16(sp, 2);
        lo + 256 * hi
    }
}

/// The opcodes this core leaves unimplemented: STOP, DAA, HALT and the
/// eleven holes of the primary table.
pub open spec fn spec_unimplemented(op: u8) -> bool {
    op == 0x10 || op == 0x27 || op == 0x76 || op == 0xD3 || op == 0xDB || op == 0xDD || op == 0xE3
        || op == 0xE4 || op == 0xEB || op == 0xEC || op == 0xED || op == 0xF4 || op == 0xFC || op
        == 0xFD
}

/// The state and value after reading a word source.
pub open spec fn spec_word_src(c: CpuV, src: WordSrc) -> (CpuV, u16) {
    match src {
        WordSrc::Reg(r) => (c, c.regs.spec_readw(r)),
        WordSrc::Imm => c.spec_fetchw(),
    }
}

/// The sign extension of a byte, as an integer displacement.
pub open spec fn spec_signed(v: u8) -> int {
    if v < 128 {
        v as int
    } else {
        v - 256
    }
}

/// Bit `b` of `v`, as 0 or 1.
pub open spec fn spec_bit_n(v: u8, b: int) -> int {
    if b == 0 {
        (v as int) % 2
    } else if b == 1 {
        ((v as int) / 2) % 2
    } else if b == 2 {
        ((v as int) / 4) % 2
    } else if b == 3 {
        ((v as int) / 8) % 2
    } else if b == 4 {
        ((v as int) / 16) % 2
    } else if b == 5 {
        ((v as int) / 32) % 2
    } else if b == 6 {
        ((v as int) / 64) % 2
    } else {
        ((v as int) / 128) % 2
    }
}

/// The power of two with bit `b` set.
pub open spec fn spec_bit_mask(b: int) -> u8 {
    if b == 0 {
        1
    } else if b == 1 {
        2
    } else if b == 2 {
        4
    } else if b == 3 {
        8
    } else if b == 4 {
        16
    } else if b == 5 {
        32
    } else if b == 6 {
        64
    } else {
        128
    }
}

/// `v` with bit `b` set.
pub open spec fn spec_set_bit(v: u8, b: int) -> u8 {
    if spec_bit_n(v, b) == 1 {
        v
    } else {
        (v + spec_bit_mask(b)) as u8
    }
}

/// `v` with bit `b` cleared.
pub open spec fn spec_res_bit(v: u8, b: int) -> u8 {
    if spec_bit_n(v, b) == 1 {
        (v - spec_bit_mask(b)) as u8
    } else {
        v
    }
}

fn bit_mask_of(b: u8) -> (r: u8)
    requires
        b < 8,
    ensures
        r == spec_bit_mask(b as int),
{
    if b == 0 {
        1
    } else if b == 1 {
        2
    } else if b == 2 {
        4
    } else if b == 3 {
        8
    } else if b == 4 {
        16
    } else if b == 5 {
        32
    } else if b == 6 {
        64
    } else {
        128
    }
}

fn bit_n_of(v: u8, b: u8) -> (r: u8)
    requires
        b < 8,
    ensures
        r == spec_bit_n(v, b as int),
        r < 2,
{
    if b == 0 {
        v % 2
    } else if b == 1 {
        (v / 2) % 2
    } else if b == 2 {
        (v / 4) % 2
    } else if b == 3 {
        (v / 8) % 2
    } else if b == 4 {
        (v / 16) % 2
    } else if b == 5 {
        (v / 32) % 2
    } else if b == 6 {
        (v / 64) % 2
    } else {
        v / 128
    }
}

fn set_bit_of(v: u8, b: u8) -> (r: u8)
    requires
        b < 8,
    ensures
        r == spec_set_bit(v, b as int),
{
    let m = bit_mask_of(b);
    if bit_n_of(v, b) == 1 {
        v
    } else {
        proof {
            lemma_bit_clear_add(v, b as int);
        }
        v + m
    }
}

fn res_bit_of(v: u8, b: u8) -> (r: u8)
    requires
        b < 8,
    ensures
        r == spec_res_bit(v, b as int),
{
    let m = bit_mask_of(b);
    if bit_n_of(v, b) == 1 {
        v - m
    } else {
        v
    }
}

/// Adding a power of two whose bit is clear cannot overflow a byte.
proof fn lemma_bit_clear_add(v: u8, b: int)
    requires
        0 <= b < 8,
        spec_bit_n(v, b) == 0,
    ensures
        v + spec_bit_mask(b) <= 255,
{
}

impl Cpu {
    // ----- 16-bit loads and arithmetic -----

    /// INC ss.
    pub fn incw(&mut self, reg: RegsW) -> (cyc: u32)
        ensures
            (final(self)@, cyc) == old(self)@.spec_op_incw(reg),
            final(self).clk == old(self).clk,
            *final(self) == (Cpu {
                regs: old(self).regs.spec_writew(
                    reg,
                    wrap16(old(self).regs.spec_readw(reg) + 1),
                ),
                ..*old(self)
            }),
    {
        let val = wrap_add16(self.regs.readw(reg), 1);
        self.regs.writew(reg, val);
        8
    }

    /// DEC ss.
    pub fn decw(&mut self, reg: RegsW) -> (cyc: u32)
        ensures
            (final(self)@, cyc) == old(self)@.spec_op_decw(reg),
            final(self).clk == old(self).clk,
            *final(self) == (Cpu {
                regs: old(self).regs.spec_writew(
                    reg,
                    wrap16(old(self).regs.spec_readw(reg) - 1),
                ),
                ..*old(self)
            }),
    {
        let val = wrap_sub16(self.regs.readw(reg), 1);
        self.regs.writew(reg, val);
        8
    }

    /// LD dd nn | dd d16.
    pub fn ldw(&mut self, dd: RegsW, src: WordSrc) -> (cyc: u32)
        requires
            old(self).wf(),
        ensures
            final(self).wf(),
            (final(self)@, cyc) == old(self)@.spec_op_ldw(dd, src),
            final(self).clk == old(self).clk,
    {
        let (v, cyc): (u16, u32) = match src {
            WordSrc::Reg(r) => (self.regs.readw(r), 8),
            WordSrc::Imm => (self.fetchw(), 12),
        };
        self.regs.writew(dd, v);
        cyc
    }

    /// LD (nn) SP.
    pub fn ldw_nn_sp(&mut self) -> (cyc: u32)
        requires
            old(self).wf(),
        ensures
            final(self).wf(),
            (final(self)@, cyc) == old(self)@.spec_op_ldw_nn_sp(),
            final(self).clk == old(self).clk,
    {
        let addr = self.fetchw();
        let sp = self.regs.readw(RegsW::SP);
        self.interconnect.writew(addr, sp);
        20
    }

    /// LD HL SP+e: H and C come from the low byte as if unsigned.
    pub fn ldw_hl_sp(&mut self) -> (cyc: u32)
        requires
            old(self).wf(),
        ensures
            final(self).wf(),
            (final(self)@, cyc) == old(self)@.spec_op_ldw_hl_sp(),
            final(self).clk == old(self).clk,
    {
        let off = self.fetchb();
        let sp = self.regs.readw(RegsW::SP);
        let hl = if off < 128 {
            wrap_add16(sp, off as u16)
        } else {
            wrap_sub16(sp, 256 - off as u16)
        };
        self.regs.writew(RegsW::HL, hl);
        let h = sp % 16 + (off % 16) as u16 > 15;
        let c = sp % 256 + off as u16 > 255;
        self.set_znhc(false, false, h, c);
        proof {
            lemma_signed_wrap(sp, off);
        }
        12
    }

    /// ADD HL ss: N cleared, H from bit 11, C from bit 15, Z untouched.
    pub fn addw(&mut self, ss: RegsW) -> (cyc: u32)
        ensures
            (final(self)@, cyc) == old(self)@.spec_op_addw(ss),
            final(self).clk == old(self).clk,
            *final(self) == (Cpu { regs: final(self).regs, ..*old(self) }),
    {
        let hl = self.regs.readw(RegsW::HL);
        let v = self.regs.readw(ss);
        let z = self.check_flag(Flags::Z);
        self.set_znhc(z, false, hl % 0x800 + v % 0x800 > 0x7FF, hl as u32 + v as u32 > 0xFFFF);
        let out = wrap_add16(hl, v);
        self.regs.writew(RegsW::HL, out);
        8
    }

    /// ADD SP e: Z and N cleared, H and C from the low byte as if unsigned.
    pub fn addw_sp(&mut self) -> (cyc: u32)
        requires
            old(self).wf(),
        ensures
            final(self).wf(),
            (final(self)@, cyc) == old(self)@.spec_op_addw_sp(),
            final(self).clk == old(self).clk,
    {
        let off = self.fetchb();
        let sp = self.regs.readw(RegsW::SP);
        let out = if off < 128 {
            wrap_add16(sp, off as u16)
        } else {
            wrap_sub16(sp, 256 - off as u16)
        };
        let h = sp % 16 + (off % 16) as u16 > 15;
        let c = sp % 256 + off as u16 > 255;
        self.set_znhc(false, false, h, c);
        self.regs.writew(RegsW::SP, out);
        proof {
            lemma_signed_wrap(sp, off);
        }
        16
    }

    // ----- 8-bit loads, increments and arithmetic -----

    /// INC r | (HL): Z and H from the result, N cleared, C untouched.
    #[verifier::rlimit(100)]
    pub fn inc(&mut self, loc: ByteLoc) -> (cyc: u32)
        requires
            old(self).wf(),
        ensures
            final(self).wf(),
            (final(self)@, cyc) == old(self)@.spec_op_inc(loc),
            final(self).clk == old(self).clk,
    {
        let v = self.read_byte_loc(loc);
        let out = if v == 255 {
            0
        } else {
            v + 1
        };
        let c = self.check_flag(Flags::C);
        self.set_znhc(out == 0, false, out % 16 == 0, c);
        self.write_byte_loc(loc, out);
        match loc {
            ByteLoc::Reg(_) => 4,
            ByteLoc::Imm => 12,
            ByteLoc::Ind(ia) => match ia {
                IndirectAddr::ZeroPage => 20,
                IndirectAddr::AddressW => 28,
                _ => 12,
            },
        }
    }

    /// DEC r | (HL): Z and H from the result, N set, C untouched.
    #[verifier::rlimit(100)]
    pub fn dec(&mut self, loc: ByteLoc) -> (cyc: u32)
        requires
            old(self).wf(),
        ensures
            final(self).wf(),
            (final(self)@, cyc) == old(self)@.spec_op_dec(loc),
            final(self).clk == old(self).clk,
    {
        let ghost rv = old(self)@.spec_read_byte(loc);
        let v = self.read_byte_loc(loc);
        let out = if v == 0 {
            255
        } else {
            v - 1
        };
        proof {
            assert(out == wrap8(rv.1 - 1)) by {
                lemma_wrap8_small(rv.1 - 1);
            };
        }
        let c = self.check_flag(Flags::C);
        self.set_znhc(out == 0, true, out % 16 == 15, c);
        proof {
            assert(self@ == rv.0.with_f(
                mk_f(out == 0, true, out % 16 == 15, spec_flag(rv.0.regs.f, Flags::C)),
            ));
        }
        self.write_byte_loc(loc, out);
        match loc {
            ByteLoc::Reg(_) => 4,
            ByteLoc::Imm => 12,
            ByteLoc::Ind(ia) => match ia {
                IndirectAddr::ZeroPage => 20,
                IndirectAddr::AddressW => 28,
                _ => 12,
            },
        }
    }

    /// LD d s in all its byte forms.
    pub fn ld(&mut self, dst: ByteLoc, src: ByteLoc) -> (cyc: u32)
        requires
            old(self).wf(),
        ensures
            final(self).wf(),
            (final(self)@, cyc) == old(self)@.spec_op_ld(dst, src),
            final(self).clk == old(self).clk,
    {
        let v = self.read_byte_loc(src);
        self.write_byte_loc(dst, v);
        let ed: u32 = match dst {
            ByteLoc::Reg(_) => 0,
            ByteLoc::Imm => 4,
            ByteLoc::Ind(ia) => match ia {
                IndirectAddr::ZeroPage => 8,
                IndirectAddr::AddressW => 12,
                _ => 4,
            },
        };
        let es: u32 = match src {
            ByteLoc::Reg(_) => 0,
            ByteLoc::Imm => 4,
            ByteLoc::Ind(ia) => match ia {
                IndirectAddr::ZeroPage => 8,
                IndirectAddr::AddressW => 12,
                _ => 4,
            },
        };
        4 + ed + es
    }

    /// The shared body of ADD and ADC.
    fn apply_add(&mut self, val: u8, use_carry: bool)
        ensures
            *final(self) == (Cpu {
                regs: spec_alu_add(old(self).regs, val, use_carry),
                ..*old(self)
            }),
    {
        let a = self.regs.a;
        let cin: u8 = if use_carry && self.check_flag(Flags::C) {
            1
        } else {
            0
        };
        let sum: u16 = a as u16 + val as u16 + cin as u16;
        let out = (sum % 256) as u8;
        self.regs.a = out;
        self.set_znhc(out == 0, false, a % 16 + val % 16 + cin > 15, sum > 255);
        proof {
            lemma_wrap8_small(a + val + cin);
        }
    }

    /// The shared body of SUB, SBC and CP.
    fn apply_sub(&mut self, val: u8, use_carry: bool, keep_a: bool)
        ensures
            *final(self) == (Cpu {
                regs: spec_alu_sub(old(self).regs, val, use_carry, keep_a),
                ..*old(self)
            }),
    {
        let a = self.regs.a;
        let cin: u8 = if use_carry && self.check_flag(Flags::C) {
            1
        } else {
            0
        };
        let out: u8 = if a as u16 >= val as u16 + cin as u16 {
            a - val - cin
        } else {
            ((a as u16 + 256) - val as u16 - cin as u16) as u8
        };
        if !keep_a {
            self.regs.a = out;
        }
        self.set_znhc(
            out == 0,
            true,
            a % 16 < val % 16 + cin,
            (a as u16) < val as u16 + cin as u16,
        );
        proof {
            lemma_wrap8_small(a - val - cin);
        }
    }

    /// ADD s.
    pub fn add(&mut self, loc: ByteLoc) -> (cyc: u32)
        requires
            old(self).wf(),
        ensures
            final(self).wf(),
            (final(self)@, cyc) == old(self)@.spec_op_add(loc, false),
            final(self).clk == old(self).clk,
    {
        let v = self.read_byte_loc(loc);
        self.apply_add(v, false);
        self.loc_cycles(loc)
    }

    /// ADC s.
    pub fn adc(&mut self, loc: ByteLoc) -> (cyc: u32)
        requires
            old(self).wf(),
        ensures
            final(self).wf(),
            (final(self)@, cyc) == old(self)@.spec_op_add(loc, true),
            final(self).clk == old(self).clk,
    {
        let v = self.read_byte_loc(loc);
        self.apply_add(v, true);
        self.loc_cycles(loc)
    }

    /// SUB s.
    pub fn sub(&mut self, loc: ByteLoc) -> (cyc: u32)
        requires
            old(self).wf(),
        ensures
            final(self).wf(),
            (final(self)@, cyc) == old(self)@.spec_op_sub(loc, false, false),
            final(self).clk == old(self).clk,
    {
        let v = self.read_byte_loc(loc);
        self.apply_sub(v, false, false);
        self.loc_cycles(loc)
    }

    /// SBC s.
    pub fn sbc(&mut self, loc: ByteLoc) -> (cyc: u32)
        requires
            old(self).wf(),
        ensures
            final(self).wf(),
            (final(self)@, cyc) == old(self)@.spec_op_sub(loc, true, false),
            final(self).clk == old(self).clk,
    {
        let v = self.read_byte_loc(loc);
        self.apply_sub(v, true, false);
        self.loc_cycles(loc)
    }

    /// CP s: a subtraction that only sets the flags.
    pub fn cp(&mut self, loc: ByteLoc) -> (cyc: u32)
        requires
            old(self).wf(),
        ensures
            final(self).wf(),
            (final(self)@, cyc) == old(self)@.spec_op_sub(loc, false, true),
            final(self).clk == old(self).clk,
    {
        let v = self.read_byte_loc(loc);
        self.apply_sub(v, false, true);
        self.loc_cycles(loc)
    }

    /// OR s: Z from the result, N H C cleared.
    pub fn or(&mut self, loc: ByteLoc) -> (cyc: u32)
        requires
            old(self).wf(),
        ensures
            final(self).wf(),
            (final(self)@, cyc) == old(self)@.spec_op_or(loc),
            final(self).clk == old(self).clk,
    {
        let v = self.read_byte_loc(loc);
        let out = self.regs.a | v;
        self.regs.a = out;
        self.set_znhc(out == 0, false, false, false);
        self.loc_cycles(loc)
    }

    /// XOR s: Z from the result, N H C cleared.
    pub fn xor(&mut self, loc: ByteLoc) -> (cyc: u32)
        requires
            old(self).wf(),
        ensures
            final(self).wf(),
            (final(self)@, cyc) == old(self)@.spec_op_xor(loc),
            final(self).clk == old(self).clk,
    {
        let v = self.read_byte_loc(loc);
        let out = self.regs.a ^ v;
        self.regs.a = out;
        self.set_znhc(out == 0, false, false, false);
        self.loc_cycles(loc)
    }

    /// AND s: Z from the result, H set, N and C cleared.
    pub fn and(&mut self, loc: ByteLoc) -> (cyc: u32)
        requires
            old(self).wf(),
        ensures
            final(self).wf(),
            (final(self)@, cyc) == old(self)@.spec_op_and(loc),
            final(self).clk == old(self).clk,
    {
        let v = self.read_byte_loc(loc);
        let out = self.regs.a & v;
        self.regs.a = out;
        self.set_znhc(out == 0, false, true, false);
        self.loc_cycles(loc)
    }

    /// The T-cycles of a read-only ALU operation on this operand.
    fn loc_cycles(&self, loc: ByteLoc) -> (cyc: u32)
        ensures
            cyc == 4 + spec_loc_extra(loc),
    {
        match loc {
            ByteLoc::Reg(_) => 4,
            ByteLoc::Imm => 8,
            ByteLoc::Ind(ia) => match ia {
                IndirectAddr::ZeroPage => 12,
                IndirectAddr::AddressW => 16,
                _ => 8,
            },
        }
    }

    /// NOP.
    pub fn nop(&mut self) -> (cyc: u32)
        ensures
            (final(self)@, cyc) == old(self)@.spec_op_nop(),
            final(self).clk == old(self).clk,
            *final(self) == *old(self),
    {
        4
    }

    /// CPL: complement A; N and H set, Z and C untouched.
    pub fn cpl(&mut self) -> (cyc: u32)
        ensures
            (final(self)@, cyc) == old(self)@.spec_op_cpl(),
            final(self).clk == old(self).clk,
            *final(self) == (Cpu { regs: final(self).regs, ..*old(self) }),
    {
        let z = self.check_flag(Flags::Z);
        let c = self.check_flag(Flags::C);
        self.regs.a = !self.regs.a;
        self.set_znhc(z, true, true, c);
        4
    }

    /// CCF: invert the carry; N and H cleared, Z untouched.
    pub fn ccf(&mut self) -> (cyc: u32)
        ensures
            (final(self)@, cyc) == old(self)@.spec_op_ccf(),
            final(self).clk == old(self).clk,
            *final(self) == (Cpu { regs: final(self).regs, ..*old(self) }),
    {
        let z = self.check_flag(Flags::Z);
        let c = self.check_flag(Flags::C);
        self.set_znhc(z, false, false, !c);
        4
    }

    /// SCF: set the carry; N and H cleared, Z untouched.
    pub fn scf(&mut self) -> (cyc: u32)
        ensures
            (final(self)@, cyc) == old(self)@.spec_op_scf(),
            final(self).clk == old(self).clk,
            *final(self) == (Cpu { regs: final(self).regs, ..*old(self) }),
    {
        let z = self.check_flag(Flags::Z);
        self.set_znhc(z, false, false, true);
        4
    }

    // ----- control flow -----

    /// JP nn | JP (HL).
    pub fn jp(&mut self, src: WordSrc) -> (cyc: u32)
        requires
            old(self).wf(),
        ensures
            final(self).wf(),
            (final(self)@, cyc) == old(self)@.spec_op_jp(src),
            final(self).clk == old(self).clk,
    {
        let (addr, cyc): (u16, u32) = match src {
            WordSrc::Reg(r) => (self.regs.readw(r), 4),
            WordSrc::Imm => (self.fetchw(), 16),
        };
        self.regs.pc = addr;
        cyc
    }

    /// JP cc nn.
    pub fn jp_cond(&mut self, cond: Condition) -> (cyc: u32)
        requires
            old(self).wf(),
        ensures
            final(self).wf(),
            (final(self)@, cyc) == old(self)@.spec_op_jp_cond(cond),
            final(self).clk == old(self).clk,
    {
        let addr = self.fetchw();
        if !cond.test(self) {
            return 12;
        }
        self.regs.pc = addr;
        16
    }

    /// JR e.
    pub fn jr(&mut self) -> (cyc: u32)
        requires
            old(self).wf(),
        ensures
            final(self).wf(),
            (final(self)@, cyc) == old(self)@.spec_op_jr(),
            final(self).clk == old(self).clk,
    {
        let off = self.fetchb();
        let pc = self.regs.pc;
        let dst = if off < 128 {
            wrap_add16(pc, off as u16)
        } else {
            wrap_sub16(pc, 256 - off as u16)
        };
        self.regs.pc = dst;
        proof {
            lemma_signed_wrap(pc, off);
        }
        12
    }

    /// JR cc e.
    pub fn jr_cond(&mut self, cond: Condition) -> (cyc: u32)
        requires
            old(self).wf(),
        ensures
            final(self).wf(),
            (final(self)@, cyc) == old(self)@.spec_op_jr_cond(cond),
            final(self).clk == old(self).clk,
    {
        let off = self.fetchb();
        if !cond.test(self) {
            return 8;
        }
        let pc = self.regs.pc;
        let dst = if off < 128 {
            wrap_add16(pc, off as u16)
        } else {
            wrap_sub16(pc, 256 - off as u16)
        };
        self.regs.pc = dst;
        proof {
            lemma_signed_wrap(pc, off);
        }
        12
    }

    /// PUSH qq.
    pub fn push(&mut self, reg: RegsW) -> (cyc: u32)
        requires
            old(self).wf(),
        ensures
            final(self).wf(),
            (final(self)@, cyc) == old(self)@.spec_op_push(reg),
            final(self).clk == old(self).clk,
    {
        let val = self.regs.readw(reg);
        self.pushw(val);
        16
    }

    /// POP qq.
    pub fn pop(&mut self, reg: RegsW) -> (cyc: u32)
        requires
            old(self).wf(),
        ensures
            final(self).wf(),
            (final(self)@, cyc) == old(self)@.spec_op_pop(reg),
            final(self).clk == old(self).clk,
    {
        let val = self.popw();
        self.regs.writew(reg, val);
        12
    }

    /// CALL nn: pushes the PC of the following instruction.
    pub fn call(&mut self) -> (cyc: u32)
        requires
            old(self).wf(),
        ensures
            final(self).wf(),
            (final(self)@, cyc) == old(self)@.spec_op_call(),
            final(self).clk == old(self).clk,
    {
        let new_pc = self.fetchw();
        let pc = self.regs.readw(RegsW::PC);
        self.pushw(pc);
        self.regs.pc = new_pc;
        24
    }

    /// CALL cc nn.
    pub fn call_cond(&mut self, cond: Condition) -> (cyc: u32)
        requires
            old(self).wf(),
        ensures
            final(self).wf(),
            (final(self)@, cyc) == old(self)@.spec_op_call_cond(cond),
            final(self).clk == old(self).clk,
    {
        let new_pc = self.fetchw();
        if !cond.test(self) {
            return 12;
        }
        let pc = self.regs.readw(RegsW::PC);
        self.pushw(pc);
        self.regs.pc = new_pc;
        24
    }

    /// The shared body of RET and RETI.
    fn do_ret(&mut self) -> (cyc: u32)
        requires
            old(self).wf(),
        ensures
            final(self).wf(),
            final(self)@ == ({
                let pv = old(self)@.spec_popw();
                CpuV { regs: Registers { pc: pv.1, ..pv.0.regs }, ..pv.0 }
            }),
            cyc == 16,
    {
        let pc = self.popw();
        self.regs.pc = pc;
        16
    }

    /// RETI: return and set IME.
    pub fn reti(&mut self) -> (cyc: u32)
        requires
            old(self).wf(),
        ensures
            final(self).wf(),
            (final(self)@, cyc) == old(self)@.spec_op_reti(),
            final(self).clk == old(self).clk,
    {
        self.interconnect.ic.ime = true;
        self.do_ret()
    }

    /// RET.
    pub fn ret(&mut self) -> (cyc: u32)
        requires
            old(self).wf(),
        ensures
            final(self).wf(),
            (final(self)@, cyc) == old(self)@.spec_op_ret(),
            final(self).clk == old(self).clk,
    {
        self.do_ret()
    }

    /// RET cc.
    pub fn ret_cond(&mut self, cond: Condition) -> (cyc: u32)
        requires
            old(self).wf(),
        ensures
            final(self).wf(),
            (final(self)@, cyc) == old(self)@.spec_op_ret_cond(cond),
            final(self).clk == old(self).clk,
    {
        if !cond.test(self) {
            return 8;
        }
        let c = self.do_ret();
        c + 4
    }

    /// RST t: push PC and jump to the fixed vector.
    pub fn rst(&mut self, addr: u8) -> (cyc: u32)
        requires
            old(self).wf(),
        ensures
            final(self).wf(),
            (final(self)@, cyc) == old(self)@.spec_op_rst(addr),
            final(self).clk == old(self).clk,
    {
        let pc = self.regs.readw(RegsW::PC);
        self.pushw(pc);
        self.regs.pc = addr as u16;
        16
    }

    /// EI: set IME (immediately in this core).
    pub fn ei(&mut self) -> (cyc: u32)
        ensures
            (final(self)@, cyc) == old(self)@.spec_op_ei(),
            final(self).clk == old(self).clk,
            *final(self) == (Cpu { interconnect: final(self).interconnect, ..*old(self) }),
    {
        self.interconnect.ic.ime = true;
        4
    }

    /// DI: clear IME.
    pub fn di(&mut self) -> (cyc: u32)
        ensures
            (final(self)@, cyc) == old(self)@.spec_op_di(),
            final(self).clk == old(self).clk,
            *final(self) == (Cpu { interconnect: final(self).interconnect, ..*old(self) }),
    {
        self.interconnect.ic.ime = false;
        4
    }

    // ----- rotates, shifts and bit operations -----

    /// The shared rotate body: rotates `val`, sets the flags, returns the
    /// rotated byte.
    fn alu_rxx(&mut self, dir: RotateDir, include_carry: bool, set_z: bool, val: u8) -> (out: u8)
        ensures
            out == spec_rot(val, dir, include_carry, spec_flag(old(self).regs.f, Flags::C)),
            *final(self) == (Cpu {
                regs: Registers {
                    f: mk_f(set_z && out == 0, false, false, spec_rot_carry(val, dir)),
                    ..old(self).regs
                },
                ..*old(self)
            }),
    {
        let cin = self.check_flag(Flags::C);
        let out: u8 = match dir {
            RotateDir::L => {
                let top: u8 = if include_carry {
                    if cin {
                        1
                    } else {
                        0
                    }
                } else {
                    val / 128
                };
                (val % 128) * 2 + top
            },
            RotateDir::R => {
                let top: u8 = if include_carry {
                    if cin {
                        128
                    } else {
                        0
                    }
                } else {
                    (val % 2) * 128
                };
                val / 2 + top
            },
        };
        let cout = match dir {
            RotateDir::L => val >= 128,
            RotateDir::R => val % 2 == 1,
        };
        self.set_znhc(set_z && out == 0, false, false, cout);
        proof {
            assert((val as int * 2) % 256 == (val as int % 128) * 2) by (nonlinear_arith);
        }
        out
    }

    /// The shared shift body.
    fn alu_sxx(&mut self, dir: RotateDir, preserve_msb: bool, val: u8) -> (out: u8)
        ensures
            out == spec_shift(val, dir, preserve_msb),
            *final(self) == (Cpu {
                regs: Registers {
                    f: mk_f(out == 0, false, false, spec_rot_carry(val, dir)),
                    ..old(self).regs
                },
                ..*old(self)
            }),
    {
        let out: u8 = match dir {
            RotateDir::L => (val % 128) * 2,
            RotateDir::R => {
                if preserve_msb {
                    val / 2 + (val / 128) * 128
                } else {
                    val / 2
                }
            },
        };
        let cout = match dir {
            RotateDir::L => val >= 128,
            RotateDir::R => val % 2 == 1,
        };
        self.set_znhc(out == 0, false, false, cout);
        proof {
            assert((val as int * 2) % 256 == (val as int % 128) * 2) by (nonlinear_arith);
        }
        out
    }

    /// RLCA: rotate A left; Z cleared.
    pub fn rlca(&mut self) -> (cyc: u32)
        ensures
            (final(self)@, cyc) == old(self)@.spec_op_rot_a(RotateDir::L, false),
            final(self).clk == old(self).clk,
            *final(self) == (Cpu { regs: final(self).regs, ..*old(self) }),
    {
        let a = self.regs.readb(RegsB::A);
        let out = self.alu_rxx(RotateDir::L, false, false, a);
        self.regs.writeb(RegsB::A, out);
        4
    }

    /// RLA: rotate A left through the carry; Z cleared.
    pub fn rla(&mut self) -> (cyc: u32)
        ensures
            (final(self)@, cyc) == old(self)@.spec_op_rot_a(RotateDir::L, true),
            final(self).clk == old(self).clk,
            *final(self) == (Cpu { regs: final(self).regs, ..*old(self) }),
    {
        let a = self.regs.readb(RegsB::A);
        let out = self.alu_rxx(RotateDir::L, true, false, a);
        self.regs.writeb(RegsB::A, out);
        4
    }

    /// RRCA: rotate A right; Z cleared.
    pub fn rrca(&mut self) -> (cyc: u32)
        ensures
            (final(self)@, cyc) == old(self)@.spec_op_rot_a(RotateDir::R, false),
            final(self).clk == old(self).clk,
            *final(self) == (Cpu { regs: final(self).regs, ..*old(self) }),
    {
        let a = self.regs.readb(RegsB::A);
        let out = self.alu_rxx(RotateDir::R, false, false, a);
        self.regs.writeb(RegsB::A, out);
        4
    }

    /// RRA: rotate A right through the carry; Z cleared.
    pub fn rra(&mut self) -> (cyc: u32)
        ensures
            (final(self)@, cyc) == old(self)@.spec_op_rot_a(RotateDir::R, true),
            final(self).clk == old(self).clk,
            *final(self) == (Cpu { regs: final(self).regs, ..*old(self) }),
    {
        let a = self.regs.readb(RegsB::A);
        let out = self.alu_rxx(RotateDir::R, true, false, a);
        self.regs.writeb(RegsB::A, out);
        4
    }

    /// The shared CB rotate: read, rotate with Z from the result, write.
    fn cb_rot(&mut self, loc: ByteLoc, dir: RotateDir, include_carry: bool) -> (cyc: u32)
        requires
            old(self).wf(),
        ensures
            final(self).wf(),
            (final(self)@, cyc) == old(self)@.spec_op_cb_rot(loc, dir, include_carry),
            final(self).clk == old(self).clk,
    {
        let v = self.read_byte_loc(loc);
        let out = self.alu_rxx(dir, include_carry, true, v);
        self.write_byte_loc(loc, out);
        self.cb_cycles(loc)
    }

    /// RL r | (HL).
    pub fn rl(&mut self, loc: ByteLoc) -> (cyc: u32)
        requires
            old(self).wf(),
        ensures
            final(self).wf(),
            (final(self)@, cyc) == old(self)@.spec_op_cb_rot(loc, RotateDir::L, true),
            final(self).clk == old(self).clk,
    {
        self.cb_rot(loc, RotateDir::L, true)
    }

    /// RLC r | (HL).
    pub fn rlc(&mut self, loc: ByteLoc) -> (cyc: u32)
        requires
            old(self).wf(),
        ensures
            final(self).wf(),
            (final(self)@, cyc) == old(self)@.spec_op_cb_rot(loc, RotateDir::L, false),
            final(self).clk == old(self).clk,
    {
        self.cb_rot(loc, RotateDir::L, false)
    }

    /// RR r | (HL).
    pub fn rr(&mut self, loc: ByteLoc) -> (cyc: u32)
        requires
            old(self).wf(),
        ensures
            final(self).wf(),
            (final(self)@, cyc) == old(self)@.spec_op_cb_rot(loc, RotateDir::R, true),
            final(self).clk == old(self).clk,
    {
        self.cb_rot(loc, RotateDir::R, true)
    }

    /// RRC r | (HL).
    pub fn rrc(&mut self, loc: ByteLoc) -> (cyc: u32)
        requires
            old(self).wf(),
        ensures
            final(self).wf(),
            (final(self)@, cyc) == old(self)@.spec_op_cb_rot(loc, RotateDir::R, false),
            final(self).clk == old(self).clk,
    {
        self.cb_rot(loc, RotateDir::R, false)
    }

    /// The shared CB shift.
    fn cb_shift(&mut self, loc: ByteLoc, dir: RotateDir, preserve_msb: bool) -> (cyc: u32)
        requires
            old(self).wf(),
        ensures
            final(self).wf(),
            (final(self)@, cyc) == old(self)@.spec_op_cb_shift(loc, dir, preserve_msb),
            final(self).clk == old(self).clk,
    {
        let v = self.read_byte_loc(loc);
        let out = self.alu_sxx(dir, preserve_msb, v);
        self.write_byte_loc(loc, out);
        self.cb_cycles(loc)
    }

    /// SLA r | (HL).
    pub fn sla(&mut self, loc: ByteLoc) -> (cyc: u32)
        requires
            old(self).wf(),
        ensures
            final(self).wf(),
            (final(self)@, cyc) == old(self)@.spec_op_cb_shift(loc, RotateDir::L, false),
            final(self).clk == old(self).clk,
    {
        self.cb_shift(loc, RotateDir::L, false)
    }

    /// SRA r | (HL): the sign bit stays.
    pub fn sra(&mut self, loc: ByteLoc) -> (cyc: u32)
        requires
            old(self).wf(),
        ensures
            final(self).wf(),
            (final(self)@, cyc) == old(self)@.spec_op_cb_shift(loc, RotateDir::R, true),
            final(self).clk == old(self).clk,
    {
        self.cb_shift(loc, RotateDir::R, true)
    }

    /// SRL r | (HL).
    pub fn srl(&mut self, loc: ByteLoc) -> (cyc: u32)
        requires
            old(self).wf(),
        ensures
            final(self).wf(),
            (final(self)@, cyc) == old(self)@.spec_op_cb_shift(loc, RotateDir::R, false),
            final(self).clk == old(self).clk,
    {
        self.cb_shift(loc, RotateDir::R, false)
    }

    /// SWAP r | (HL): exchange the nibbles; Z from the result.
    pub fn swap(&mut self, loc: ByteLoc) -> (cyc: u32)
        requires
            old(self).wf(),
        ensures
            final(self).wf(),
            (final(self)@, cyc) == old(self)@.spec_op_swap(loc),
            final(self).clk == old(self).clk,
    {
        let v = self.read_byte_loc(loc);
        let out = (v % 16) * 16 + v / 16;
        self.set_znhc(out == 0, false, false, false);
        self.write_byte_loc(loc, out);
        self.cb_cycles(loc)
    }

    /// BIT b r | b (HL): Z from the complement of the bit, H set, N
    /// cleared, C untouched.
    pub fn bit(&mut self, b: u8, loc: ByteLoc) -> (cyc: u32)
        requires
            old(self).wf(),
            b < 8,
        ensures
            final(self).wf(),
            (final(self)@, cyc) == old(self)@.spec_op_bit(b as int, loc),
            final(self).clk == old(self).clk,
    {
        let v = self.read_byte_loc(loc);
        let z = bit_n_of(v, b) == 0;
        let c = self.check_flag(Flags::C);
        self.set_znhc(z, false, true, c);
        match loc {
            ByteLoc::Reg(_) => 8,
            ByteLoc::Imm => 12,
            ByteLoc::Ind(ia) => match ia {
                IndirectAddr::ZeroPage => 16,
                IndirectAddr::AddressW => 20,
                _ => 12,
            },
        }
    }

    /// SET b r | b (HL): flags untouched.
    pub fn set(&mut self, b: u8, loc: ByteLoc) -> (cyc: u32)
        requires
            old(self).wf(),
            b < 8,
        ensures
            final(self).wf(),
            (final(self)@, cyc) == old(self)@.spec_op_setb(b as int, loc),
            final(self).clk == old(self).clk,
    {
        let v = self.read_byte_loc(loc);
        let out = set_bit_of(v, b);
        self.write_byte_loc(loc, out);
        self.cb_cycles(loc)
    }

    /// RES b r | b (HL): flags untouched.
    pub fn res(&mut self, b: u8, loc: ByteLoc) -> (cyc: u32)
        requires
            old(self).wf(),
            b < 8,
        ensures
            final(self).wf(),
            (final(self)@, cyc) == old(self)@.spec_op_resb(b as int, loc),
            final(self).clk == old(self).clk,
    {
        let v = self.read_byte_loc(loc);
        let out = res_bit_of(v, b);
        self.write_byte_loc(loc, out);
        self.cb_cycles(loc)
    }

    /// The T-cycles of a read-modify-write CB operation on this operand.
    fn cb_cycles(&self, loc: ByteLoc) -> (cyc: u32)
        ensures
            cyc == 8 + 2 * spec_loc_extra(loc),
    {
        match loc {
            ByteLoc::Reg(_) => 8,
            ByteLoc::Imm => 16,
            ByteLoc::Ind(ia) => match ia {
                IndirectAddr::ZeroPage => 24,
                IndirectAddr::AddressW => 32,
                _ => 16,
            },
        }
    }
}

/// `wrap8` agrees with plain offsetting on small inputs.
proof fn lemma_wrap8_small(x: int)
    requires
        -256 <= x < 512,
    ensures
        wrap8(x) == (if x < 0 {
            x + 256
        } else if x < 256 {
            x
        } else {
            x - 256
        }),
{
    if x < 0 {
        vstd::arithmetic::div_mod::lemma_fundamental_div_mod_converse(x, 256, -1, x + 256);
        vstd::arithmetic::div_mod::lemma_small_mod((x + 256) as nat, 256);
    } else if x < 256 {
        vstd::arithmetic::div_mod::lemma_small_mod(x as nat, 256);
    } else {
        vstd::arithmetic::div_mod::lemma_fundamental_div_mod_converse(x, 256, 1, x - 256);
        vstd::arithmetic::div_mod::lemma_small_mod((x - 256) as nat, 256);
    }
}

/// Adding a sign-extended byte agrees with the two-branch wrapping forms.
proof fn lemma_signed_wrap(base: u16, off: u8)
    ensures
        off < 128 ==> wrap16(base + spec_signed(off)) == wrap16(base + off),
        off >= 128 ==> wrap16(base + spec_signed(off)) == wrap16(base - (256 - off)),
{
}

impl Cpu {
    /// Decodes and executes the CB-prefixed instruction at PC, returning
    /// its T-cycle count (the prefix included). The low three opcode bits
    /// select the operand, the rest the operation.
    #[verifier::rlimit(100)]
    fn cb_dexec(&mut self) -> (cyc: u32)
        requires
            old(self).wf(),
        ensures
            final(self).wf(),
            cyc == 8 || cyc == 12 || cyc == 16,
            (final(self)@, cyc) == ({
                let f = old(self)@.spec_fetchb();
                f.0.spec_cb_insn(f.1)
            }),
            final(self).clk == old(self).clk,
    {
        proof {
            reveal(CpuV::spec_cb_insn);
        }
        let op = self.fetchb();
        let loc = operand_of(op % 8);
        if op < 0x08 {
            self.rlc(loc)
        } else if op < 0x10 {
            self.rrc(loc)
        } else if op < 0x18 {
            self.rl(loc)
        } else if op < 0x20 {
            self.rr(loc)
        } else if op < 0x28 {
            self.sla(loc)
        } else if op < 0x30 {
            self.sra(loc)
        } else if op < 0x38 {
            self.swap(loc)
        } else if op < 0x40 {
            self.srl(loc)
        } else if op < 0x80 {
            self.bit((op - 0x40) / 8, loc)
        } else if op < 0xC0 {
            self.res((op - 0x80) / 8, loc)
        } else {
            self.set((op - 0xC0) / 8, loc)
        }
    }

    /// Decodes and executes one instruction, returning the T-cycles it
    /// consumed. Exactly the opcodes outside this core's set (STOP, HALT,
    /// DAA and the eleven holes of the table) come back as errors, naming
    /// the opcode and its address.
    pub fn dexec(&mut self) -> (r: Result<u32, StepError>)
        requires
            old(self).wf(),
        ensures
            final(self).wf(),
            ({
                let op = old(self)@.interconnect.spec_readb(old(self).regs.pc);
                &&& (r matches Ok(c) ==> (c == 4 || c == 8 || c == 12 || c == 16 || c == 20
                    || c == 24 || c == 28 || c == 32))
                &&& (r matches Ok(c) ==> (final(self)@, c)
                    == old(self)@.spec_fetchb().0.spec_insn(op))
                &&& final(self).clk == old(self).clk
                &&& (r matches Err(_) ==> final(self)@ == old(self)@.spec_fetchb().0)
                &&& ((r matches Err(_)) <==> spec_unimplemented(op))
                &&& (op == 0x10 ==> r == Err::<u32, StepError>(StepError::Stop { pc: old(self).regs.pc }))
                &&& ((r matches Err(_) && op != 0x10) ==> r == Err::<u32, StepError>(
                    StepError::Unimplemented { op, pc: old(self).regs.pc },
                ))
            }),
    {
        proof {
            reveal(CpuV::spec_insn);
        }
        let pc0 = self.regs.pc;
        let op = self.fetchb();
        if op < 0x40 {
            self.dexec_misc(op, pc0)
        } else if op < 0x80 {
            self.dexec_ld(op, pc0)
        } else if op < 0xC0 {
            self.dexec_alu(op)
        } else {
            self.dexec_ctrl(op, pc0)
        }
    }

    /// The 0x00..0x3F quadrant: loads, 16-bit arithmetic, rotates of A,
    /// relative jumps and the flag instructions.
    #[verifier::rlimit(100)]
    fn dexec_misc(&mut self, op: u8, pc0: u16) -> (r: Result<u32, StepError>)
        requires
            old(self).wf(),
            op < 0x40,
        ensures
            final(self).wf(),
            r matches Ok(c) ==> (c == 4 || c == 8 || c == 12 || c == 16 || c == 20 || c == 24
                || c == 28 || c == 32),
            r matches Ok(c) ==> (final(self)@, c) == old(self)@.spec_insn_misc(op),
            final(self).clk == old(self).clk,
            r matches Err(_) ==> *final(self) == *old(self),
            (r matches Err(_)) <==> spec_unimplemented(op),
            op == 0x10 ==> r == Err::<u32, StepError>(StepError::Stop { pc: pc0 }),
            (r matches Err(_) && op != 0x10) ==> r == Err::<u32, StepError>(
                StepError::Unimplemented { op, pc: pc0 },
            ),
    {
        proof {
            reveal(CpuV::spec_insn_misc);
        }
        match op {
            0x10 => Err(StepError::Stop { pc: pc0 }),
            0x00 => Ok(self.nop()),
            0x01 => Ok(self.ldw(RegsW::BC, WordSrc::Imm)),
            0x02 => Ok(self.ld(ByteLoc::Ind(IndirectAddr::BC), ByteLoc::Reg(RegsB::A))),
            0x03 => Ok(self.incw(RegsW::BC)),
            0x04 => Ok(self.inc(ByteLoc::Reg(RegsB::B))),
            0x05 => Ok(self.dec(ByteLoc::Reg(RegsB::B))),
            0x06 => Ok(self.ld(ByteLoc::Reg(RegsB::B), ByteLoc::Imm)),
            0x07 => Ok(self.rlca()),
            0x08 => Ok(self.ldw_nn_sp()),
            0x09 => Ok(self.addw(RegsW::BC)),
            0x0A => Ok(self.ld(ByteLoc::Reg(RegsB::A), ByteLoc::Ind(IndirectAddr::BC))),
            0x0B => Ok(self.decw(RegsW::BC)),
            0x0C => Ok(self.inc(ByteLoc::Reg(RegsB::C))),
            0x0D => Ok(self.dec(ByteLoc::Reg(RegsB::C))),
            0x0E => Ok(self.ld(ByteLoc::Reg(RegsB::C), ByteLoc::Imm)),
            0x0F => Ok(self.rrca()),
            0x11 => Ok(self.ldw(RegsW::DE, WordSrc::Imm)),
            0x12 => Ok(self.ld(ByteLoc::Ind(IndirectAddr::DE), ByteLoc::Reg(RegsB::A))),
            0x13 => Ok(self.incw(RegsW::DE)),
            0x14 => Ok(self.inc(ByteLoc::Reg(RegsB::D))),
            0x15 => Ok(self.dec(ByteLoc::Reg(RegsB::D))),
            0x16 => Ok(self.ld(ByteLoc::Reg(RegsB::D), ByteLoc::Imm)),
            0x17 => Ok(self.rla()),
            0x18 => Ok(self.jr()),
            0x19 => Ok(self.addw(RegsW::DE)),
            0x1A => Ok(self.ld(ByteLoc::Reg(RegsB::A), ByteLoc::Ind(IndirectAddr::DE))),
            0x1B => Ok(self.decw(RegsW::DE)),
            0x1C => Ok(self.inc(ByteLoc::Reg(RegsB::E))),
            0x1D => Ok(self.dec(ByteLoc::Reg(RegsB::E))),
            0x1E => Ok(self.ld(ByteLoc::Reg(RegsB::E), ByteLoc::Imm)),
            0x1F => Ok(self.rra()),
            0x20 => Ok(self.jr_cond(Condition::NZ)),
            0x21 => Ok(self.ldw(RegsW::HL, WordSrc::Imm)),
            0x22 => Ok(self.ld(ByteLoc::Ind(IndirectAddr::HLP), ByteLoc::Reg(RegsB::A))),
            0x23 => Ok(self.incw(RegsW::HL)),
            0x24 => Ok(self.inc(ByteLoc::Reg(RegsB::H))),
            0x25 => Ok(self.dec(ByteLoc::Reg(RegsB::H))),
            0x26 => Ok(self.ld(ByteLoc::Reg(RegsB::H), ByteLoc::Imm)),
            0x28 => Ok(self.jr_cond(Condition::Z)),
            0x29 => Ok(self.addw(RegsW::HL)),
            0x2A => Ok(self.ld(ByteLoc::Reg(RegsB::A), ByteLoc::Ind(IndirectAddr::HLP))),
            0x2B => Ok(self.decw(RegsW::HL)),
            0x2C => Ok(self.inc(ByteLoc::Reg(RegsB::L))),
            0x2D => Ok(self.dec(ByteLoc::Reg(RegsB::L))),
            0x2E => Ok(self.ld(ByteLoc::Reg(RegsB::L), ByteLoc::Imm)),
            0x2F => Ok(self.cpl()),
            0x30 => Ok(self.jr_cond(Condition::NC)),
            0x31 => Ok(self.ldw(RegsW::SP, WordSrc::Imm)),
            0x32 => Ok(self.ld(ByteLoc::Ind(IndirectAddr::HLM), ByteLoc::Reg(RegsB::A))),
            0x33 => Ok(self.incw(RegsW::SP)),
            0x34 => Ok(self.inc(ByteLoc::Ind(IndirectAddr::HL))),
            0x35 => Ok(self.dec(ByteLoc::Ind(IndirectAddr::HL))),
            0x36 => Ok(self.ld(ByteLoc::Ind(IndirectAddr::HL), ByteLoc::Imm)),
            0x37 => Ok(self.scf()),
            0x38 => Ok(self.jr_cond(Condition::C)),
            0x39 => Ok(self.addw(RegsW::SP)),
            0x3A => Ok(self.ld(ByteLoc::Reg(RegsB::A), ByteLoc::Ind(IndirectAddr::HLM))),
            0x3B => Ok(self.decw(RegsW::SP)),
            0x3C => Ok(self.inc(ByteLoc::Reg(RegsB::A))),
            0x3D => Ok(self.dec(ByteLoc::Reg(RegsB::A))),
            0x3E => Ok(self.ld(ByteLoc::Reg(RegsB::A), ByteLoc::Imm)),
            0x3F => Ok(self.ccf()),
            _ => Err(StepError::Unimplemented { op, pc: pc0 }),
        }
    }

    /// The 0x40..0x7F quadrant: the register-to-register loads (and the
    /// HALT hole at 0x76). Destination and source come from the opcode's
    /// bit fields.
    #[verifier::rlimit(100)]
    fn dexec_ld(&mut self, op: u8, pc0: u16) -> (r: Result<u32, StepError>)
        requires
            old(self).wf(),
            0x40 <= op < 0x80,
        ensures
            final(self).wf(),
            r matches Ok(c) ==> (c == 4 || c == 8 || c == 12 || c == 16 || c == 20 || c == 24
                || c == 28 || c == 32),
            r matches Ok(c) ==> (final(self)@, c) == old(self)@.spec_insn_ld(op),
            final(self).clk == old(self).clk,
            r matches Err(_) ==> *final(self) == *old(self),
            (r matches Err(_)) <==> spec_unimplemented(op),
            r matches Err(_) ==> r == Err::<u32, StepError>(
                StepError::Unimplemented { op, pc: pc0 },
            ),
    {
        proof {
            reveal(CpuV::spec_insn_ld);
        }
        if op == 0x76 {
            return Err(StepError::Unimplemented { op, pc: pc0 });
        }
        let dst = operand_of((op - 0x40) / 8);
        let src = operand_of(op % 8);
        Ok(self.ld(dst, src))
    }

    /// The 0x80..0xBF quadrant: the eight-bit ALU over the register set,
    /// the operation in the opcode's upper bits and the operand in its
    /// lower three.
    #[verifier::rlimit(100)]
    fn dexec_alu(&mut self, op: u8) -> (r: Result<u32, StepError>)
        requires
            old(self).wf(),
            0x80 <= op < 0xC0,
        ensures
            final(self).wf(),
            r matches Ok(c) ==> (c == 4 || c == 8 || c == 12 || c == 16 || c == 20 || c == 24
                || c == 28 || c == 32),
            r matches Ok(c) ==> (final(self)@, c) == old(self)@.spec_insn_alu(op),
            final(self).clk == old(self).clk,
            r matches Ok(_),
    {
        proof {
            reveal(CpuV::spec_insn_alu);
        }
        let loc = operand_of(op % 8);
        if op < 0x88 {
            Ok(self.add(loc))
        } else if op < 0x90 {
            Ok(self.adc(loc))
        } else if op < 0x98 {
            Ok(self.sub(loc))
        } else if op < 0xA0 {
            Ok(self.sbc(loc))
        } else if op < 0xA8 {
            Ok(self.and(loc))
        } else if op < 0xB0 {
            Ok(self.xor(loc))
        } else if op < 0xB8 {
            Ok(self.or(loc))
        } else {
            Ok(self.cp(loc))
        }
    }

    /// The 0xC0..0xFF quadrant: jumps, calls, returns, stack, the CB
    /// prefix and the remaining loads.
    #[verifier::rlimit(100)]
    fn dexec_ctrl(&mut self, op: u8, pc0: u16) -> (r: Result<u32, StepError>)
        requires
            old(self).wf(),
            0xC0 <= op,
        ensures
            final(self).wf(),
            r matches Ok(c) ==> (c == 4 || c == 8 || c == 12 || c == 16 || c == 20 || c == 24
                || c == 28 || c == 32),
            r matches Ok(c) ==> (final(self)@, c) == old(self)@.spec_insn_ctrl(op),
            final(self).clk == old(self).clk,
            r matches Err(_) ==> *final(self) == *old(self),
            (r matches Err(_)) <==> spec_unimplemented(op),
            r matches Err(_) ==> r == Err::<u32, StepError>(
                StepError::Unimplemented { op, pc: pc0 },
            ),
    {
        proof {
            reveal(CpuV::spec_insn_ctrl);
        }
        match op {
            0xC0 => Ok(self.ret_cond(Condition::NZ)),
            0xC1 => Ok(self.pop(RegsW::BC)),
            0xC2 => Ok(self.jp_cond(Condition::NZ)),
            0xC3 => Ok(self.jp(WordSrc::Imm)),
            0xC4 => Ok(self.call_cond(Condition::NZ)),
            0xC5 => Ok(self.push(RegsW::BC)),
            0xC6 => Ok(self.add(ByteLoc::Imm)),
            0xC7 => Ok(self.rst(0x00)),
            0xC8 => Ok(self.ret_cond(Condition::Z)),
            0xC9 => Ok(self.ret()),
            0xCA => Ok(self.jp_cond(Condition::Z)),
            0xCB => Ok(self.cb_dexec()),
            0xCC => Ok(self.call_cond(Condition::Z)),
            0xCD => Ok(self.call()),
            0xCE => Ok(self.adc(ByteLoc::Imm)),
            0xCF => Ok(self.rst(0x08)),
            0xD0 => Ok(self.ret_cond(Condition::NC)),
            0xD1 => Ok(self.pop(RegsW::DE)),
            0xD2 => Ok(self.jp_cond(Condition::NC)),
            0xD4 => Ok(self.call_cond(Condition::NC)),
            0xD5 => Ok(self.push(RegsW::DE)),
            0xD6 => Ok(self.sub(ByteLoc::Imm)),
            0xD7 => Ok(self.rst(0x10)),
            0xD8 => Ok(self.ret_cond(Condition::C)),
            0xD9 => Ok(self.reti()),
            0xDA => Ok(self.jp_cond(Condition::C)),
            0xDC => Ok(self.call_cond(Condition::C)),
            0xDE => Ok(self.sbc(ByteLoc::Imm)),
            0xDF => Ok(self.rst(0x18)),
            0xE0 => Ok(self.ld(ByteLoc::Ind(IndirectAddr::ZeroPage), ByteLoc::Reg(RegsB::A))),
            0xE1 => Ok(self.pop(RegsW::HL)),
            0xE2 => Ok(self.ld(ByteLoc::Ind(IndirectAddr::ZeroPageC), ByteLoc::Reg(RegsB::A))),
            0xE5 => Ok(self.push(RegsW::HL)),
            0xE6 => Ok(self.and(ByteLoc::Imm)),
            0xE7 => Ok(self.rst(0x20)),
            0xE8 => Ok(self.addw_sp()),
            0xE9 => Ok(self.jp(WordSrc::Reg(RegsW::HL))),
            0xEA => Ok(self.ld(ByteLoc::Ind(IndirectAddr::AddressW), ByteLoc::Reg(RegsB::A))),
            0xEE => Ok(self.xor(ByteLoc::Imm)),
            0xEF => Ok(self.rst(0x28)),
            0xF0 => Ok(self.ld(ByteLoc::Reg(RegsB::A), ByteLoc::Ind(IndirectAddr::ZeroPage))),
            0xF1 => Ok(self.pop(RegsW::AF)),
            0xF2 => Ok(self.ld(ByteLoc::Reg(RegsB::A), ByteLoc::Ind(IndirectAddr::ZeroPageC))),
            0xF3 => Ok(self.di()),
            0xF5 => Ok(self.push(RegsW::AF)),
            0xF6 => Ok(self.or(ByteLoc::Imm)),
            0xF7 => Ok(self.rst(0x30)),
            0xF8 => Ok(self.ldw_hl_sp()),
            0xF9 => Ok(self.ldw(RegsW::SP, WordSrc::Reg(RegsW::HL))),
            0xFA => Ok(self.ld(ByteLoc::Reg(RegsB::A), ByteLoc::Ind(IndirectAddr::AddressW))),
            0xFB => Ok(self.ei()),
            0xFE => Ok(self.cp(ByteLoc::Imm)),
            0xFF => Ok(self.rst(0x38)),
            _ => Err(StepError::Unimplemented { op, pc: pc0 }),
        }
    }

    /// Acknowledges the highest-priority pending interrupt, when IME and
    /// the masks allow one: clears its IF bit, pushes PC, jumps to its
    /// vector and drops IME. A no-op otherwise.
    fn handle_interrupts(&mut self)
        requires
            old(self).wf(),
        ensures
            final(self).wf(),
            match old(self)@.interconnect.ic.spec_get_interrupt() {
                None => *final(self) == *old(self),
                Some(kind) => final(self)@ == old(self)@.spec_dispatch(kind),
            },
    {
        let kind = match self.interconnect.ic.get_interrupt() {
            None => {
                return ;
            },
            Some(k) => k,
        };
        self.interconnect.ic.reset_interrupt(kind);
        let pc = self.regs.readw(RegsW::PC);
        self.pushw(pc);
        let vector = kind.get_addr();
        self.regs.pc = vector;
        self.interconnect.ic.ime = false;
    }

    /// One step of the machine: either the pending-interrupt acknowledge
    /// (20 T-cycles), or one executed instruction; either way the bus, and
    /// with it the timer and the PPU, advances by the same T-cycles.
    pub fn step(&mut self) -> (r: Result<u32, StepError>)
        requires
            old(self).wf(),
        ensures
            final(self).wf(),
            (old(self)@.interconnect.ic.spec_get_interrupt() matches Some(kind) ==> {
                &&& r == Ok::<u32, StepError>(20)
                &&& final(self)@ == ({
                    let c1 = old(self)@.spec_dispatch(kind);
                    CpuV {
                        clk: Clock { cycles: ((c1.clk.cycles + 20) % 0x1_0000_0000) as u32 },
                        interconnect: c1.interconnect.spec_step(20),
                        ..c1
                    }
                })
            }),
            (r matches Ok(c) ==> (c == 4 || c == 8 || c == 12 || c == 16 || c == 20 || c == 24
                || c == 28 || c == 32)),
            (old(self)@.interconnect.ic.spec_get_interrupt() is None ==> ((r matches Err(_))
                <==> spec_unimplemented(
                old(self)@.interconnect.spec_readb(old(self).regs.pc),
            ))),
            (old(self)@.interconnect.ic.spec_get_interrupt() is None ==> (r matches Ok(c)
                ==> ({
                let f = old(self)@.spec_fetchb();
                let t = f.0.spec_insn(f.1);
                &&& c == t.1
                &&& final(self)@ == (CpuV {
                    clk: Clock { cycles: ((t.0.clk.cycles + t.1) % 0x1_0000_0000) as u32 },
                    interconnect: t.0.interconnect.spec_step(t.1),
                    ..t.0
                })
            }))),
            (r matches Err(_) ==> final(self)@ == old(self)@.spec_fetchb().0),
            (r matches Err(e) ==> match e {
                StepError::Stop { pc } => pc == old(self).regs.pc
                    && final(self)@.interconnect.spec_readb(pc) == 0x10,
                StepError::Unimplemented { op, pc } => pc == old(self).regs.pc
                    && final(self)@.interconnect.spec_readb(pc) == op && spec_unimplemented(op),
            }),
            (r matches Ok(c) ==> final(self).clk.cycles == ((old(self).clk.cycles + c)
                % 0x1_0000_0000)),
    {
        match self.interconnect.ic.get_interrupt() {
            Some(_) => {
                self.handle_interrupts();
                self.clk.add_cycles(20);
                let t = self.interconnect.step(20);
                return Ok(t);
            },
            None => {},
        }
        let ticks = match self.dexec() {
            Ok(t) => t,
            Err(e) => {
                return Err(e);
            },
        };
        self.clk.add_cycles(ticks);
        let t = self.interconnect.step(ticks);
        Ok(t)
    }
}

/// `(a + b) mod 2^16`.
pub fn wrap_add16(a: u16, b: u16) -> (r: u16)
    ensures
        r == wrap16(a + b),
{
    proof {
        if a + b <= 0xFFFF {
            vstd::arithmetic::div_mod::lemma_small_mod((a + b) as nat, 0x10000);
        } else {
            vstd::arithmetic::div_mod::lemma_fundamental_div_mod_converse(
                a + b,
                0x10000,
                1,
                a + b - 0x10000,
            );
        }
    }
    if b <= 0xFFFF - a {
        a + b
    } else {
        (a as u32 + b as u32 - 0x10000) as u16
    }
}

/// `(a - b) mod 2^16`.
pub fn wrap_sub16(a: u16, b: u16) -> (r: u16)
    ensures
        r == wrap16(a - b),
{
    proof {
        if b <= a {
            vstd::arithmetic::div_mod::lemma_fundamental_div_mod_converse(
                a - b,
                0x10000,
                0,
                a - b,
            );
            vstd::arithmetic::div_mod::lemma_small_mod((a - b) as nat, 0x10000);
        } else {
            vstd::arithmetic::div_mod::lemma_fundamental_div_mod_converse(
                a - b,
                0x10000,
                -1,
                a - b + 0x10000,
            );
            vstd::arithmetic::div_mod::lemma_small_mod((a - b + 0x10000) as nat, 0x10000);
        }
    }
    if b <= a {
        a - b
    } else {
        ((a as u32 + 0x10000) - b as u32) as u16
    }
}

} // verus!
