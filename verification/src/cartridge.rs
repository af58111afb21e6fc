//! Cartridge: owns the ROM image, decodes the MBC1 bank-control registers,
//! and routes ROM reads (0x0000..=0x7FFF) and cartridge-RAM access
//! (0xA000..=0xBFFF) through the selected banks.

use vstd::prelude::*;

verus! {

pub const ROM_BANK_SZ: usize = 0x4000;

pub const RAM_BANK_SZ: usize = 0x2000;

/// Why a ROM image was rejected at construction.
#[derive(Clone, Copy, PartialEq, Eq, Structural, Debug)]
pub enum CartridgeError {
    /// Shorter than the 32 KiB minimum.
    TooShort,
    /// The length is not a power of two.
    NotPowerOfTwo,
    /// Header byte 0x147 names an MBC this core does not implement.
    UnknownMbc,
    /// Header byte 0x149 names a RAM size this core does not implement.
    UnsupportedRamSize,
    /// The title bytes at 0x134..0x143 are not ASCII.
    InvalidTitle,
}

impl CartridgeError {
    pub fn describe(&self) -> (r: &'static str) {
        match *self {
            CartridgeError::TooShort => "ROM is shorter than 32 KiB",
            CartridgeError::NotPowerOfTwo => "ROM length is not a power of two",
            CartridgeError::UnknownMbc => "unknown MBC type in header byte 0x147",
            CartridgeError::UnsupportedRamSize => "unsupported RAM size in header byte 0x149",
            CartridgeError::InvalidTitle => "title bytes are not ASCII",
        }
    }
}

/// The memory-bank controller soldered onto the cartridge.
#[derive(Clone, Copy, PartialEq, Eq, Structural, Debug)]
pub enum Mbc {
    RomOnly,
    Mbc1,
}

/// Whether `n` is a power of two.
pub open spec fn spec_is_pow2(n: nat) -> bool
    decreases n,
{
    n == 1 || (n > 1 && n % 2 == 0 && spec_is_pow2(n / 2))
}

/// `s` with its trailing zero bytes removed.
pub open spec fn trim_zeros(s: Seq<u8>) -> Seq<u8>
    decreases s.len(),
{
    if s.len() == 0 || s[s.len() - 1] != 0 {
        s
    } else {
        trim_zeros(s.take(s.len() - 1))
    }
}

/// The bytes read as ASCII characters, one char per byte.
pub open spec fn ascii_chars(s: Seq<u8>) -> Seq<char> {
    s.map(|_i: int, b: u8| b as char)
}

/// The title bytes of the header, 0x134..0x143.
pub open spec fn spec_title_bytes(rom: Seq<u8>) -> Seq<u8> {
    rom.subrange(0x134, 0x143)
}

pub open spec fn spec_title_ascii(rom: Seq<u8>) -> bool {
    forall|i: int| 0x134 <= i < 0x143 ==> rom[i] < 0x80
}

/// What `Cartridge::new` rejects, checked in order; `None` means accepted.
pub open spec fn spec_new_error(rom: Seq<u8>) -> Option<CartridgeError> {
    if rom.len() < 0x8000 {
        Some(CartridgeError::TooShort)
    } else if !spec_is_pow2(rom.len()) {
        Some(CartridgeError::NotPowerOfTwo)
    } else if rom[0x147] > 0x03 {
        Some(CartridgeError::UnknownMbc)
    } else if rom[0x149] != 0 {
        Some(CartridgeError::UnsupportedRamSize)
    } else if !spec_title_ascii(rom) {
        Some(CartridgeError::InvalidTitle)
    } else {
        None
    }
}

pub struct Cartridge {
    /// The header title, ASCII with trailing NULs removed.
    pub title: String,
    pub mbc: Mbc,
    pub rom: Vec<u8>,
    /// The 7-bit switchable-ROM-bank number (MBC1).
    pub rom_bank: u8,
    pub ram: Vec<u8>,
    /// The 2-bit RAM-bank number (MBC1).
    pub ram_bank: u8,
    /// Whether cartridge RAM is enabled (a write of x0A to 0x0000..0x1FFF).
    pub ram_enable: bool,
    /// ROM/RAM banking mode (a write to 0x6000..0x7FFF; false = ROM mode).
    pub mode_select: bool,
}

/// The ghost view of the cartridge, over mathematical sequences.
pub ghost struct CartV {
    pub title: Seq<char>,
    pub mbc: Mbc,
    pub rom: Seq<u8>,
    pub rom_bank: u8,
    pub ram: Seq<u8>,
    pub ram_bank: u8,
    pub ram_enable: bool,
    pub mode_select: bool,
}

impl View for Cartridge {
    type V = CartV;

    open spec fn view(&self) -> CartV {
        CartV {
            title: self.title@,
            mbc: self.mbc,
            rom: self.rom@,
            rom_bank: self.rom_bank,
            ram: self.ram@,
            ram_bank: self.ram_bank,
            ram_enable: self.ram_enable,
            mode_select: self.mode_select,
        }
    }
}

impl CartV {
    /// The unmasked ROM index the bank decode yields: bank 0 below 0x4000,
    /// the switchable bank above.
    pub open spec fn spec_raw_index(self, addr: u16) -> u64 {
        match self.mbc {
            Mbc::RomOnly => addr as u64,
            Mbc::Mbc1 => if addr < 0x4000 {
                addr as u64
            } else {
                ((addr % 0x4000) + self.rom_bank * 0x4000) as u64
            },
        }
    }

    /// The ROM index a bus address reaches: always masked by `rom_len - 1`.
    pub open spec fn spec_rom_index(self, addr: u16) -> u64 {
        self.spec_raw_index(addr) & ((self.rom.len() - 1) as u64)
    }

    pub open spec fn spec_read_rom(self, addr: u16) -> u8 {
        self.rom[self.spec_rom_index(addr) as int]
    }

    /// The RAM index a bus address reaches through the selected bank
    /// (bank 0 in ROM mode).
    pub open spec fn spec_ram_index(self, addr: u16) -> int {
        let bank: int = if self.mode_select {
            self.ram_bank as int
        } else {
            0
        };
        (addr % 0x2000) + bank * 0x2000
    }

    /// Reads of disabled or absent RAM yield 0xFF.
    pub open spec fn spec_read_ram(self, addr: u16) -> u8 {
        if self.ram_enable && self.spec_ram_index(addr) < self.ram.len() {
            self.ram[self.spec_ram_index(addr)]
        } else {
            0xFF
        }
    }

    /// The cartridge after a bank-control write: MBC1 decodes RAM enable
    /// (0x0000..), the low five ROM-bank bits with the zero-to-one remap
    /// (0x2000..), the high two ROM-bank bits or the RAM bank depending on
    /// the mode (0x4000..), and the mode itself (0x6000..).
    pub open spec fn spec_write_rom(self, addr: u16, val: u8) -> CartV {
        match self.mbc {
            Mbc::RomOnly => self,
            Mbc::Mbc1 => if addr < 0x2000 {
                CartV { ram_enable: val % 16 == 0x0A, ..self }
            } else if addr < 0x4000 {
                let low5: int = if val % 32 == 0 {
                    1
                } else {
                    val as int % 32
                };
                CartV { rom_bank: ((self.rom_bank / 32) * 32 + low5) as u8, ..self }
            } else if addr < 0x6000 {
                if !self.mode_select {
                    CartV { rom_bank: (self.rom_bank % 32 + (val % 4) * 32) as u8, ..self }
                } else {
                    CartV { ram_bank: val % 4, ..self }
                }
            } else {
                CartV { mode_select: val % 2 == 1, ..self }
            },
        }
    }

    /// The RAM after a write: stored only when RAM is enabled and the
    /// selected bank actually backs the address.
    pub open spec fn spec_write_ram(self, addr: u16, val: u8) -> CartV {
        if self.ram_enable && self.spec_ram_index(addr) < self.ram.len() {
            CartV { ram: self.ram.update(self.spec_ram_index(addr), val), ..self }
        } else {
            self
        }
    }
}

impl Cartridge {
    pub open spec fn wf(self) -> bool {
        &&& self.rom@.len() >= 0x8000
        &&& spec_is_pow2(self.rom@.len())
        &&& self.rom_bank < 0x80
        &&& self.ram_bank < 4
    }

    /// Validates the image and builds the cartridge: at least 32 KiB, a
    /// power of two long, an MBC this core knows (header 0x147 in
    /// 0x00..=0x03), RAM-size code 0x00, and an ASCII title.
    #[verifier::loop_isolation(false)]
    pub fn new(rom: Vec<u8>) -> (r: Result<Cartridge, CartridgeError>)
        ensures
            match r {
                Ok(c) => {
                    &&& spec_new_error(rom@) is None
                    &&& c.wf()
                    &&& c.rom@ == rom@
                    &&& c.mbc == (if rom@[0x147] == 0 {
                        Mbc::RomOnly
                    } else {
                        Mbc::Mbc1
                    })
                    &&& c.title@ == ascii_chars(trim_zeros(spec_title_bytes(rom@)))
                    &&& c.rom_bank == 1
                    &&& c.ram@.len() == 0
                    &&& c.ram_bank == 0
                    &&& !c.ram_enable
                    &&& !c.mode_select
                },
                Err(e) => spec_new_error(rom@) == Some(e),
            },
    {
        if rom.len() < 0x8000 {
            return Err(CartridgeError::TooShort);
        }
        if !is_power_of_two(rom.len()) {
            return Err(CartridgeError::NotPowerOfTwo);
        }
        let mbc_byte = rom[0x147];
        if mbc_byte > 0x03 {
            return Err(CartridgeError::UnknownMbc);
        }
        let mbc = if mbc_byte == 0 {
            Mbc::RomOnly
        } else {
            Mbc::Mbc1
        };
        if rom[0x149] != 0 {
            return Err(CartridgeError::UnsupportedRamSize);
        }

        let mut i: usize = 0x134;
        while i < 0x143
            invariant
                0x134 <= i <= 0x143,
                rom@.len() >= 0x8000,
                forall|j: int| 0x134 <= j < i ==> rom@[j] < 0x80,
            decreases 0x143 - i,
        {
            if rom[i] >= 0x80 {
                proof {
                    assert(!spec_title_ascii(rom@)) by {
                        assert(0x134 <= i < 0x143 && rom@[i as int] >= 0x80);
                    };
                }
                return Err(CartridgeError::InvalidTitle);
            }
            i = i + 1;
        }

        // Trim trailing NUL padding off the title.
        let mut end: usize = 0x143;
        while end > 0x134 && rom[end - 1] == 0
            invariant
                0x134 <= end <= 0x143,
                rom@.len() >= 0x8000,
                trim_zeros(spec_title_bytes(rom@)) == trim_zeros(
                    rom@.subrange(0x134, end as int),
                ),
            decreases end,
        {
            proof {
                assert(rom@.subrange(0x134, end as int).take(end - 1 - 0x134) == rom@.subrange(
                    0x134,
                    end - 1,
                ));
            }
            end = end - 1;
        }
        proof {
            assert(trim_zeros(rom@.subrange(0x134, end as int)) == rom@.subrange(
                0x134,
                end as int,
            ));
        }

        let mut title_bytes: Vec<u8> = Vec::new();
        let mut j: usize = 0x134;
        while j < end
            invariant
                0x134 <= j <= end <= 0x143,
                rom@.len() >= 0x8000,
                title_bytes@ == rom@.subrange(0x134, j as int),
                forall|k: int| 0x134 <= k < 0x143 ==> rom@[k] < 0x80,
            decreases end - j,
        {
            title_bytes.push(rom[j]);
            j = j + 1;
        }
        proof {
            assert(title_bytes@ == rom@.subrange(0x134, end as int));
        }
        let title = ascii_to_string(&title_bytes);

        Ok(
            Cartridge {
                title,
                mbc,
                rom,
                rom_bank: 1,
                ram: Vec::new(),
                ram_bank: 0,
                ram_enable: false,
                mode_select: false,
            },
        )
    }

    pub fn read_rom(&self, addr: u16) -> (r: u8)
        requires
            self.wf(),
            addr < 0x8000,
        ensures
            r == self@.spec_read_rom(addr),
            self@.spec_rom_index(addr) == self@.spec_raw_index(addr) & ((self.rom@.len()
                - 1) as u64),
    {
        let raw: u64 = match self.mbc {
            Mbc::RomOnly => addr as u64,
            Mbc::Mbc1 => {
                if addr < 0x4000 {
                    addr as u64
                } else {
                    (addr % 0x4000) as u64 + (self.rom_bank as u64) * 0x4000
                }
            },
        };
        let mask: u64 = (self.rom.len() - 1) as u64;
        let idx = raw & mask;
        proof {
            lemma_and_le(raw, mask);
        }
        self.rom[idx as usize]
    }

    pub fn read_ram(&self, addr: u16) -> (r: u8)
        requires
            self.wf(),
        ensures
            r == self@.spec_read_ram(addr),
    {
        if !self.ram_enable {
            return 0xFF;
        }
        let bank: usize = if self.mode_select {
            self.ram_bank as usize
        } else {
            0
        };
        let idx = (addr as usize % 0x2000) + bank * 0x2000;
        if idx < self.ram.len() {
            self.ram[idx]
        } else {
            0xFF
        }
    }

    pub fn write_rom(&mut self, addr: u16, val: u8)
        requires
            old(self).wf(),
            addr < 0x8000,
        ensures
            final(self)@ == old(self)@.spec_write_rom(addr, val),
            final(self).wf(),
    {
        match self.mbc {
            Mbc::RomOnly => {},
            Mbc::Mbc1 => {
                if addr < 0x2000 {
                    self.ram_enable = val % 16 == 0x0A;
                } else if addr < 0x4000 {
                    let low5 = val % 32;
                    let eff = if low5 == 0 {
                        1
                    } else {
                        low5
                    };
                    self.rom_bank = (self.rom_bank / 32) * 32 + eff;
                } else if addr < 0x6000 {
                    if !self.mode_select {
                        self.rom_bank = self.rom_bank % 32 + (val % 4) * 32;
                    } else {
                        self.ram_bank = val % 4;
                    }
                } else {
                    self.mode_select = val % 2 == 1;
                }
            },
        }
    }

    pub fn write_ram(&mut self, addr: u16, val: u8)
        requires
            old(self).wf(),
        ensures
            final(self)@ == old(self)@.spec_write_ram(addr, val),
            final(self).wf(),
    {
        if !self.ram_enable {
            return ;
        }
        let bank: usize = if self.mode_select {
            self.ram_bank as usize
        } else {
            0
        };
        let idx = (addr as usize % 0x2000) + bank * 0x2000;
        if idx < self.ram.len() {
            self.ram.set(idx, val);
        }
    }
}

/// Whether `n` is a power of two, by halving.
fn is_power_of_two(n: usize) -> (r: bool)
    requires
        n >= 1,
    ensures
        r == spec_is_pow2(n as nat),
{
    let mut m = n;
    loop
        invariant
            m >= 1,
            spec_is_pow2(n as nat) == spec_is_pow2(m as nat),
        decreases m,
    {
        if m == 1 {
            return true;
        }
        if m % 2 == 1 {
            return false;
        }
        m = m / 2;
    }
}

/// Masking cannot exceed the mask.
proof fn lemma_and_le(x: u64, m: u64)
    ensures
        (x & m) <= m,
{
    assert((x & m) <= m) by (bit_vector);
}

/// Relies on `String::from_utf8`: ASCII bytes decode to the same characters
/// one for one.
#[verifier::external_body]
fn ascii_to_string(bytes: &Vec<u8>) -> (r: String)
    requires
        forall|i: int| 0 <= i < bytes@.len() ==> bytes@[i] < 0x80,
    ensures
        r@ == ascii_chars(bytes@),
{
    String::from_utf8(bytes.clone()).unwrap_or_default()
}

} // verus!
