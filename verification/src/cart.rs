//! Cartridge: up to 2 MiB of ROM and 32 KiB of RAM, paged into the 16-bit
//! address space by a memory bank controller (MBC).  Writes into ROM address
//! space do not change ROM; they drive the banking registers.

use vstd::prelude::*;
use crate::zero_bytes;

verus! {

/// Size of the raw ROM buffer: the largest cartridge image supported.
pub const ROM_LEN: usize = 0x200000;
/// Size of the raw cartridge RAM buffer.
pub const RAM_LEN: usize = 0x8000;

/// Which memory bank controller the cartridge carries.
#[derive(Clone, Copy, PartialEq, Eq, Structural)]
pub enum MBC {
    NoMBC,
    MBC1,
    MBC2,
    MBC3,
    MBC5,
}

/// MBC1 write mode for the `4000-5FFF` window: route the two written bits to
/// the high ROM bank bits or to the RAM bank number.
#[derive(Clone, Copy, PartialEq, Eq, Structural)]
pub enum SelectMode {
    ROM,
    RAM,
}

pub struct Cart {
    pub mbc: MBC,
    pub rom_size: u8,
    pub ram_size: u8,
    pub rom_bank: u8,
    pub ram_bank: u8,
    pub has_battery: bool,
    pub has_timer: bool,
    pub has_rumble: bool,

    pub select_mode: SelectMode,
    pub ram_enabled: bool,
    pub raw_rom: Vec<u8>,
    pub raw_ram: Vec<u8>,
}

/// Mathematical model of a cartridge: the same registers, with the two byte
/// buffers as sequences.
#[verifier::ext_equal]
pub struct CartState {
    pub mbc: MBC,
    pub rom_size: u8,
    pub ram_size: u8,
    pub rom_bank: u8,
    pub ram_bank: u8,
    pub has_battery: bool,
    pub has_timer: bool,
    pub has_rumble: bool,
    pub select_mode: SelectMode,
    pub ram_enabled: bool,
    pub rom: Seq<u8>,
    pub ram: Seq<u8>,
}

impl View for Cart {
    type V = CartState;

    open spec fn view(&self) -> CartState {
        CartState {
            mbc: self.mbc,
            rom_size: self.rom_size,
            ram_size: self.ram_size,
            rom_bank: self.rom_bank,
            ram_bank: self.ram_bank,
            has_battery: self.has_battery,
            has_timer: self.has_timer,
            has_rumble: self.has_rumble,
            select_mode: self.select_mode,
            ram_enabled: self.ram_enabled,
            rom: self.raw_rom@,
            ram: self.raw_ram@,
        }
    }
}

/// A written ROM bank number is masked to 7 bits; bank 0 cannot be selected
/// through the switchable window and is promoted to 1.
pub open spec fn norm_rom_bank(b: u8) -> u8 {
    if b & 0x7f == 0 {
        1
    } else {
        b & 0x7f
    }
}

/// The (MBC kind, rom size code, ram size code, battery, timer, rumble)
/// profile selected by a cartridge-type header byte.  Unknown codes fall back
/// to a plain ROM without RAM.
pub open spec fn cart_profile(code: u8) -> (MBC, u8, u8, bool, bool, bool) {
    if code == 0x01 {
        (MBC::MBC1, 0x80, 0, false, false, false)
    } else if code == 0x02 {
        (MBC::MBC1, 0x80, 4, false, false, false)
    } else if code == 0x03 {
        (MBC::MBC1, 0x80, 4, true, false, false)
    } else if code == 0x05 {
        (MBC::MBC2, 0x10, 1, false, false, false)
    } else if code == 0x06 {
        (MBC::MBC2, 0x10, 1, true, false, false)
    } else if code == 0x08 {
        (MBC::NoMBC, 1, 1, false, false, false)
    } else if code == 0x09 {
        (MBC::NoMBC, 1, 1, true, false, false)
    } else if code == 0x0f {
        (MBC::MBC3, 0x80, 0, true, true, false)
    } else if code == 0x10 {
        (MBC::MBC3, 0x80, 4, true, true, false)
    } else if code == 0x11 {
        (MBC::MBC3, 0x80, 0, false, false, false)
    } else if code == 0x12 {
        (MBC::MBC3, 0x80, 4, false, false, false)
    } else if code == 0x13 {
        (MBC::MBC3, 0x80, 4, true, false, false)
    } else {
        (MBC::NoMBC, 1, 0, false, false, false)
    }
}

impl CartState {
    /// Validity: full-size buffers and banking registers in range.
    pub open spec fn wf(self) -> bool {
        &&& self.rom.len() == ROM_LEN
        &&& self.ram.len() == RAM_LEN
        &&& 1 <= self.rom_bank <= 0x7f
        &&& self.ram_bank <= 3
    }

    /// The bank used for reads from the switchable window.  Under MBC1 the
    /// stored banks 0x20/0x40/0x60 address the bank one above them.
    pub open spec fn effective_rom_bank(self) -> u8 {
        if self.mbc == MBC::MBC1 && (self.rom_bank == 0x20 || self.rom_bank == 0x40
            || self.rom_bank == 0x60) {
            (self.rom_bank + 1) as u8
        } else {
            self.rom_bank
        }
    }

    /// What a ROM-space read returns: bank 0 below 0x4000, the effective
    /// switchable bank below 0x8000, open bus (0xFF) above.
    pub open spec fn spec_rom_byte(self, addr: u16) -> u8 {
        if addr < 0x4000 {
            self.rom[addr as int]
        } else if addr < 0x8000 {
            self.rom[self.effective_rom_bank() * 0x4000 + (addr - 0x4000)]
        } else {
            0xff
        }
    }

    /// What a cartridge-RAM read returns: 0xFF without RAM or outside the
    /// 8 KiB window, else the byte of the selected RAM bank.
    pub open spec fn spec_ram_byte(self, addr: u16) -> u8 {
        if self.ram_size == 0 {
            0xff
        } else if addr < 0x2000 {
            self.ram[self.ram_bank * 0x2000 + addr]
        } else {
            0xff
        }
    }

    /// Effect of a cartridge-RAM write: dropped when RAM is disabled, absent,
    /// or the address is outside the window.
    pub open spec fn spec_set_ram(self, addr: u16, v: u8) -> CartState {
        if self.ram_enabled && self.ram_size != 0 && addr < 0x2000 {
            CartState { ram: self.ram.update(self.ram_bank * 0x2000 + addr, v), ..self }
        } else {
            self
        }
    }

    /// Effect of a write into ROM address space on the banking registers.
    pub open spec fn spec_write_rom(self, addr: u16, v: u8) -> CartState {
        if addr < 0x2000 {
            CartState { ram_enabled: v & 0x0a != 0, ..self }
        } else if addr < 0x4000 {
            if self.mbc == MBC::MBC1 {
                CartState { rom_bank: norm_rom_bank((self.rom_bank & 0x60) | (v & 0x1f)), ..self }
            } else if self.mbc == MBC::MBC3 {
                CartState { rom_bank: norm_rom_bank(v), ..self }
            } else {
                self
            }
        } else if addr < 0x6000 {
            if self.mbc == MBC::MBC1 {
                if self.select_mode == SelectMode::ROM {
                    CartState {
                        rom_bank: norm_rom_bank(((v & 0x3) << 5) | (self.rom_bank & 0x1f)),
                        ..self
                    }
                } else {
                    CartState { ram_bank: v & 0x3, ..self }
                }
            } else if self.mbc == MBC::MBC3 {
                if v < 0x4 {
                    CartState { ram_bank: v & 0x3, ..self }
                } else {
                    self
                }
            } else {
                self
            }
        } else {
            if self.mbc == MBC::MBC1 {
                CartState {
                    select_mode: if v == 0 {
                        SelectMode::ROM
                    } else {
                        SelectMode::RAM
                    },
                    ..self
                }
            } else {
                self
            }
        }
    }

    /// Effect of selecting a cartridge type: new profile, banking registers
    /// back to their reset values, memory contents kept.
    pub open spec fn spec_set_mbc(self, code: u8) -> CartState {
        let p = cart_profile(code);
        CartState {
            mbc: p.0,
            rom_size: p.1,
            ram_size: p.2,
            rom_bank: 1,
            ram_bank: 0,
            has_battery: p.3,
            has_timer: p.4,
            has_rumble: p.5,
            select_mode: SelectMode::ROM,
            ram_enabled: false,
            ..self
        }
    }
}

/// Masked bank values stay in range, so banking writes keep the cartridge
/// well-formed.
pub proof fn lemma_bank_masks()
    by (bit_vector)
    ensures
        forall|x: u8| #[trigger] (x & 0x7f) <= 0x7f,
        forall|x: u8| #[trigger] (x & 0x3) <= 3,
{
}

impl Cart {
    pub fn get_rom_byte(&self, addr: u16) -> (r: u8)
        requires
            self@.wf(),
        ensures
            r == self@.spec_rom_byte(addr),
    {
        if addr < 0x4000 {
            return self.raw_rom[addr as usize];
        }
        if addr < 0x8000 {
            let offset = addr - 0x4000;
            let bank: u8 = if self.mbc == MBC::MBC1 {
                match self.rom_bank {
                    0x20 => 0x21,
                    0x40 => 0x41,
                    0x60 => 0x61,
                    _ => self.rom_bank,
                }
            } else {
                self.rom_bank
            };
            let raw_addr: u32 = (bank as u32) * 0x4000 + (offset as u32);
            return self.raw_rom[raw_addr as usize];
        }
        0xff
    }

    pub fn get_ram_byte(&self, addr: u16) -> (r: u8)
        requires
            self@.wf(),
        ensures
            r == self@.spec_ram_byte(addr),
    {
        if self.ram_size == 0 {
            return 0xff;
        }
        if addr < 0x2000 {
            let raw_addr: u32 = (self.ram_bank as u32) * 0x2000 + (addr as u32);
            return self.raw_ram[raw_addr as usize];
        }
        0xff
    }

    pub fn set_ram_byte(&mut self, addr: u16, value: u8)
        requires
            old(self)@.wf(),
        ensures
            final(self)@ == old(self)@.spec_set_ram(addr, value),
            final(self)@.wf(),
    {
        if !self.ram_enabled {
            return;
        }
        if self.ram_size == 0 {
            return;
        }
        if addr < 0x2000 {
            let raw_addr: u32 = (self.ram_bank as u32) * 0x2000 + (addr as u32);
            self.raw_ram.set(raw_addr as usize, value);
            proof {
                assert(self@ =~= old(self)@.spec_set_ram(addr, value));
            }
        }
    }

    pub fn write_rom_addr(&mut self, addr: u16, value: u8)
        requires
            old(self)@.wf(),
        ensures
            final(self)@ == old(self)@.spec_write_rom(addr, value),
            final(self)@.wf(),
    {
        proof {
            lemma_bank_masks();
        }
        if addr < 0x2000 {
            if value & 0xa > 0 {
                self.enable_ram();
            } else {
                self.disable_ram();
            }
            return;
        }
        if addr < 0x4000 {
            match self.mbc {
                MBC::MBC1 => {
                    let bank_high = self.rom_bank & 0x60;
                    let bank_low = value & 0x1f;
                    self.set_rom_bank(bank_high | bank_low);
                },
                MBC::MBC3 => {
                    self.set_rom_bank(value);
                },
                _ => (),
            };
            return;
        }
        if addr < 0x6000 {
            match self.mbc {
                MBC::MBC1 => {
                    if self.select_mode == SelectMode::ROM {
                        let bank_high = (value & 0x3) << 5;
                        let bank_low = self.rom_bank & 0x1f;
                        self.set_rom_bank(bank_high | bank_low);
                    } else {
                        self.set_ram_bank(value);
                    }
                },
                MBC::MBC3 => {
                    if value < 0x4 {
                        self.set_ram_bank(value);
                    }
                },
                _ => (),
            };
            return;
        }
        match self.mbc {
            MBC::MBC1 => {
                self.select_mode = if value == 0 {
                    SelectMode::ROM
                } else {
                    SelectMode::RAM
                };
            },
            _ => (),
        }
    }

    pub fn set_rom_bank(&mut self, bank: u8)
        ensures
            final(self)@ == (CartState { rom_bank: norm_rom_bank(bank), ..old(self)@ }),
    {
        let mut b = bank & 0x7f;
        if b == 0 {
            b = 1;
        }
        self.rom_bank = b;
    }

    pub fn set_ram_bank(&mut self, bank: u8)
        ensures
            final(self)@ == (CartState { ram_bank: bank & 0x3, ..old(self)@ }),
    {
        self.ram_bank = bank & 0x3
    }

    pub fn enable_ram(&mut self)
        ensures
            final(self)@ == (CartState { ram_enabled: true, ..old(self)@ }),
    {
        self.ram_enabled = true;
    }

    pub fn disable_ram(&mut self)
        ensures
            final(self)@ == (CartState { ram_enabled: false, ..old(self)@ }),
    {
        self.ram_enabled = false;
    }

    fn reset(&mut self, mbc: MBC, rom_size: u8, ram_size: u8, has_battery: bool, has_timer: bool,
        has_rumble: bool)
        ensures
            final(self)@ == (CartState {
                mbc,
                rom_size,
                ram_size,
                rom_bank: 1,
                ram_bank: 0,
                has_battery,
                has_timer,
                has_rumble,
                select_mode: SelectMode::ROM,
                ram_enabled: false,
                ..old(self)@
            }),
    {
        self.mbc = mbc;
        self.rom_size = rom_size;
        self.ram_size = ram_size;
        self.rom_bank = 0x01;
        self.ram_bank = 0;
        self.has_battery = has_battery;
        self.has_timer = has_timer;
        self.has_rumble = has_rumble;

        self.select_mode = SelectMode::ROM;
        self.ram_enabled = false;
    }

    pub fn set_mbc(&mut self, mbc: u8)
        ensures
            final(self)@ == old(self)@.spec_set_mbc(mbc),
            old(self)@.wf() ==> final(self)@.wf(),
    {
        match mbc {
            0x01 => self.reset(MBC::MBC1, 0x80, 0, false, false, false),
            0x02 => self.reset(MBC::MBC1, 0x80, 4, false, false, false),
            0x03 => self.reset(MBC::MBC1, 0x80, 4, true, false, false),
            0x05 => self.reset(MBC::MBC2, 0x10, 1, false, false, false),
            0x06 => self.reset(MBC::MBC2, 0x10, 1, true, false, false),
            0x08 => self.reset(MBC::NoMBC, 1, 1, false, false, false),
            0x09 => self.reset(MBC::NoMBC, 1, 1, true, false, false),
            0x0f => self.reset(MBC::MBC3, 0x80, 0, true, true, false),
            0x10 => self.reset(MBC::MBC3, 0x80, 4, true, true, false),
            0x11 => self.reset(MBC::MBC3, 0x80, 0, false, false, false),
            0x12 => self.reset(MBC::MBC3, 0x80, 4, false, false, false),
            0x13 => self.reset(MBC::MBC3, 0x80, 4, true, false, false),
            _ => self.reset(MBC::NoMBC, 1, 0, false, false, false),
        }
    }
}

fn create(mbc: MBC, rom_size: u8, ram_size: u8, has_battery: bool, has_timer: bool,
    has_rumble: bool) -> (r: Cart)
    ensures
        r@ == (CartState {
            mbc,
            rom_size,
            ram_size,
            rom_bank: 1,
            ram_bank: 0,
            has_battery,
            has_timer,
            has_rumble,
            select_mode: SelectMode::ROM,
            ram_enabled: false,
            rom: Seq::new(ROM_LEN as nat, |i: int| 0u8),
            ram: Seq::new(RAM_LEN as nat, |i: int| 0u8),
        }),
        r@.wf(),
{
    let r = Cart {
        mbc,
        rom_size,
        ram_size,
        rom_bank: 0x01,
        ram_bank: 0,
        has_battery,
        has_timer,
        has_rumble,

        select_mode: SelectMode::ROM,
        ram_enabled: false,
        raw_rom: zero_bytes(ROM_LEN),
        raw_ram: zero_bytes(RAM_LEN),
    };
    proof {
        assert(r@.rom =~= Seq::new(ROM_LEN as nat, |i: int| 0u8));
        assert(r@.ram =~= Seq::new(RAM_LEN as nat, |i: int| 0u8));
    }
    r
}

/// A fresh, zero-filled cartridge of the type named by the header byte.
pub fn create_cart(mbc: u8) -> (r: Cart)
    ensures
        r@ == (CartState {
            mbc: cart_profile(mbc).0,
            rom_size: cart_profile(mbc).1,
            ram_size: cart_profile(mbc).2,
            rom_bank: 1,
            ram_bank: 0,
            has_battery: cart_profile(mbc).3,
            has_timer: cart_profile(mbc).4,
            has_rumble: cart_profile(mbc).5,
            select_mode: SelectMode::ROM,
            ram_enabled: false,
            rom: Seq::new(ROM_LEN as nat, |i: int| 0u8),
            ram: Seq::new(RAM_LEN as nat, |i: int| 0u8),
        }),
        r@.wf(),
{
    match mbc {
        0x01 => create(MBC::MBC1, 0x80, 0, false, false, false),
        0x02 => create(MBC::MBC1, 0x80, 4, false, false, false),
        0x03 => create(MBC::MBC1, 0x80, 4, true, false, false),
        0x05 => create(MBC::MBC2, 0x10, 1, false, false, false),
        0x06 => create(MBC::MBC2, 0x10, 1, true, false, false),
        0x08 => create(MBC::NoMBC, 1, 1, false, false, false),
        0x09 => create(MBC::NoMBC, 1, 1, true, false, false),
        0x0f => create(MBC::MBC3, 0x80, 0, true, true, false),
        0x10 => create(MBC::MBC3, 0x80, 4, true, true, false),
        0x11 => create(MBC::MBC3, 0x80, 0, false, false, false),
        0x12 => create(MBC::MBC3, 0x80, 4, false, false, false),
        0x13 => create(MBC::MBC3, 0x80, 4, true, false, false),
        _ => create(MBC::NoMBC, 1, 0, false, false, false),
    }
}

/// Under MBC1, the write sequence `6000 <- 0`, `4000 <- k`, `2000 <- m`
/// selects switchable-window bank `((k & 3) << 5) | (m & 0x1f)`, with the
/// unaddressable banks 0, 0x20, 0x40 and 0x60 read as the bank one above.
pub proof fn law_mbc1_bank_select(c: CartState, k: u8, m: u8, addr: u16)
    requires
        c.wf(),
        c.mbc == MBC::MBC1,
        0x4000 <= addr < 0x8000,
    ensures
        ({
            let c3 = c.spec_write_rom(0x6000, 0).spec_write_rom(0x4000, k).spec_write_rom(
                0x2000,
                m,
            );
            let bank = ((k & 3) << 5) | (m & 0x1f);
            let eff: u8 = if bank == 0 || bank == 0x20 || bank == 0x40 || bank == 0x60 {
                (bank + 1) as u8
            } else {
                bank
            };
            c3.spec_rom_byte(addr) == c.rom[eff * 0x4000 + (addr - 0x4000)]
        }),
{
    let c1 = c.spec_write_rom(0x6000, 0);
    let c2 = c1.spec_write_rom(0x4000, k);
    let c3 = c2.spec_write_rom(0x2000, m);
    let b0 = c.rom_bank;
    let bank = ((k & 3) << 5) | (m & 0x1f);
    assert(c1.rom_bank == b0 && c1.select_mode == SelectMode::ROM);
    let b2 = norm_rom_bank(((k & 0x3) << 5) | (b0 & 0x1f));
    assert(c2.rom_bank == b2);
    let b3 = norm_rom_bank((b2 & 0x60) | (m & 0x1f));
    assert(c3.rom_bank == b3);
    assert(c3.effective_rom_bank() == if bank == 0 || bank == 0x20 || bank == 0x40 || bank == 0x60 {
        (bank + 1) as u8
    } else {
        bank
    }) by {
        assert(b3 == if bank == 0 { 1u8 } else { bank } && bank <= 0x7f) by (bit_vector)
            requires
                b2 == norm_rom_bank(((k & 0x3) << 5) | (b0 & 0x1f)),
                b3 == norm_rom_bank((b2 & 0x60) | (m & 0x1f)),
                bank == ((k & 3) << 5) | (m & 0x1f),
        ;
    }
}

} // verus!
