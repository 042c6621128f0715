//! The memory bus: boot ROM, cartridge, video RAM, work RAM (with its echo),
//! sprite table, I/O registers and high RAM behind one 16-bit address space.
//! Writes into I/O space carry side effects: cartridge banking, keypad
//! select, divider reset, sound-channel restarts, and the OAM DMA copy.

use vstd::prelude::*;
use crate::audio;
use crate::audio::{Audio, AudioState, AudioEvent};
use crate::cart;
use crate::cart::{Cart, CartState};
use crate::bits::lemma_u8_mask_range;
use crate::bits::lemma_freq_bound;
use crate::zero_bytes;

verus! {

/// Which key group a read of `FF00` reports.
#[derive(Clone, Copy, PartialEq, Eq, Structural)]
pub enum KeySelect {
    Buttons,
    Directions,
}

pub struct MemMap {
    pub boot: Vec<u8>,
    pub video_ram: Vec<u8>,
    pub work_ram: Vec<u8>,
    pub sprite_table: Vec<u8>,
    pub zero_page: Vec<u8>,

    pub cart: Cart,

    pub keys_buttons: u8,
    pub keys_directions: u8,
    pub key_select: KeySelect,

    pub timer: u16,

    pub audio: Audio,
    pub events: Vec<AudioEvent>,

    pub cart_ram_dirty: bool,
    pub tile_map_0_dirty: bool,
    pub tile_map_1_dirty: bool,
    pub tile_data_dirty: bool,
}

/// Mathematical model of the bus.
#[verifier::ext_equal]
pub struct MemState {
    pub boot: Seq<u8>,
    pub video_ram: Seq<u8>,
    pub work_ram: Seq<u8>,
    pub sprite_table: Seq<u8>,
    pub zero_page: Seq<u8>,
    pub cart: CartState,
    pub keys_buttons: u8,
    pub keys_directions: u8,
    pub key_select: KeySelect,
    pub timer: u16,
    pub audio: AudioState,
    pub events: Seq<AudioEvent>,
    pub cart_ram_dirty: bool,
    pub tile_map_0_dirty: bool,
    pub tile_map_1_dirty: bool,
    pub tile_data_dirty: bool,
}

impl View for MemMap {
    type V = MemState;

    open spec fn view(&self) -> MemState {
        MemState {
            boot: self.boot@,
            video_ram: self.video_ram@,
            work_ram: self.work_ram@,
            sprite_table: self.sprite_table@,
            zero_page: self.zero_page@,
            cart: self.cart@,
            keys_buttons: self.keys_buttons,
            keys_directions: self.keys_directions,
            key_select: self.key_select,
            timer: self.timer,
            audio: self.audio@,
            events: self.events@,
            cart_ram_dirty: self.cart_ram_dirty,
            tile_map_0_dirty: self.tile_map_0_dirty,
            tile_map_1_dirty: self.tile_map_1_dirty,
            tile_data_dirty: self.tile_data_dirty,
        }
    }
}

/// The address a 16-bit access touches after its first byte.
pub open spec fn word_next(addr: u16) -> u16 {
    if addr == 0xffff {
        0
    } else {
        (addr + 1) as u16
    }
}

impl MemState {
    /// Validity: every region has its full size, the cartridge and audio
    /// block are valid, and the divider accumulator is below its modulus.
    pub open spec fn wf(self) -> bool {
        &&& self.boot.len() == 0x100
        &&& self.video_ram.len() == 0x2000
        &&& self.work_ram.len() == 0x2000
        &&& self.sprite_table.len() == 0xa0
        &&& self.zero_page.len() == 0x100
        &&& self.cart.wf()
        &&& self.audio.wf()
        &&& self.timer < 1024
    }

    /// What a read returns, by the address map.  The boot ROM shadows the
    /// first page until `FF50` is written; `FEA0-FEFF` reads open bus; `FF00`
    /// reads the selected key nibble (a cleared bit is a pressed key).
    pub open spec fn spec_get_byte(self, addr: u16) -> u8 {
        if addr < 0x100 {
            if self.zero_page[0x50] == 0 {
                self.boot[addr as int]
            } else {
                self.cart.spec_rom_byte(addr)
            }
        } else if addr < 0x8000 {
            self.cart.spec_rom_byte(addr)
        } else if addr < 0xa000 {
            self.video_ram[addr - 0x8000]
        } else if addr < 0xc000 {
            self.cart.spec_ram_byte((addr - 0xa000) as u16)
        } else if addr < 0xe000 {
            self.work_ram[addr - 0xc000]
        } else if addr < 0xfe00 {
            self.work_ram[addr - 0xe000]
        } else if addr < 0xfea0 {
            self.sprite_table[addr - 0xfe00]
        } else if addr < 0xff00 {
            0xff
        } else if addr == 0xff00 {
            if self.key_select == KeySelect::Buttons {
                self.keys_buttons & 0xf
            } else {
                self.keys_directions & 0xf
            }
        } else {
            self.zero_page[addr - 0xff00]
        }
    }

    /// The 160 bytes the OAM DMA transfer reads, starting at `v << 8`.
    pub open spec fn dma_source(self, v: u8) -> Seq<u8> {
        Seq::new(0xa0, |i: int| self.spec_get_byte((((v as u16) << 8) + i) as u16))
    }

    /// The square-channel restart driven by a write of `v` to `FF14` (channel
    /// 1, with sweep) reading the shadow registers below it; the sweep
    /// parameters come from the fields of `FF10`.
    pub open spec fn spec_restart_channel_1(self, v: u8) -> audio::SquareChannelState {
        let freq = ((((v & 0x7) as u32) << 8) + self.zero_page[0x13]) as u32;
        let nr10 = self.zero_page[0x10];
        let nr12 = self.zero_page[0x12];
        self.audio.channel_1.spec_sweep((nr10 & 0x70) >> 4, (nr10 & 0x8) >> 3, nr10 & 0x7)
            .spec_reset(
            self.zero_page[0x11] & 0x3f,
            freq,
            (nr12 & 0xf0) >> 4,
            (nr12 & 0x4) >> 3,
            nr12 & 0x7,
        )
    }

    /// The square-channel restart driven by a write of `v` to `FF19` (channel
    /// 2) reading the shadow registers below it.
    pub open spec fn spec_restart_channel_2(self, v: u8) -> audio::SquareChannelState {
        let freq = ((((v & 0x7) as u32) << 8) + self.zero_page[0x18]) as u32;
        let nr22 = self.zero_page[0x17];
        self.audio.channel_2.spec_reset(
            self.zero_page[0x16] & 0x3f,
            freq,
            (nr22 & 0xf0) >> 4,
            (nr22 & 0x4) >> 3,
            nr22 & 0x7,
        )
    }

    /// The noise-channel restart driven by a write with bit 7 set to `FF23`.
    pub open spec fn spec_restart_channel_4(self) -> audio::NoiseChannelState {
        let nr42 = self.zero_page[0x21];
        self.audio.channel_4.spec_reset(
            self.zero_page[0x20],
            (nr42 & 0xf0) >> 4,
            (nr42 & 0x4) >> 3,
            nr42 & 0x7,
        )
    }

    /// Effect of pressing a button key: the mask is ANDed into the button
    /// nibble (a cleared bit is a pressed key) and the joypad interrupt is
    /// requested.
    pub open spec fn spec_key_down_button(self, mask: u8) -> MemState {
        MemState {
            keys_buttons: self.keys_buttons & mask,
            zero_page: self.zero_page.update(0x0f, self.zero_page[0x0f] | 0x10),
            ..self
        }
    }

    /// Effect of releasing a button key: the mask is ORed into the button
    /// nibble and the joypad interrupt is requested.
    pub open spec fn spec_key_up_button(self, mask: u8) -> MemState {
        MemState {
            keys_buttons: self.keys_buttons | mask,
            zero_page: self.zero_page.update(0x0f, self.zero_page[0x0f] | 0x10),
            ..self
        }
    }

    /// Effect of pressing a direction key.
    pub open spec fn spec_key_down_direction(self, mask: u8) -> MemState {
        MemState {
            keys_directions: self.keys_directions & mask,
            zero_page: self.zero_page.update(0x0f, self.zero_page[0x0f] | 0x10),
            ..self
        }
    }

    /// Effect of releasing a direction key.
    pub open spec fn spec_key_up_direction(self, mask: u8) -> MemState {
        MemState {
            keys_directions: self.keys_directions | mask,
            zero_page: self.zero_page.update(0x0f, self.zero_page[0x0f] | 0x10),
            ..self
        }
    }

    /// Effect of replacing the whole button nibble: the joypad interrupt is
    /// requested as for any key change.
    pub open spec fn spec_set_buttons(self, buttons: u8) -> MemState {
        MemState {
            keys_buttons: buttons,
            zero_page: self.zero_page.update(0x0f, self.zero_page[0x0f] | 0x10),
            ..self
        }
    }

    /// Effect of replacing the whole direction nibble.
    pub open spec fn spec_set_directions(self, directions: u8) -> MemState {
        MemState {
            keys_directions: directions,
            zero_page: self.zero_page.update(0x0f, self.zero_page[0x0f] | 0x10),
            ..self
        }
    }

    /// Effect of a write to the I/O page and high RAM (`FF00-FFFF`).
    pub open spec fn spec_set_io(self, addr: u16, v: u8) -> MemState {
        if addr >= 0xff80 {
            MemState { zero_page: self.zero_page.update(addr - 0xff00, v), ..self }
        } else if addr >= 0xff40 {
            if addr == 0xff41 {
                // The low three bits are owned by the GPU mode machine.
                MemState {
                    zero_page: self.zero_page.update(
                        0x41,
                        (v & 0xf8) | (self.zero_page[0x41] & 0x7),
                    ),
                    ..self
                }
            } else if addr == 0xff44 {
                // Writing LY refreshes the LY=LYC coincidence bit.
                let coincidence: u8 = if self.zero_page[0x45] == v {
                    0x4
                } else {
                    0x0
                };
                MemState {
                    zero_page: self.zero_page.update(0x44, v).update(
                        0x41,
                        (self.zero_page[0x41] & 0xfb) | coincidence,
                    ),
                    ..self
                }
            } else if addr == 0xff46 {
                // OAM DMA: copy 160 bytes from v << 8 into the sprite table.
                MemState { sprite_table: self.dma_source(v), ..self }
            } else {
                MemState { zero_page: self.zero_page.update(addr - 0xff00, v), ..self }
            }
        } else if addr == 0xff00 {
            if v & 0x20 == 0 {
                MemState { key_select: KeySelect::Buttons, ..self }
            } else if v & 0x10 == 0 {
                MemState { key_select: KeySelect::Directions, ..self }
            } else {
                self
            }
        } else if addr == 0xff04 {
            // Any write resets the divider.
            MemState { zero_page: self.zero_page.update(0x04, 0), ..self }
        } else if addr == 0xff05 {
            MemState { zero_page: self.zero_page.update(0x05, v), ..self }
        } else if addr == 0xff06 {
            MemState { zero_page: self.zero_page.update(0x06, v), ..self }
        } else if addr == 0xff07 {
            // Timer control keeps only its low three bits.
            MemState { zero_page: self.zero_page.update(0x07, v & 0x7), ..self }
        } else if addr == 0xff14 {
            let with_restart = if v & 0x80 > 0 {
                MemState {
                    audio: AudioState { channel_1: self.spec_restart_channel_1(v), ..self.audio },
                    ..self
                }
            } else {
                self
            };
            MemState { zero_page: self.zero_page.update(0x14, v), ..with_restart }
        } else if addr == 0xff19 {
            let with_restart = if v & 0x80 > 0 {
                MemState {
                    audio: AudioState { channel_2: self.spec_restart_channel_2(v), ..self.audio },
                    ..self
                }
            } else {
                self
            };
            MemState { zero_page: self.zero_page.update(0x19, v), ..with_restart }
        } else if addr == 0xff20 {
            MemState { zero_page: self.zero_page.update(0x20, v & 0x3f), ..self }
        } else if addr == 0xff22 {
            self
        } else if addr == 0xff23 {
            let with_restart = if v & 0x80 > 0 {
                MemState {
                    audio: AudioState { channel_4: self.spec_restart_channel_4(), ..self.audio },
                    ..self
                }
            } else {
                self
            };
            MemState { zero_page: self.zero_page.update(0x23, v & 0xc0), ..with_restart }
        } else if addr == 0xff24 {
            MemState {
                events: self.events.push(AudioEvent::MasterGain((v & 0x70) >> 4, v & 0x7)),
                ..self
            }
        } else if addr == 0xff26 {
            if v & 0x80 > 0 {
                MemState {
                    zero_page: self.zero_page.update(0x26, self.zero_page[0x26] & 0x80),
                    events: self.events.push(AudioEvent::Enabled(true)),
                    ..self
                }
            } else {
                MemState {
                    zero_page: self.zero_page.update(0x26, 0),
                    events: self.events.push(AudioEvent::Enabled(false)),
                    ..self
                }
            }
        } else {
            MemState { zero_page: self.zero_page.update(addr - 0xff00, v), ..self }
        }
    }

    /// Effect of a write anywhere in the address space.
    pub open spec fn spec_set_byte(self, addr: u16, v: u8) -> MemState {
        if addr < 0x8000 {
            MemState { cart: self.cart.spec_write_rom(addr, v), ..self }
        } else if addr < 0xa000 {
            let with_byte = MemState {
                video_ram: self.video_ram.update(addr - 0x8000, v),
                ..self
            };
            if addr < 0x9800 {
                MemState { tile_data_dirty: true, ..with_byte }
            } else if addr < 0x9c00 {
                MemState { tile_map_0_dirty: true, ..with_byte }
            } else {
                MemState { tile_map_1_dirty: true, ..with_byte }
            }
        } else if addr < 0xc000 {
            MemState {
                cart: self.cart.spec_set_ram((addr - 0xa000) as u16, v),
                cart_ram_dirty: true,
                ..self
            }
        } else if addr < 0xe000 {
            MemState { work_ram: self.work_ram.update(addr - 0xc000, v), ..self }
        } else if addr < 0xfe00 {
            // Echo region: mirrored into work RAM.
            MemState { work_ram: self.work_ram.update(addr - 0xe000, v), ..self }
        } else if addr < 0xfea0 {
            MemState { sprite_table: self.sprite_table.update(addr - 0xfe00, v), ..self }
        } else if addr < 0xff00 {
            self
        } else {
            self.spec_set_io(addr, v)
        }
    }

    /// What a little-endian 16-bit read returns.
    pub open spec fn spec_get_word(self, addr: u16) -> u16 {
        (self.spec_get_byte(word_next(addr)) * 256 + self.spec_get_byte(addr)) as u16
    }

    /// Effect of a little-endian 16-bit write: low byte first.
    pub open spec fn spec_set_word(self, addr: u16, v: u16) -> MemState {
        self.spec_set_byte(addr, (v & 0xff) as u8).spec_set_byte(word_next(addr), (v >> 8) as u8)
    }

    /// Effect of advancing the divider/timer accumulator by `t` clocks.  The
    /// divider (`FF04`) counts every 256 clocks; when the timer control
    /// (`FF07`) has its run bit set, TIMA (`FF05`) counts at the configured
    /// rate and reloads from TMA (`FF06`) on overflow, raising the timer
    /// interrupt.  The audio channels advance by the same time.
    pub open spec fn spec_add_time(self, t: u8) -> MemState {
        let next_time = self.timer + t;
        let base_start = self.timer / 16;
        let base_end = next_time / 16;
        let s1 = if base_end > base_start {
            let with_div = if base_end / 16 > base_start / 16 {
                MemState {
                    zero_page: self.zero_page.update(
                        0x04,
                        vstd::wrapping::u8_specs::wrapping_add(self.zero_page[0x04], 1),
                    ),
                    ..self
                }
            } else {
                self
            };
            let control = self.zero_page[0x07];
            if control & 0x4 > 0 {
                let speed_mod: int = if control & 0x3 == 0 {
                    64
                } else if control & 0x3 == 1 {
                    1
                } else if control & 0x3 == 2 {
                    4
                } else {
                    16
                };
                if base_end % speed_mod == 0 {
                    if self.zero_page[0x05] == 0xff {
                        // TIMA overflow: reload from TMA, request the timer
                        // interrupt.
                        MemState {
                            zero_page: with_div.zero_page.update(
                                0x0f,
                                with_div.zero_page[0x0f] | 0x4,
                            ).update(0x05, with_div.zero_page[0x06]),
                            ..with_div
                        }
                    } else {
                        MemState {
                            zero_page: with_div.zero_page.update(
                                0x05,
                                (with_div.zero_page[0x05] + 1) as u8,
                            ),
                            ..with_div
                        }
                    }
                } else {
                    with_div
                }
            } else {
                with_div
            }
        } else {
            self
        };
        MemState {
            timer: (next_time % 1024) as u16,
            audio: self.audio.spec_add_time(t),
            ..s1
        }
    }
}

impl MemMap {
    pub fn get_byte(&self, addr: u16) -> (r: u8)
        requires
            self@.wf(),
        ensures
            r == self@.spec_get_byte(addr),
    {
        if addr < 0x100 {
            if self.zero_page[0x50] == 0 {
                return self.boot[addr as usize];
            } else {
                return self.cart.get_rom_byte(addr);
            }
        }
        if addr < 0x8000 {
            return self.cart.get_rom_byte(addr);
        }
        if addr < 0xa000 {
            return self.video_ram[(addr - 0x8000) as usize];
        }
        if addr < 0xc000 {
            return self.cart.get_ram_byte(addr - 0xa000);
        }
        if addr < 0xe000 {
            return self.work_ram[(addr - 0xc000) as usize];
        }
        if addr < 0xfe00 {
            return self.work_ram[(addr - 0xe000) as usize];
        }
        if addr < 0xfea0 {
            return self.sprite_table[(addr - 0xfe00) as usize];
        }
        if addr < 0xff00 {
            // Inaccessible
            return 0xff;
        }
        if addr == 0xff00 {
            if self.key_select == KeySelect::Buttons {
                return self.keys_buttons & 0xf;
            } else {
                return self.keys_directions & 0xf;
            }
        }
        self.zero_page[(addr - 0xff00) as usize]
    }

    /// The OAM DMA transfer: copy 160 bytes starting at `value << 8` into the
    /// sprite table.
    fn dma_transfer(&mut self, value: u8)
        requires
            old(self)@.wf(),
        ensures
            final(self)@ == (MemState { sprite_table: old(self)@.dma_source(value), ..old(self)@ }),
            final(self)@.wf(),
    {
        let src: u16 = (value as u16) << 8;
        assert(((value as u16) << 8) <= 0xff00) by (bit_vector);
        let mut buf: Vec<u8> = Vec::new();
        let mut i: u16 = 0;
        while i < 0xa0
            invariant
                self == old(self),
                self@.wf(),
                i <= 0xa0,
                src == ((value as u16) << 8),
                src <= 0xff00,
                buf@.len() == i,
                forall|j: int| 0 <= j < i ==> buf@[j] == self@.spec_get_byte((src + j) as u16),
            decreases 0xa0 - i,
        {
            let b = self.get_byte(src + i);
            buf.push(b);
            i = i + 1;
        }
        let mut k: usize = 0;
        while k < 0xa0
            invariant
                old(self)@.wf(),
                k <= 0xa0,
                buf@.len() == 0xa0,
                src == ((value as u16) << 8),
                src <= 0xff00,
                forall|j: int| 0 <= j < 0xa0 ==> buf@[j] == old(self)@.spec_get_byte(
                    (src + j) as u16,
                ),
                self@ == (MemState { sprite_table: self@.sprite_table, ..old(self)@ }),
                self@.sprite_table.len() == 0xa0,
                forall|j: int| 0 <= j < k ==> self@.sprite_table[j] == buf@[j],
                forall|j: int|
                    k <= j < 0xa0 ==> self@.sprite_table[j] == old(self)@.sprite_table[j],
            decreases 0xa0 - k,
        {
            let b = buf[k];
            self.sprite_table.set(k, b);
            k = k + 1;
        }
        proof {
            assert forall|j: int| 0 <= j < 0xa0 implies self@.sprite_table[j] == old(
                self,
            )@.dma_source(value)[j] by {
                assert(self@.sprite_table[j] == buf@[j]);
                assert(buf@[j] == old(self)@.spec_get_byte((src + j) as u16));
            }
            assert(self@.sprite_table =~= old(self)@.dma_source(value));
            assert(self@ =~= (MemState { sprite_table: old(self)@.dma_source(value), ..old(self)@ }));
        }
    }

    /// Writes into the I/O page and high RAM.
    #[verifier::rlimit(60)]
    fn set_io_byte(&mut self, addr: u16, value: u8)
        requires
            old(self)@.wf(),
            0xff00 <= addr,
        ensures
            final(self)@ == old(self)@.spec_set_io(addr, value),
            final(self)@.wf(),
    {
        proof {
            lemma_u8_mask_range();
        }
        if addr >= 0xff80 {
            self.zero_page.set((addr - 0xff00) as usize, value);
            return;
        }
        if addr >= 0xff40 {
            // Graphics registers
            if addr == 0xff41 {
                // Can't write the lower three bits
                let cur_mode = self.zero_page[0x41] & 0x7;
                self.zero_page.set(0x41, (value & 0xf8) | cur_mode);
            } else if addr == 0xff44 {
                self.zero_page.set(0x44, value);
                let lyc = self.zero_page[0x45];
                let coincidence: u8 = if lyc == value {
                    0x4
                } else {
                    0x0
                };
                let stat = self.zero_page[0x41];
                self.zero_page.set(0x41, (stat & 0xfb) | coincidence);
            } else if addr == 0xff46 {
                self.dma_transfer(value);
            } else {
                self.zero_page.set((addr - 0xff00) as usize, value);
            }
            return;
        }
        if addr == 0xff00 {
            if value & 0x20 == 0 {
                self.key_select = KeySelect::Buttons;
            } else if value & 0x10 == 0 {
                self.key_select = KeySelect::Directions;
            }
            return;
        }
        if addr == 0xff04 {
            self.zero_page.set(0x04, 0);
            return;
        }
        if addr == 0xff05 {
            self.zero_page.set(0x05, value);
            return;
        }
        if addr == 0xff06 {
            self.zero_page.set(0x06, value);
            return;
        }
        if addr == 0xff07 {
            self.zero_page.set(0x07, value & 0x7);
            return;
        }
        if addr == 0xff14 {
            if value & 0x80 > 0 {
                // channel 1 restart; the sweep comes from the FF10 fields
                let nr10 = self.zero_page[0x10];
                let sweep_time = (nr10 & 0x70) >> 4;
                let sweep_dir = (nr10 & 0x8) >> 3;
                let sweep_shift = nr10 & 0x7;

                let len = self.zero_page[0x11] & 0x3f;
                proof {
                    lemma_freq_bound(value);
                }
                let freq = (((value & 0x7) as u32) << 8) + (self.zero_page[0x13] as u32);
                let nr12 = self.zero_page[0x12];
                let vol = (nr12 & 0xf0) >> 4;
                let vol_dir = (nr12 & 0x4) >> 3;
                let vol_len = nr12 & 0x7;
                self.audio.channel_1.sweep(sweep_time, sweep_dir, sweep_shift);
                self.audio.channel_1.reset(len, freq, vol, vol_dir, vol_len);
            }
            self.zero_page.set(0x14, value);
            return;
        }
        if addr == 0xff19 {
            if value & 0x80 > 0 {
                // channel 2 restart
                let len = self.zero_page[0x16] & 0x3f;
                proof {
                    lemma_freq_bound(value);
                }
                let freq = (((value & 0x7) as u32) << 8) + (self.zero_page[0x18] as u32);
                let nr22 = self.zero_page[0x17];
                let vol = (nr22 & 0xf0) >> 4;
                let vol_dir = (nr22 & 0x4) >> 3;
                let vol_len = nr22 & 0x7;
                self.audio.channel_2.reset(len, freq, vol, vol_dir, vol_len);
            }
            self.zero_page.set(0x19, value);
            return;
        }
        if addr == 0xff20 {
            // channel 4 length
            self.zero_page.set(0x20, value & 0x3f);
            return;
        }
        if addr == 0xff22 {
            // channel 4 polynomial counter: not modeled
            return;
        }
        if addr == 0xff23 {
            if value & 0x80 > 0 {
                // channel 4 restart
                let len = self.zero_page[0x20];
                let nr42 = self.zero_page[0x21];
                let vol = (nr42 & 0xf0) >> 4;
                let vol_dir = (nr42 & 0x4) >> 3;
                let vol_len = nr42 & 0x7;
                self.audio.channel_4.reset(len, vol, vol_dir, vol_len);
            }
            self.zero_page.set(0x23, value & 0xc0);
            return;
        }
        if addr == 0xff24 {
            // master volume, reported to the host mixer
            let left = (value & 0x70) >> 4;
            let right = value & 0x7;
            self.events.push(AudioEvent::MasterGain(left, right));
            return;
        }
        if addr == 0xff26 {
            // sound on/off
            if value & 0x80 > 0 {
                let cur = self.zero_page[0x26];
                self.zero_page.set(0x26, cur & 0x80);
                self.events.push(AudioEvent::Enabled(true));
            } else {
                self.zero_page.set(0x26, 0);
                self.events.push(AudioEvent::Enabled(false));
            }
            return;
        }
        self.zero_page.set((addr - 0xff00) as usize, value);
    }

    pub fn set_byte(&mut self, addr: u16, value: u8)
        requires
            old(self)@.wf(),
        ensures
            final(self)@ == old(self)@.spec_set_byte(addr, value),
            final(self)@.wf(),
    {
        if addr < 0x8000 {
            self.cart.write_rom_addr(addr, value);
            return;
        }
        if addr < 0xa000 {
            self.video_ram.set((addr - 0x8000) as usize, value);
            if addr < 0x9800 {
                self.tile_data_dirty = true;
            } else if addr < 0x9c00 {
                self.tile_map_0_dirty = true;
            } else {
                self.tile_map_1_dirty = true;
            }
            return;
        }
        if addr < 0xc000 {
            self.cart.set_ram_byte(addr - 0xa000, value);
            self.cart_ram_dirty = true;
            return;
        }
        if addr < 0xe000 {
            self.work_ram.set((addr - 0xc000) as usize, value);
            return;
        }
        if addr < 0xfe00 {
            // Echo region: mirrored into work RAM.
            self.work_ram.set((addr - 0xe000) as usize, value);
            return;
        }
        if addr < 0xfea0 {
            self.sprite_table.set((addr - 0xfe00) as usize, value);
            return;
        }
        if addr < 0xff00 {
            // Inaccessible
            return;
        }
        self.set_io_byte(addr, value);
    }

    pub fn get_word(&self, addr: u16) -> (r: u16)
        requires
            self@.wf(),
        ensures
            r == self@.spec_get_word(addr),
    {
        let low = self.get_byte(addr) as u16;
        let high = self.get_byte(if addr == 0xffff {
            0
        } else {
            addr + 1
        }) as u16;
        high * 256 + low
    }

    pub fn set_word(&mut self, addr: u16, value: u16)
        requires
            old(self)@.wf(),
        ensures
            final(self)@ == old(self)@.spec_set_word(addr, value),
            final(self)@.wf(),
    {
        let low = (value & 0xff) as u8;
        let high = (value >> 8) as u8;
        self.set_byte(addr, low);
        self.set_byte(if addr == 0xffff {
            0
        } else {
            addr + 1
        }, high);
    }

    pub fn key_down_button(&mut self, mask: u8)
        requires
            old(self)@.wf(),
        ensures
            final(self)@ == old(self)@.spec_key_down_button(mask),
            final(self)@.wf(),
    {
        self.keys_buttons = self.keys_buttons & mask;
        let cur = self.zero_page[0x0f];
        self.zero_page.set(0x0f, cur | 0x10);
    }

    pub fn key_up_button(&mut self, mask: u8)
        requires
            old(self)@.wf(),
        ensures
            final(self)@ == old(self)@.spec_key_up_button(mask),
            final(self)@.wf(),
    {
        self.keys_buttons = self.keys_buttons | mask;
        let cur = self.zero_page[0x0f];
        self.zero_page.set(0x0f, cur | 0x10);
    }

    pub fn key_down_direction(&mut self, mask: u8)
        requires
            old(self)@.wf(),
        ensures
            final(self)@ == old(self)@.spec_key_down_direction(mask),
            final(self)@.wf(),
    {
        self.keys_directions = self.keys_directions & mask;
        let cur = self.zero_page[0x0f];
        self.zero_page.set(0x0f, cur | 0x10);
    }

    pub fn key_up_direction(&mut self, mask: u8)
        requires
            old(self)@.wf(),
        ensures
            final(self)@ == old(self)@.spec_key_up_direction(mask),
            final(self)@.wf(),
    {
        self.keys_directions = self.keys_directions | mask;
        let cur = self.zero_page[0x0f];
        self.zero_page.set(0x0f, cur | 0x10);
    }

    pub fn set_buttons(&mut self, buttons: u8)
        requires
            old(self)@.wf(),
        ensures
            final(self)@ == old(self)@.spec_set_buttons(buttons),
            final(self)@.wf(),
    {
        self.keys_buttons = buttons;
        let cur = self.zero_page[0x0f];
        self.zero_page.set(0x0f, cur | 0x10);
    }

    pub fn set_directions(&mut self, directions: u8)
        requires
            old(self)@.wf(),
        ensures
            final(self)@ == old(self)@.spec_set_directions(directions),
            final(self)@.wf(),
    {
        self.keys_directions = directions;
        let cur = self.zero_page[0x0f];
        self.zero_page.set(0x0f, cur | 0x10);
    }

    #[verifier::rlimit(60)]
    pub fn add_time(&mut self, time: u8)
        requires
            old(self)@.wf(),
        ensures
            final(self)@ == old(self)@.spec_add_time(time),
            final(self)@.wf(),
    {
        let next_time: u16 = self.timer + (time as u16);
        let base_start = self.timer / 16;
        let base_end = next_time / 16;
        if base_end > base_start {
            if base_end / 16 > base_start / 16 {
                // Increment divider
                let div = self.zero_page[0x04];
                self.zero_page.set(0x04, div.wrapping_add(1));
            }
            let control = self.zero_page[0x07];
            if control & 0x4 > 0 {
                let speed_mod: u16 = if control & 0x3 == 0 {
                    64
                } else if control & 0x3 == 1 {
                    1
                } else if control & 0x3 == 2 {
                    4
                } else {
                    16
                };
                if base_end % speed_mod == 0 {
                    let counter = self.zero_page[0x05];
                    if counter == 0xff {
                        // Trigger the timer interrupt and reset to modulo
                        let fired = self.zero_page[0x0f];
                        self.zero_page.set(0x0f, fired | 0x4);
                        let modulo = self.zero_page[0x06];
                        self.zero_page.set(0x05, modulo);
                    } else {
                        self.zero_page.set(0x05, counter + 1);
                    }
                }
            }
        }
        self.timer = next_time % 1024;

        self.audio.add_time(time);
    }

    pub fn is_cart_ram_dirty(&mut self) -> (dirty: bool)
        ensures
            dirty == old(self)@.cart_ram_dirty,
            final(self)@ == (MemState { cart_ram_dirty: false, ..old(self)@ }),
    {
        let dirty = self.cart_ram_dirty;
        self.cart_ram_dirty = false;
        dirty
    }

    pub fn is_tile_data_dirty(&mut self) -> (dirty: bool)
        ensures
            dirty == old(self)@.tile_data_dirty,
            final(self)@ == (MemState { tile_data_dirty: false, ..old(self)@ }),
    {
        let dirty = self.tile_data_dirty;
        self.tile_data_dirty = false;
        dirty
    }

    pub fn is_tile_map_0_dirty(&mut self) -> (dirty: bool)
        ensures
            dirty == old(self)@.tile_map_0_dirty,
            final(self)@ == (MemState { tile_map_0_dirty: false, ..old(self)@ }),
    {
        let dirty = self.tile_map_0_dirty;
        self.tile_map_0_dirty = false;
        dirty
    }

    pub fn is_tile_map_1_dirty(&mut self) -> (dirty: bool)
        ensures
            dirty == old(self)@.tile_map_1_dirty,
            final(self)@ == (MemState { tile_map_1_dirty: false, ..old(self)@ }),
    {
        let dirty = self.tile_map_1_dirty;
        self.tile_map_1_dirty = false;
        dirty
    }

    /// Hand every queued mixer change to the caller, oldest first within each
    /// source: master events, then channels 1, 2 and 4.
    pub fn take_audio_events(&mut self) -> (r: Vec<AudioEvent>)
        ensures
            r@ == old(self)@.events + old(self)@.audio.channel_1.events
                + old(self)@.audio.channel_2.events + old(self)@.audio.channel_4.events,
            final(self)@ == (MemState {
                events: Seq::empty(),
                audio: AudioState {
                    channel_1: audio::SquareChannelState {
                        events: Seq::empty(),
                        ..old(self)@.audio.channel_1
                    },
                    channel_2: audio::SquareChannelState {
                        events: Seq::empty(),
                        ..old(self)@.audio.channel_2
                    },
                    channel_4: audio::NoiseChannelState {
                        events: Seq::empty(),
                        ..old(self)@.audio.channel_4
                    },
                },
                ..old(self)@
            }),
    {
        let mut out: Vec<AudioEvent> = Vec::new();
        core::mem::swap(&mut out, &mut self.events);
        let mut c1 = self.audio.channel_1.take_events();
        let mut c2 = self.audio.channel_2.take_events();
        let mut c4 = self.audio.channel_4.take_events();
        out.append(&mut c1);
        out.append(&mut c2);
        out.append(&mut c4);
        proof {
            assert(self@ =~= (MemState {
                events: Seq::<AudioEvent>::empty(),
                audio: AudioState {
                    channel_1: audio::SquareChannelState {
                        events: Seq::<AudioEvent>::empty(),
                        ..old(self)@.audio.channel_1
                    },
                    channel_2: audio::SquareChannelState {
                        events: Seq::<AudioEvent>::empty(),
                        ..old(self)@.audio.channel_2
                    },
                    channel_4: audio::NoiseChannelState {
                        events: Seq::<AudioEvent>::empty(),
                        ..old(self)@.audio.channel_4
                    },
                },
                ..old(self)@
            }));
        }
        out
    }

    /// Load the I/O registers with the values the boot ROM leaves behind, so
    /// that a cartridge can start at `0x0100` without the boot image.
    pub fn simulate_bootloader(&mut self)
        requires
            old(self)@.wf(),
        ensures
            final(self)@ == old(self)@.spec_simulate_bootloader(),
            final(self)@.wf(),
    {
        self.set_byte(0xff05, 0x00);
        self.set_byte(0xff06, 0x00);
        self.set_byte(0xff07, 0x00);
        self.set_byte(0xff10, 0x80);
        self.set_byte(0xff11, 0x80);
        self.set_byte(0xff12, 0xf3);
        self.set_byte(0xff13, 0xc1);
        self.set_byte(0xff14, 0x87);
        self.set_byte(0xff16, 0x3f);
        self.set_byte(0xff17, 0x00);
        self.set_byte(0xff19, 0xbf);
        self.set_byte(0xff1a, 0x7f);
        self.set_byte(0xff1b, 0xff);
        self.set_byte(0xff1c, 0x9f);
        self.set_byte(0xff1e, 0xbf);
        self.set_byte(0xff20, 0xff);
        self.set_byte(0xff21, 0x00);
        self.set_byte(0xff22, 0x00);
        self.set_byte(0xff23, 0xbf);
        self.set_byte(0xff24, 0x77);
        self.set_byte(0xff25, 0xf3);
        self.set_byte(0xff26, 0x80);
        self.set_byte(0xff40, 0x91);
        self.set_byte(0xff42, 0x00);
        self.set_byte(0xff43, 0x00);
        self.set_byte(0xff44, 0x8f);
        self.set_byte(0xff45, 0x00);
        self.set_byte(0xff47, 0xfc);
        self.set_byte(0xff48, 0xff);
        self.set_byte(0xff49, 0xff);
        self.set_byte(0xff4a, 0x00);
        self.set_byte(0xff4b, 0x00);
        self.set_byte(0xff50, 0x01);
        self.set_byte(0xfffb, 0x01);
        self.set_byte(0xfffc, 0x2e);
        self.set_byte(0xfffd, 0x00);
        self.set_byte(0xffff, 0x00);
    }
}

impl MemState {
    /// The register state the boot ROM leaves behind, as a chain of ordinary
    /// writes.
    pub open spec fn spec_simulate_bootloader(self) -> MemState {
        self.spec_set_byte(0xff05, 0x00).spec_set_byte(0xff06, 0x00).spec_set_byte(0xff07, 0x00)
            .spec_set_byte(0xff10, 0x80).spec_set_byte(0xff11, 0x80).spec_set_byte(0xff12, 0xf3)
            .spec_set_byte(0xff13, 0xc1).spec_set_byte(0xff14, 0x87).spec_set_byte(0xff16, 0x3f)
            .spec_set_byte(0xff17, 0x00).spec_set_byte(0xff19, 0xbf).spec_set_byte(0xff1a, 0x7f)
            .spec_set_byte(0xff1b, 0xff).spec_set_byte(0xff1c, 0x9f).spec_set_byte(0xff1e, 0xbf)
            .spec_set_byte(0xff20, 0xff).spec_set_byte(0xff21, 0x00).spec_set_byte(0xff22, 0x00)
            .spec_set_byte(0xff23, 0xbf).spec_set_byte(0xff24, 0x77).spec_set_byte(0xff25, 0xf3)
            .spec_set_byte(0xff26, 0x80).spec_set_byte(0xff40, 0x91).spec_set_byte(0xff42, 0x00)
            .spec_set_byte(0xff43, 0x00).spec_set_byte(0xff44, 0x8f).spec_set_byte(0xff45, 0x00)
            .spec_set_byte(0xff47, 0xfc).spec_set_byte(0xff48, 0xff).spec_set_byte(0xff49, 0xff)
            .spec_set_byte(0xff4a, 0x00).spec_set_byte(0xff4b, 0x00).spec_set_byte(0xff50, 0x01)
            .spec_set_byte(0xfffb, 0x01).spec_set_byte(0xfffc, 0x2e).spec_set_byte(0xfffd, 0x00)
            .spec_set_byte(0xffff, 0x00)
    }
}

/// The initial bus: zeroed memory, no keys pressed, buttons selected, all
/// tile regions marked dirty so the host renders the first frame fully.
pub fn create_memmap(mbc: u8) -> (r: MemMap)
    ensures
        r@.wf(),
        r@.boot == Seq::new(0x100, |i: int| 0u8),
        r@.video_ram == Seq::new(0x2000, |i: int| 0u8),
        r@.work_ram == Seq::new(0x2000, |i: int| 0u8),
        r@.sprite_table == Seq::new(0xa0, |i: int| 0u8),
        r@.zero_page == Seq::new(0x100, |i: int| 0u8),
        r@.cart == create_cart_state(mbc),
        r@.keys_buttons == 0x0f,
        r@.keys_directions == 0x0f,
        r@.key_select == KeySelect::Buttons,
        r@.timer == 0,
        r@.audio == (AudioState {
            channel_1: audio::square_channel_init(0),
            channel_2: audio::square_channel_init(1),
            channel_4: audio::noise_channel_init(),
        }),
        r@.events == Seq::<AudioEvent>::empty(),
        !r@.cart_ram_dirty,
        r@.tile_map_0_dirty,
        r@.tile_map_1_dirty,
        r@.tile_data_dirty,
{
    let r = MemMap {
        boot: zero_bytes(0x100),
        video_ram: zero_bytes(0x2000),
        work_ram: zero_bytes(0x2000),
        sprite_table: zero_bytes(0xa0),
        zero_page: zero_bytes(0x100),

        cart: cart::create_cart(mbc),

        keys_buttons: 0x0f,
        keys_directions: 0x0f,
        key_select: KeySelect::Buttons,

        timer: 0,

        audio: audio::create_audio(),
        events: Vec::new(),

        cart_ram_dirty: false,
        tile_map_0_dirty: true,
        tile_map_1_dirty: true,
        tile_data_dirty: true,
    };
    proof {
        assert(r@.boot =~= Seq::new(0x100, |i: int| 0u8));
        assert(r@.video_ram =~= Seq::new(0x2000, |i: int| 0u8));
        assert(r@.work_ram =~= Seq::new(0x2000, |i: int| 0u8));
        assert(r@.sprite_table =~= Seq::new(0xa0, |i: int| 0u8));
        assert(r@.zero_page =~= Seq::new(0x100, |i: int| 0u8));
    }
    r
}

/// The cartridge model `create_cart` builds for a type byte.
pub open spec fn create_cart_state(mbc: u8) -> CartState {
    CartState {
        mbc: cart::cart_profile(mbc).0,
        rom_size: cart::cart_profile(mbc).1,
        ram_size: cart::cart_profile(mbc).2,
        rom_bank: 1,
        ram_bank: 0,
        has_battery: cart::cart_profile(mbc).3,
        has_timer: cart::cart_profile(mbc).4,
        has_rumble: cart::cart_profile(mbc).5,
        select_mode: cart::SelectMode::ROM,
        ram_enabled: false,
        rom: Seq::new(cart::ROM_LEN as nat, |i: int| 0u8),
        ram: Seq::new(cart::RAM_LEN as nat, |i: int| 0u8),
    }
}

/// Writing the divider register stores zero whatever was written, so a read
/// straight after any write to `FF04` returns zero.
pub proof fn law_divider_write_reads_zero(s: MemState, v: u8)
    requires
        s.wf(),
    ensures
        s.spec_set_byte(0xff04, v).spec_get_byte(0xff04) == 0,
{
}

/// The low three bits of the LCD status register cannot be written: a write
/// of `v` to `FF41` keeps them, and takes the upper five bits from `v`.
pub proof fn law_stat_low_bits_preserved(s: MemState, v: u8)
    requires
        s.wf(),
    ensures
        s.spec_set_byte(0xff41, v).spec_get_byte(0xff41) & 0x7 == s.spec_get_byte(0xff41) & 0x7,
        s.spec_set_byte(0xff41, v).spec_get_byte(0xff41) & 0xf8 == v & 0xf8,
{
    let stored = (v & 0xf8) | (s.zero_page[0x41] & 0x7);
    assert(s.spec_set_byte(0xff41, v).spec_get_byte(0xff41) == stored);
    let prev = s.zero_page[0x41];
    assert(((v & 0xf8) | (prev & 0x7)) & 0x7 == prev & 0x7) by (bit_vector);
    assert(((v & 0xf8) | (prev & 0x7)) & 0xf8 == v & 0xf8) by (bit_vector);
}

/// After a write of `v` to `FF46`, each of the 160 sprite-table bytes at
/// `FE00..FE9F` reads back as the byte at `(v << 8) + i` before the write.
pub proof fn law_dma_copies_oam(s: MemState, v: u8, i: int)
    requires
        s.wf(),
        0 <= i < 0xa0,
    ensures
        s.spec_set_byte(0xff46, v).spec_get_byte((0xfe00 + i) as u16) == s.spec_get_byte(
            (((v as u16) << 8) + i) as u16,
        ),
{
    let s2 = s.spec_set_byte(0xff46, v);
    assert(s2.sprite_table == s.dma_source(v));
    assert(s2.spec_get_byte((0xfe00 + i) as u16) == s2.sprite_table[i]);
}

/// A 16-bit write followed by a 16-bit read of the same address returns the
/// written value, on every address whose two bytes land in plain RAM (video
/// RAM, work RAM or its echo, the sprite table, or high RAM).
pub proof fn law_word_round_trip(s: MemState, addr: u16, v: u16)
    requires
        s.wf(),
        (0x8000 <= addr < 0x9fff) || (0xc000 <= addr < 0xfdff) || (0xfe00 <= addr < 0xfe9f) || (
        0xff80 <= addr < 0xfffe),
    ensures
        s.spec_set_word(addr, v).spec_get_word(addr) == v,
{
    let low = (v & 0xff) as u8;
    let high = (v >> 8) as u8;
    let s1 = s.spec_set_byte(addr, low);
    let s2 = s1.spec_set_byte((addr + 1) as u16, high);
    assert(s2.spec_get_byte(addr) == low);
    assert(s2.spec_get_byte((addr + 1) as u16) == high);
    assert(high * 256 + low == v) by (bit_vector)
        requires
            low == (v & 0xff) as u8,
            high == (v >> 8) as u8,
    ;
}

} // verus!
