//! Audio register shadow: two square-wave channels with length, envelope and
//! (channel 1) frequency sweep, and one noise channel with length and
//! envelope.  The channels do not synthesize sound; they compute gain and
//! frequency changes and queue them as events for the host mixer.

use vstd::prelude::*;
use crate::bits::lemma_u32_shr_le;

verus! {

/// A change the host mixer is asked to apply.
#[derive(Clone, Copy, PartialEq, Eq, Structural)]
pub enum AudioEvent {
    Channel1Freq(u32),
    Channel1Gain(u8),
    Channel2Freq(u32),
    Channel2Gain(u8),
    Channel4Gain(u8),
    MasterGain(u8, u8),
    Enabled(bool),
}

pub struct SquareChannel {
    pub index: u8,

    pub freq: u32,
    pub volume: u8,
    pub volume_dir: u8,
    pub volume_counter: u8,
    pub counter: u8,
    pub time: u32,

    pub shadow_freq: u32,
    pub sweep_counter: u8,
    pub sweep_time: u8,
    pub sweep_dir: u8,
    pub sweep_shift: u8,

    pub events: Vec<AudioEvent>,
}

/// Mathematical model of a square channel.
#[verifier::ext_equal]
pub struct SquareChannelState {
    pub index: u8,
    pub freq: u32,
    pub volume: u8,
    pub volume_dir: u8,
    pub volume_counter: u8,
    pub counter: u8,
    pub time: u32,
    pub shadow_freq: u32,
    pub sweep_counter: u8,
    pub sweep_time: u8,
    pub sweep_dir: u8,
    pub sweep_shift: u8,
    pub events: Seq<AudioEvent>,
}

impl View for SquareChannel {
    type V = SquareChannelState;

    open spec fn view(&self) -> SquareChannelState {
        SquareChannelState {
            index: self.index,
            freq: self.freq,
            volume: self.volume,
            volume_dir: self.volume_dir,
            volume_counter: self.volume_counter,
            counter: self.counter,
            time: self.time,
            shadow_freq: self.shadow_freq,
            sweep_counter: self.sweep_counter,
            sweep_time: self.sweep_time,
            sweep_dir: self.sweep_dir,
            sweep_shift: self.sweep_shift,
            events: self.events@,
        }
    }
}

/// The gain event of the square channel with the given index; channels other
/// than the first two report nothing.
pub open spec fn push_square_gain(index: u8, events: Seq<AudioEvent>, v: u8) -> Seq<AudioEvent> {
    if index == 0 {
        events.push(AudioEvent::Channel1Gain(v))
    } else if index == 1 {
        events.push(AudioEvent::Channel2Gain(v))
    } else {
        events
    }
}

/// The frequency event of the square channel with the given index.
pub open spec fn push_square_freq(index: u8, events: Seq<AudioEvent>, f: u32) -> Seq<AudioEvent> {
    if index == 0 {
        events.push(AudioEvent::Channel1Freq(f))
    } else if index == 1 {
        events.push(AudioEvent::Channel2Freq(f))
    } else {
        events
    }
}

impl SquareChannelState {
    /// Validity: frequencies fit the 11-bit register and the sweep shift is a
    /// legal shift amount.
    pub open spec fn wf(self) -> bool {
        &&& self.freq <= 2047
        &&& self.shadow_freq <= 2047
        &&& self.sweep_shift < 32
    }

    /// Effect of a channel restart: length counter reloaded, envelope
    /// reloaded, and the host told the new frequency and gain.
    pub open spec fn spec_reset(self, len: u8, freq: u32, vol: u8, vol_dir: u8, vol_len: u8)
        -> SquareChannelState {
        SquareChannelState {
            counter: (64 - (len & 0x3f)) as u8,
            freq,
            time: 0,
            volume: vol,
            volume_dir: vol_dir,
            volume_counter: vol_len,
            events: push_square_gain(
                self.index,
                push_square_freq(self.index, self.events, (131072int / (2048 - freq)) as u32),
                vol,
            ),
            ..self
        }
    }

    /// Effect of loading the sweep registers.
    pub open spec fn spec_sweep(self, time: u8, dir: u8, shift: u8) -> SquareChannelState {
        SquareChannelState {
            shadow_freq: self.freq,
            sweep_counter: 0,
            sweep_time: time,
            sweep_dir: dir,
            sweep_shift: shift,
            ..self
        }
    }

    /// Effect of advancing the channel clock: the 256 Hz length counter, the
    /// 128 Hz frequency sweep, and the 64 Hz volume envelope each tick when
    /// the accumulated time crosses their period.
    pub open spec fn spec_add_time(self, t: u32) -> SquareChannelState {
        let overflow = self.time + t > u32::MAX;
        let next_time = vstd::wrapping::u32_specs::wrapping_add(self.time, t);
        let s1 = if self.counter > 0 && (overflow || next_time / 65536 > self.time / 65536) {
            if self.counter == 1 {
                SquareChannelState {
                    counter: 0,
                    events: push_square_gain(self.index, self.events, 0),
                    ..self
                }
            } else {
                SquareChannelState { counter: (self.counter - 1) as u8, ..self }
            }
        } else {
            self
        };
        let s2 = if s1.sweep_time > 0 && s1.shadow_freq > 0 && (overflow || next_time / 131072
            > s1.time / 131072) {
            let next_counter = vstd::wrapping::u8_specs::wrapping_add(s1.sweep_counter, 1);
            if next_counter / s1.sweep_time > s1.sweep_counter / s1.sweep_time {
                let delta = s1.shadow_freq >> (s1.sweep_shift as u32);
                let new_shadow: u32 = if s1.sweep_dir == 0 {
                    (s1.shadow_freq - delta) as u32
                } else {
                    if s1.shadow_freq + delta > 2047 {
                        0
                    } else {
                        (s1.shadow_freq + delta) as u32
                    }
                };
                SquareChannelState {
                    shadow_freq: new_shadow,
                    sweep_counter: next_counter,
                    events: s1.events.push(
                        AudioEvent::Channel1Freq((131072int / (2048 - new_shadow)) as u32),
                    ),
                    ..s1
                }
            } else {
                SquareChannelState { sweep_counter: next_counter, ..s1 }
            }
        } else {
            s1
        };
        let s3 = if s2.volume_counter > 0 && (overflow || next_time / 262272 > s2.time / 262272) {
            let new_volume: u8 = if s2.volume_dir == 0 && s2.volume > 0 {
                (s2.volume - 1) as u8
            } else if s2.volume_dir == 1 && s2.volume < 0xf {
                (s2.volume + 1) as u8
            } else {
                s2.volume
            };
            SquareChannelState {
                volume: new_volume,
                volume_counter: (s2.volume_counter - 1) as u8,
                events: push_square_gain(s2.index, s2.events, new_volume),
                ..s2
            }
        } else {
            s2
        };
        SquareChannelState { time: next_time, ..s3 }
    }
}

impl SquareChannel {
    pub fn sweep(&mut self, time: u8, dir: u8, shift: u8)
        requires
            shift < 32,
        ensures
            final(self)@ == old(self)@.spec_sweep(time, dir, shift),
            old(self)@.wf() ==> final(self)@.wf(),
    {
        self.shadow_freq = self.freq;
        self.sweep_counter = 0;
        self.sweep_time = time;
        self.sweep_dir = dir;
        self.sweep_shift = shift;
    }

    pub fn reset(&mut self, len: u8, freq: u32, vol: u8, vol_dir: u8, vol_len: u8)
        requires
            freq <= 2047,
        ensures
            final(self)@ == old(self)@.spec_reset(len, freq, vol, vol_dir, vol_len),
            old(self)@.wf() ==> final(self)@.wf(),
    {
        proof {
            crate::bits::lemma_u8_mask_range();
        }
        self.counter = 64 - (len & 0x3f);
        self.freq = freq;
        self.time = 0;
        self.volume = vol;
        self.volume_dir = vol_dir;
        self.volume_counter = vol_len;
        let f = 131072 / (2048 - freq);
        match self.index {
            0 => {
                self.events.push(AudioEvent::Channel1Freq(f));
                self.events.push(AudioEvent::Channel1Gain(vol));
            },
            1 => {
                self.events.push(AudioEvent::Channel2Freq(f));
                self.events.push(AudioEvent::Channel2Gain(vol));
            },
            _ => (),
        };
    }

    pub fn add_time(&mut self, t: u32)
        requires
            old(self)@.wf(),
        ensures
            final(self)@ == old(self)@.spec_add_time(t),
            final(self)@.wf(),
    {
        let overflow = self.time > u32::MAX - t;
        let next_time = self.time.wrapping_add(t);
        if self.counter > 0 {
            // 256 Hz
            if overflow || ((next_time / 65536) > (self.time / 65536)) {
                self.counter -= 1;
                if self.counter == 0 {
                    match self.index {
                        0 => self.events.push(AudioEvent::Channel1Gain(0)),
                        1 => self.events.push(AudioEvent::Channel2Gain(0)),
                        _ => (),
                    };
                }
            }
        }

        if self.sweep_time > 0 && self.shadow_freq > 0 {
            // 128 Hz
            if overflow || ((next_time / 131072) > (self.time / 131072)) {
                let next_counter = self.sweep_counter.wrapping_add(1);
                if (next_counter / self.sweep_time) > (self.sweep_counter / self.sweep_time) {
                    proof {
                        lemma_u32_shr_le(self.shadow_freq, self.sweep_shift as u32);
                    }
                    let delta = self.shadow_freq >> (self.sweep_shift as u32);
                    if self.sweep_dir == 0 {
                        self.shadow_freq -= delta;
                    } else {
                        self.shadow_freq += delta;
                        if self.shadow_freq > 2047 {
                            self.shadow_freq = 0;
                        }
                    }
                    let f = 131072 / (2048 - self.shadow_freq);
                    self.events.push(AudioEvent::Channel1Freq(f));
                }
                self.sweep_counter = next_counter;
            }
        }

        if self.volume_counter > 0 {
            // 64 Hz
            if overflow || ((next_time / 262272) > (self.time / 262272)) {
                self.volume_counter -= 1;
                if self.volume_dir == 0 && self.volume > 0 {
                    self.volume -= 1;
                } else if self.volume_dir == 1 && self.volume < 0xf {
                    self.volume += 1;
                }
                match self.index {
                    0 => self.events.push(AudioEvent::Channel1Gain(self.volume)),
                    1 => self.events.push(AudioEvent::Channel2Gain(self.volume)),
                    _ => (),
                };
            }
        }
        self.time = next_time;
    }

    /// Hand the queued mixer changes to the caller and clear the queue.
    pub fn take_events(&mut self) -> (r: Vec<AudioEvent>)
        ensures
            r@ == old(self)@.events,
            final(self)@ == (SquareChannelState { events: Seq::empty(), ..old(self)@ }),
    {
        let mut out: Vec<AudioEvent> = Vec::new();
        core::mem::swap(&mut out, &mut self.events);
        proof {
            assert(self@ =~= (SquareChannelState { events: Seq::<AudioEvent>::empty(), ..old(self)@ }));
        }
        out
    }
}

pub struct NoiseChannel {
    pub volume: u8,
    pub volume_dir: u8,
    pub volume_counter: u8,
    pub counter: u8,
    pub time: u32,

    pub events: Vec<AudioEvent>,
}

/// Mathematical model of the noise channel.
#[verifier::ext_equal]
pub struct NoiseChannelState {
    pub volume: u8,
    pub volume_dir: u8,
    pub volume_counter: u8,
    pub counter: u8,
    pub time: u32,
    pub events: Seq<AudioEvent>,
}

impl View for NoiseChannel {
    type V = NoiseChannelState;

    open spec fn view(&self) -> NoiseChannelState {
        NoiseChannelState {
            volume: self.volume,
            volume_dir: self.volume_dir,
            volume_counter: self.volume_counter,
            counter: self.counter,
            time: self.time,
            events: self.events@,
        }
    }
}

impl NoiseChannelState {
    /// Effect of a channel restart.
    pub open spec fn spec_reset(self, len: u8, vol: u8, vol_dir: u8, vol_len: u8)
        -> NoiseChannelState {
        NoiseChannelState {
            counter: (64 - (len & 0x3f)) as u8,
            time: 0,
            volume: vol,
            volume_dir: vol_dir,
            volume_counter: vol_len,
            events: self.events.push(AudioEvent::Channel4Gain(vol)),
        }
    }

    /// Effect of advancing the channel clock: length counter at 256 Hz,
    /// volume envelope at 64 Hz.
    pub open spec fn spec_add_time(self, t: u32) -> NoiseChannelState {
        let overflow = self.time + t > u32::MAX;
        let next_time = vstd::wrapping::u32_specs::wrapping_add(self.time, t);
        let s1 = if self.counter > 0 && (overflow || next_time / 65536 > self.time / 65536) {
            if self.counter == 1 {
                NoiseChannelState {
                    counter: 0,
                    volume_counter: 0,
                    events: self.events.push(AudioEvent::Channel4Gain(0)),
                    ..self
                }
            } else {
                NoiseChannelState { counter: (self.counter - 1) as u8, ..self }
            }
        } else {
            self
        };
        let s2 = if s1.volume_counter > 0 && (overflow || next_time / 262272 > s1.time / 262272) {
            let new_volume: u8 = if s1.volume_dir == 0 && s1.volume > 0 {
                (s1.volume - 1) as u8
            } else if s1.volume_dir == 1 && s1.volume < 0xf {
                (s1.volume + 1) as u8
            } else {
                s1.volume
            };
            NoiseChannelState {
                volume: new_volume,
                volume_counter: (s1.volume_counter - 1) as u8,
                events: s1.events.push(AudioEvent::Channel4Gain(new_volume)),
                ..s1
            }
        } else {
            s1
        };
        NoiseChannelState { time: next_time, ..s2 }
    }
}

impl NoiseChannel {
    pub fn reset(&mut self, len: u8, vol: u8, vol_dir: u8, vol_len: u8)
        ensures
            final(self)@ == old(self)@.spec_reset(len, vol, vol_dir, vol_len),
    {
        proof {
            crate::bits::lemma_u8_mask_range();
        }
        self.counter = 64 - (len & 0x3f);
        self.time = 0;
        self.volume = vol;
        self.volume_dir = vol_dir;
        self.volume_counter = vol_len;
        self.events.push(AudioEvent::Channel4Gain(vol));
    }

    pub fn add_time(&mut self, t: u32)
        ensures
            final(self)@ == old(self)@.spec_add_time(t),
    {
        let overflow = self.time > u32::MAX - t;
        let next_time = self.time.wrapping_add(t);
        if self.counter > 0 {
            // 256 Hz
            if overflow || ((next_time / 65536) > (self.time / 65536)) {
                self.counter -= 1;
                if self.counter == 0 {
                    self.volume_counter = 0;
                    self.events.push(AudioEvent::Channel4Gain(0));
                }
            }
        }

        if self.volume_counter > 0 {
            // 64 Hz
            if overflow || ((next_time / 262272) > (self.time / 262272)) {
                self.volume_counter -= 1;
                if self.volume_dir == 0 && self.volume > 0 {
                    self.volume -= 1;
                } else if self.volume_dir == 1 && self.volume < 0xf {
                    self.volume += 1;
                }
                self.events.push(AudioEvent::Channel4Gain(self.volume));
            }
        }
        self.time = next_time;
    }

    /// Hand the queued mixer changes to the caller and clear the queue.
    pub fn take_events(&mut self) -> (r: Vec<AudioEvent>)
        ensures
            r@ == old(self)@.events,
            final(self)@ == (NoiseChannelState { events: Seq::empty(), ..old(self)@ }),
    {
        let mut out: Vec<AudioEvent> = Vec::new();
        core::mem::swap(&mut out, &mut self.events);
        proof {
            assert(self@ =~= (NoiseChannelState { events: Seq::<AudioEvent>::empty(), ..old(self)@ }));
        }
        out
    }
}

pub struct Audio {
    pub channel_1: SquareChannel,
    pub channel_2: SquareChannel,
    pub channel_4: NoiseChannel,
}

/// Mathematical model of the audio block.
#[verifier::ext_equal]
pub struct AudioState {
    pub channel_1: SquareChannelState,
    pub channel_2: SquareChannelState,
    pub channel_4: NoiseChannelState,
}

impl View for Audio {
    type V = AudioState;

    open spec fn view(&self) -> AudioState {
        AudioState { channel_1: self.channel_1@, channel_2: self.channel_2@, channel_4: self.channel_4@ }
    }
}

impl AudioState {
    pub open spec fn wf(self) -> bool {
        self.channel_1.wf() && self.channel_2.wf()
    }

    /// Effect of advancing all channels by the same time.
    pub open spec fn spec_add_time(self, t: u8) -> AudioState {
        AudioState {
            channel_1: self.channel_1.spec_add_time(t as u32),
            channel_2: self.channel_2.spec_add_time(t as u32),
            channel_4: self.channel_4.spec_add_time(t as u32),
        }
    }
}

impl Audio {
    pub fn add_time(&mut self, t: u8)
        requires
            old(self)@.wf(),
        ensures
            final(self)@ == old(self)@.spec_add_time(t),
            final(self)@.wf(),
    {
        self.channel_1.add_time(t as u32);
        self.channel_2.add_time(t as u32);
        self.channel_4.add_time(t as u32);
    }
}

/// The initial value of a square channel with the given index.
pub open spec fn square_channel_init(index: u8) -> SquareChannelState {
    SquareChannelState {
        index,
        volume: 0,
        volume_dir: 0,
        volume_counter: 0,
        counter: 0,
        time: 0,
        freq: 0,
        shadow_freq: 0,
        sweep_counter: 0,
        sweep_time: 0,
        sweep_dir: 0,
        sweep_shift: 0,
        events: Seq::empty(),
    }
}

/// The initial value of the noise channel.
pub open spec fn noise_channel_init() -> NoiseChannelState {
    NoiseChannelState {
        volume: 0,
        volume_dir: 0,
        volume_counter: 0,
        counter: 0,
        time: 0,
        events: Seq::empty(),
    }
}

/// A silent audio block with empty event queues.
pub fn create_audio() -> (r: Audio)
    ensures
        r@ == (AudioState {
            channel_1: square_channel_init(0),
            channel_2: square_channel_init(1),
            channel_4: noise_channel_init(),
        }),
        r@.wf(),
{
    let r = Audio {
        channel_1: SquareChannel {
            index: 0,
            volume: 0,
            volume_dir: 0,
            volume_counter: 0,
            counter: 0,
            time: 0,
            freq: 0,
            shadow_freq: 0,
            sweep_counter: 0,
            sweep_time: 0,
            sweep_dir: 0,
            sweep_shift: 0,
            events: Vec::new(),
        },
        channel_2: SquareChannel {
            index: 1,
            volume: 0,
            volume_dir: 0,
            volume_counter: 0,
            counter: 0,
            time: 0,
            freq: 0,
            shadow_freq: 0,
            sweep_counter: 0,
            sweep_time: 0,
            sweep_dir: 0,
            sweep_shift: 0,
            events: Vec::new(),
        },

        channel_4: NoiseChannel {
            volume: 0,
            volume_dir: 0,
            volume_counter: 0,
            counter: 0,
            time: 0,
            events: Vec::new(),
        },
    };
    proof {
        assert(r@.channel_1 =~= square_channel_init(0));
        assert(r@.channel_2 =~= square_channel_init(1));
        assert(r@.channel_4 =~= noise_channel_init());
    }
    r
}

} // verus!
