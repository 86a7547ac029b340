//! The audio unit: four tone channels and the delta-modulation
//! channel, their length counters, and the frame sequencer that
//! divides the CPU clock and can raise the maskable frame interrupt.
//! Synthesis is a deliberately simple integer approximation -- every
//! channel is rendered from its period and volume registers as a
//! stepped waveform -- and the delta-modulation channel fetches its
//! sample bytes through the bus but contributes silence to the mix.
//! Samples are drained by the audio collaborator at its own pace; a
//! full buffer drops, it never stalls the machine.

use vstd::prelude::*;

verus! {

/// CPU cycles per frame-sequencer quarter step.
pub const SEQ_QUARTER: u32 = 7457;

/// CPU cycles per produced audio sample.
pub const SAMPLE_PERIOD: u8 = 40;

/// Most samples the buffer holds before dropping.
pub const SAMPLE_CAP: usize = 32768;

pub struct Apu {
    /// The twenty raw channel registers.
    pub regs: Vec<u8>,
    /// Channel enable bits, as last written to the control register.
    pub enable: u8,
    /// Frame sequencer mode and interrupt inhibit.
    pub five_step: bool,
    pub irq_inhibit: bool,
    /// Cycles into the current sequencer quarter and the step index.
    pub seq_cycles: u32,
    pub seq_step: u8,
    /// The frame interrupt line.
    pub frame_irq: bool,
    /// Length counters of the four tone channels.
    pub len1: u8,
    pub len2: u8,
    pub len3: u8,
    pub len4: u8,
    /// Pending samples and the divider that paces them.
    pub samples: Vec<i16>,
    pub sample_cycles: u8,
    /// Total cycles seen; the waveform phase source.
    pub phase: u64,
    /// Delta-modulation fetch state.
    pub dmc_cur_addr: u16,
    pub dmc_remaining: u16,
    pub dmc_buf: u8,
    pub dmc_active: bool,
}

pub open spec fn apu_wf(a: Apu) -> bool {
    &&& a.regs.len() == 20
    &&& a.seq_cycles < SEQ_QUARTER
    &&& a.seq_step < 5
    &&& a.sample_cycles < SAMPLE_PERIOD
    &&& a.samples.len() <= SAMPLE_CAP
}

/// The hardware's length-counter load table.
pub open spec fn spec_length_entry(i: u8) -> u8
    recommends
        i < 32,
{
    if i == 0 {
        10
    } else if i == 1 {
        254
    } else if i == 2 {
        20
    } else if i == 3 {
        2
    } else if i == 4 {
        40
    } else if i == 5 {
        4
    } else if i == 6 {
        80
    } else if i == 7 {
        6
    } else if i == 8 {
        160
    } else if i == 9 {
        8
    } else if i == 10 {
        60
    } else if i == 11 {
        10
    } else if i == 12 {
        14
    } else if i == 13 {
        12
    } else if i == 14 {
        26
    } else if i == 15 {
        14
    } else if i == 16 {
        12
    } else if i == 17 {
        16
    } else if i == 18 {
        24
    } else if i == 19 {
        18
    } else if i == 20 {
        48
    } else if i == 21 {
        20
    } else if i == 22 {
        96
    } else if i == 23 {
        22
    } else if i == 24 {
        192
    } else if i == 25 {
        24
    } else if i == 26 {
        72
    } else if i == 27 {
        26
    } else if i == 28 {
        16
    } else if i == 29 {
        28
    } else if i == 30 {
        32
    } else {
        30
    }
}

pub fn length_entry(i: u8) -> (r: u8)
    requires
        i < 32,
    ensures
        r == spec_length_entry(i),
{
    let table: [u8; 32] = [
        10, 254, 20, 2, 40, 4, 80, 6, 160, 8, 60, 10, 14, 12, 26, 14, 12, 16, 24, 18, 48, 20, 96,
        22, 192, 24, 72, 26, 16, 28, 32, 30,
    ];
    table[i as usize]
}

/// One tone channel's amplitude: a stepped wave from its period and
/// volume registers, silent when disabled, exhausted or out of range.
pub open spec fn spec_tone_amp(regs: Seq<u8>, base: int, len: u8, enabled: bool, phase: u64) -> int {
    let vol = regs[base] as int % 16;
    let period = regs[base + 2] as int + (regs[base + 3] as int % 8) * 256;
    if !enabled || len == 0 || period < 8 {
        0
    } else if (phase as int / (period + 1)) % 2 == 0 {
        vol
    } else {
        0 - vol
    }
}

/// The mixed sample: the four tone channels summed and scaled to the
/// signed 16-bit range; the delta channel contributes silence.
pub open spec fn spec_sample(a: Apu) -> int {
    (spec_tone_amp(a.regs@, 0, a.len1, a.enable % 2 == 1, a.phase) + spec_tone_amp(a.regs@, 4,
        a.len2, a.enable / 2 % 2 == 1, a.phase) + spec_tone_amp(a.regs@, 8, a.len3, a.enable / 4 % 2
        == 1, a.phase) + spec_tone_amp(a.regs@, 12, a.len4, a.enable / 8 % 2 == 1, a.phase)) * 300
}

impl Apu {
    pub fn power_on() -> (r: Apu)
        ensures
            apu_wf(r),
            r.enable == 0 && !r.frame_irq && r.samples@ == Seq::<i16>::empty(),
            r.len1 == 0 && r.len2 == 0 && r.len3 == 0 && r.len4 == 0,
            !r.dmc_active,
            r.phase == 0 && r.seq_cycles == 0 && r.seq_step == 0 && r.sample_cycles == 0,
    {
        Apu {
            regs: crate::cart::zero_vec(20),
            enable: 0,
            five_step: false,
            irq_inhibit: false,
            seq_cycles: 0,
            seq_step: 0,
            frame_irq: false,
            len1: 0,
            len2: 0,
            len3: 0,
            len4: 0,
            samples: Vec::new(),
            sample_cycles: 0,
            phase: 0,
            dmc_cur_addr: 0,
            dmc_remaining: 0,
            dmc_buf: 0,
            dmc_active: false,
        }
    }

    /// Whether the length counters tick on this sequencer step.
    fn half_frame_step(&self) -> (r: bool)
        ensures
            r == (self.seq_step == 1 || (self.five_step && self.seq_step == 4) || (!self.five_step
                && self.seq_step == 3)),
    {
        self.seq_step == 1 || (self.five_step && self.seq_step == 4) || (!self.five_step
            && self.seq_step == 3)
    }

    /// One CPU cycle of audio time: the phase advances, the frame
    /// sequencer divides it into quarter steps -- length counters
    /// count down on half frames, and the last step of the four-step
    /// sequence raises the frame interrupt unless inhibited -- and
    /// every sample period one mixed sample joins the buffer, unless
    /// the buffer is full, in which case the sample is dropped.
    pub fn cycle(&mut self)
        requires
            apu_wf(*old(self)),
            old(self).phase < 0xFFFF_FFFF_FFFF_FFFFu64,
        ensures
            apu_wf(*final(self)),
            final(self).phase == old(self).phase + 1,
            final(self).regs@ == old(self).regs@,
            final(self).enable == old(self).enable,
            final(self).five_step == old(self).five_step,
            final(self).irq_inhibit == old(self).irq_inhibit,
            final(self).frame_irq == (old(self).frame_irq || (old(self).seq_cycles + 1
                == SEQ_QUARTER && !old(self).five_step && old(self).seq_step == 3 && !old(self).irq_inhibit)),
            final(self).dmc_cur_addr == old(self).dmc_cur_addr,
            final(self).dmc_remaining == old(self).dmc_remaining,
            final(self).dmc_active == old(self).dmc_active,
            old(self).seq_cycles + 1 < SEQ_QUARTER ==> final(self).seq_cycles == old(self).seq_cycles + 1 && final(self).seq_step == old(self).seq_step && final(self).len1
                == old(self).len1 && final(self).len2 == old(self).len2 && final(self).len3 == old(self).len3 && final(self).len4 == old(self).len4,
            old(self).seq_cycles + 1 == SEQ_QUARTER ==> final(self).seq_cycles == 0 && final(self).seq_step == (old(self).seq_step + 1) as int % (if old(self).five_step {
                5int
            } else {
                4int
            }),
            final(self).sample_cycles == (old(self).sample_cycles + 1) as int % (
            SAMPLE_PERIOD as int),
            old(self).sample_cycles + 1 < SAMPLE_PERIOD ==> final(self).samples@ == old(self).samples@,
            old(self).sample_cycles + 1 == SAMPLE_PERIOD && old(self).samples.len() < SAMPLE_CAP
                ==> final(self).samples@ == old(self).samples@.push((spec_sample(*final(self))) as i16),
            old(self).sample_cycles + 1 == SAMPLE_PERIOD && old(self).samples.len() == SAMPLE_CAP
                ==> final(self).samples@ == old(self).samples@,
    {
        self.phase = self.phase + 1;
        if self.seq_cycles + 1 == SEQ_QUARTER {
            self.seq_cycles = 0;
            let steps: u8 = if self.five_step { 5 } else { 4 };
            if !self.five_step && self.seq_step == 3 && !self.irq_inhibit {
                self.frame_irq = true;
            }
            if self.half_frame_step() {
                if self.len1 > 0 && self.regs[0] / 32 % 2 == 0 {
                    self.len1 = self.len1 - 1;
                }
                if self.len2 > 0 && self.regs[4] / 32 % 2 == 0 {
                    self.len2 = self.len2 - 1;
                }
                if self.len3 > 0 && self.regs[8] / 128 == 0 {
                    self.len3 = self.len3 - 1;
                }
                if self.len4 > 0 && self.regs[12] / 32 % 2 == 0 {
                    self.len4 = self.len4 - 1;
                }
            }
            self.seq_step = (self.seq_step + 1) % steps;
        } else {
            self.seq_cycles = self.seq_cycles + 1;
        }
        if self.sample_cycles + 1 == SAMPLE_PERIOD {
            self.sample_cycles = 0;
            if self.samples.len() < SAMPLE_CAP {
                let s = self.mix_sample();
                self.samples.push(s);
            }
        } else {
            self.sample_cycles = self.sample_cycles + 1;
        }
    }

    /// The current mixed sample value.
    fn mix_sample(&self) -> (r: i16)
        requires
            apu_wf(*self),
        ensures
            r as int == spec_sample(*self),
    {
        let t1 = self.tone_amp(0, self.len1, self.enable % 2 == 1);
        let t2 = self.tone_amp(4, self.len2, self.enable / 2 % 2 == 1);
        let t3 = self.tone_amp(8, self.len3, self.enable / 4 % 2 == 1);
        let t4 = self.tone_amp(12, self.len4, self.enable / 8 % 2 == 1);
        (t1 + t2 + t3 + t4) * 300
    }

    fn tone_amp(&self, base: usize, len: u8, enabled: bool) -> (r: i16)
        requires
            apu_wf(*self),
            base + 4 <= 20,
        ensures
            r as int == spec_tone_amp(self.regs@, base as int, len, enabled, self.phase),
            -15 <= r <= 15,
    {
        let vol: i16 = (self.regs[base] % 16) as i16;
        let period: u32 = self.regs[base + 2] as u32 + (self.regs[base + 3] as u32 % 8) * 256;
        if !enabled || len == 0 || period < 8 {
            0
        } else if (self.phase / (period as u64 + 1)) % 2 == 0 {
            vol
        } else {
            0 - vol
        }
    }

    /// CPU read of the status register: one live bit per channel with
    /// a running length counter, the delta channel's activity, and
    /// the frame interrupt, which the read acknowledges.
    pub fn read_status(&mut self) -> (r: u8)
        requires
            apu_wf(*old(self)),
        ensures
            apu_wf(*final(self)),
            *final(self) == (Apu { frame_irq: false, ..*old(self) }),
            r as int == crate::ops::bit_val(old(self).len1 > 0, 1) + crate::ops::bit_val(old(self).len2 > 0, 2) + crate::ops::bit_val(old(self).len3 > 0, 4) + crate::ops::bit_val(old(self).len4 > 0, 8) + crate::ops::bit_val(old(self).dmc_active, 16) + crate::ops::bit_val(
                old(self).frame_irq,
                64,
            ),
    {
        let mut r: u8 = 0;
        if self.len1 > 0 {
            r = r + 1;
        }
        if self.len2 > 0 {
            r = r + 2;
        }
        if self.len3 > 0 {
            r = r + 4;
        }
        if self.len4 > 0 {
            r = r + 8;
        }
        if self.dmc_active {
            r = r + 16;
        }
        if self.frame_irq {
            r = r + 64;
        }
        self.frame_irq = false;
        r
    }

    /// CPU write to one of the twenty channel registers. Writes to a
    /// channel's fourth register reload its length counter from the
    /// table when the channel is enabled.
    pub fn write_reg(&mut self, idx: usize, v: u8)
        requires
            apu_wf(*old(self)),
            idx < 20,
        ensures
            apu_wf(*final(self)),
            final(self).regs@ == old(self).regs@.update(idx as int, v),
            final(self).len1 == (if idx == 3 && old(self).enable % 2 == 1 {
                spec_length_entry(v / 8)
            } else {
                old(self).len1
            }),
            final(self).len2 == (if idx == 7 && old(self).enable / 2 % 2 == 1 {
                spec_length_entry(v / 8)
            } else {
                old(self).len2
            }),
            final(self).len3 == (if idx == 11 && old(self).enable / 4 % 2 == 1 {
                spec_length_entry(v / 8)
            } else {
                old(self).len3
            }),
            final(self).len4 == (if idx == 15 && old(self).enable / 8 % 2 == 1 {
                spec_length_entry(v / 8)
            } else {
                old(self).len4
            }),
            final(self).enable == old(self).enable,
            final(self).frame_irq == old(self).frame_irq,
            final(self).samples@ == old(self).samples@,
            final(self).phase == old(self).phase,
            final(self).seq_cycles == old(self).seq_cycles,
            final(self).seq_step == old(self).seq_step,
            final(self).five_step == old(self).five_step,
            final(self).irq_inhibit == old(self).irq_inhibit,
            final(self).sample_cycles == old(self).sample_cycles,
            final(self).dmc_active == old(self).dmc_active,
    {
        self.regs.set(idx, v);
        if idx == 3 && self.enable % 2 == 1 {
            self.len1 = length_entry(v / 8);
        }
        if idx == 7 && self.enable / 2 % 2 == 1 {
            self.len2 = length_entry(v / 8);
        }
        if idx == 11 && self.enable / 4 % 2 == 1 {
            self.len3 = length_entry(v / 8);
        }
        if idx == 15 && self.enable / 8 % 2 == 1 {
            self.len4 = length_entry(v / 8);
        }
    }

    /// CPU write to the channel-enable register: disabled channels
    /// have their length counters cleared at once; setting the delta
    /// channel's bit restarts its sample, clearing it stops it.
    pub fn write_control(&mut self, v: u8)
        requires
            apu_wf(*old(self)),
        ensures
            apu_wf(*final(self)),
            final(self).enable == v,
            final(self).len1 == (if v % 2 == 1 {
                old(self).len1
            } else {
                0u8
            }),
            final(self).len2 == (if v / 2 % 2 == 1 {
                old(self).len2
            } else {
                0u8
            }),
            final(self).len3 == (if v / 4 % 2 == 1 {
                old(self).len3
            } else {
                0u8
            }),
            final(self).len4 == (if v / 8 % 2 == 1 {
                old(self).len4
            } else {
                0u8
            }),
            final(self).dmc_active == (v / 16 % 2 == 1),
            v / 16 % 2 == 1 ==> final(self).dmc_cur_addr as int == 0x4000 + old(self).regs@[18]
                * 64 && final(self).dmc_remaining as int == old(self).regs@[19] * 16 + 1,
            v / 16 % 2 == 0 ==> final(self).dmc_cur_addr == old(self).dmc_cur_addr && final(self).dmc_remaining == old(self).dmc_remaining,
            final(self).regs@ == old(self).regs@,
            final(self).frame_irq == old(self).frame_irq,
            final(self).samples@ == old(self).samples@,
            final(self).phase == old(self).phase,
            final(self).seq_cycles == old(self).seq_cycles,
            final(self).seq_step == old(self).seq_step,
            final(self).five_step == old(self).five_step,
            final(self).irq_inhibit == old(self).irq_inhibit,
            final(self).sample_cycles == old(self).sample_cycles,
    {
        self.enable = v;
        if v % 2 == 0 {
            self.len1 = 0;
        }
        if v / 2 % 2 == 0 {
            self.len2 = 0;
        }
        if v / 4 % 2 == 0 {
            self.len3 = 0;
        }
        if v / 8 % 2 == 0 {
            self.len4 = 0;
        }
        if v / 16 % 2 == 1 {
            self.dmc_active = true;
            self.dmc_cur_addr = 0x4000 + self.regs[18] as u16 * 64;
            self.dmc_remaining = self.regs[19] as u16 * 16 + 1;
        } else {
            self.dmc_active = false;
        }
    }

    /// CPU write to the frame-sequencer register.
    pub fn write_frame_mode(&mut self, v: u8)
        requires
            apu_wf(*old(self)),
        ensures
            apu_wf(*final(self)),
            *final(self) == (Apu {
                five_step: v / 128 == 1,
                irq_inhibit: v / 64 % 2 == 1,
                frame_irq: old(self).frame_irq && !(v / 64 % 2 == 1),
                seq_step: 0,
                seq_cycles: 0,
                ..*old(self)
            }),
    {
        self.five_step = v / 128 == 1;
        self.irq_inhibit = v / 64 % 2 == 1;
        if self.irq_inhibit {
            self.frame_irq = false;
        }
        self.seq_step = 0;
        self.seq_cycles = 0;
    }

    /// Whether the delta channel wants the bus to fetch it a byte.
    pub fn dmc_wants_fetch(&self) -> (r: bool)
        ensures
            r == (self.dmc_active && self.dmc_remaining > 0),
    {
        self.dmc_active && self.dmc_remaining > 0
    }

    /// The cartridge-window offset the delta channel wants next.
    pub fn dmc_fetch_addr(&self) -> (r: u16)
        ensures
            r == self.dmc_cur_addr,
    {
        self.dmc_cur_addr
    }

    /// The bus hands the fetched byte back: the cursor advances,
    /// wrapping inside the cartridge window, and on exhaustion the
    /// sample either loops or the channel stops, per its loop flag.
    pub fn dmc_supply(&mut self, v: u8)
        requires
            apu_wf(*old(self)),
            old(self).dmc_active,
            old(self).dmc_remaining > 0,
        ensures
            apu_wf(*final(self)),
            final(self).dmc_buf == v,
            final(self).dmc_cur_addr == (old(self).dmc_cur_addr + 1) as int % 0x8000,
            old(self).dmc_remaining > 1 ==> final(self).dmc_remaining == old(self).dmc_remaining
                - 1 && final(self).dmc_active,
            old(self).dmc_remaining == 1 && old(self).regs@[16] / 64 % 2 == 1 ==> final(self).dmc_remaining as int == old(self).regs@[19] * 16 + 1 && final(self).dmc_active,
            old(self).dmc_remaining == 1 && old(self).regs@[16] / 64 % 2 == 0 ==> final(self).dmc_remaining == 0 && !final(self).dmc_active,
            final(self).regs@ == old(self).regs@,
            final(self).samples@ == old(self).samples@,
            final(self).frame_irq == old(self).frame_irq,
            final(self).phase == old(self).phase,
            final(self).seq_cycles == old(self).seq_cycles,
            final(self).seq_step == old(self).seq_step,
            final(self).five_step == old(self).five_step,
            final(self).irq_inhibit == old(self).irq_inhibit,
            final(self).sample_cycles == old(self).sample_cycles,
            final(self).enable == old(self).enable,
            final(self).len1 == old(self).len1,
            final(self).len2 == old(self).len2,
            final(self).len3 == old(self).len3,
            final(self).len4 == old(self).len4,
    {
        self.dmc_buf = v;
        self.dmc_cur_addr = ((self.dmc_cur_addr as u32 + 1) % 0x8000) as u16;
        if self.dmc_remaining > 1 {
            self.dmc_remaining = self.dmc_remaining - 1;
        } else {
            if self.regs[16] / 64 % 2 == 1 {
                self.dmc_remaining = self.regs[19] as u16 * 16 + 1;
            } else {
                self.dmc_remaining = 0;
                self.dmc_active = false;
            }
        }
    }

    /// Hand the buffered samples to the audio collaborator and start
    /// an empty buffer; the machine never waits for the drain.
    pub fn drain_samples(&mut self) -> (r: Vec<i16>)
        requires
            apu_wf(*old(self)),
        ensures
            apu_wf(*final(self)),
            r@ == old(self).samples@,
            final(self).samples@ == Seq::<i16>::empty(),
            *final(self) == (Apu { samples: final(self).samples, ..*old(self) }),
    {
        let mut out: Vec<i16> = Vec::new();
        core::mem::swap(&mut out, &mut self.samples);
        out
    }
}

} // verus!
