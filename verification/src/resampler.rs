//! A deliberately simple audio resampler: it assumes the input rate
//! is an integer multiple of the output rate and keeps every
//! ratio-th sample, splitting each kept sample into its two
//! little-endian bytes for the output device.

use vstd::prelude::*;

verus! {

pub struct Resampler {
    /// Input samples per output sample.
    pub ratio: usize,
}

impl Resampler {
    /// Build a resampler for the given rates; the channel count and
    /// quality knob exist for interface parity and do not matter to
    /// this implementation. The output rate must not be zero.
    pub fn new(channels: u32, in_rate: u32, out_rate: u32, quality: i32) -> (r: Result<
        Resampler,
        i32,
    >)
        requires
            out_rate > 0,
        ensures
            r is Ok,
            r->Ok_0.spec_ratio() == in_rate as int / out_rate as int,
    {
        let _ = channels;
        let _ = quality;
        Ok(Resampler { ratio: (in_rate / out_rate) as usize })
    }

    pub open spec fn spec_ratio(self) -> int {
        self.ratio as int
    }

    /// Resample one channel's worth of input: output sample `o` is
    /// input sample `o * ratio`, split little-endian into two bytes.
    /// Returns the bytes and the pair of counts the device protocol
    /// wants: input samples consumed and output samples written.
    pub fn process(&mut self, channel_index: u32, input: &Vec<i16>, out_samples: usize) -> (r: (
        Vec<u8>,
        (u32, u32),
    ))
        requires
            old(self).spec_ratio() >= 1,
            out_samples * old(self).spec_ratio() <= input.len(),
            input.len() < 0x8000_0000,
            out_samples < 0x8000_0000,
        ensures
            *final(self) == *old(self),
            r.0.len() == 2 * out_samples,
            forall|i: int| 0 <= i < 2 * out_samples ==> r.0@[i] == (if i % 2 == 0 {
                (input@[(i / 2) * old(self).spec_ratio()] as u16 % 256) as u8
            } else {
                (input@[(i / 2) * old(self).spec_ratio()] as u16 / 256) as u8
            }),
            r.1 == (input.len() as u32, out_samples as u32),
    {
        let _ = channel_index;
        let mut out: Vec<u8> = Vec::new();
        let mut o: usize = 0;
        while o < out_samples
            invariant
                self.spec_ratio() >= 1,
                out_samples * self.spec_ratio() <= input.len(),
                o <= out_samples,
                out.len() == 2 * o,
                forall|i: int| 0 <= i < 2 * o ==> out@[i] == (if i % 2 == 0 {
                    (input@[(i / 2) * self.spec_ratio()] as u16 % 256) as u8
                } else {
                    (input@[(i / 2) * self.spec_ratio()] as u16 / 256) as u8
                }),
            decreases out_samples - o,
        {
            proof {
                assert(o * self.spec_ratio() + self.spec_ratio() <= out_samples
                    * self.spec_ratio()) by (nonlinear_arith)
                    requires
                        self.spec_ratio() >= 1,
                        0 <= o < out_samples,
                ;
            }
            let sample: i16 = input[o * self.ratio];
            let bits: u16 = sample as u16;
            out.push((bits % 256) as u8);
            out.push((bits / 256) as u8);
            o = o + 1;
        }
        (out, (input.len() as u32, out_samples as u32))
    }
}

} // verus!
