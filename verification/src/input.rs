//! The controller register protocol: writing the strobe register
//! latches the current button state; while the strobe is low each
//! read shifts one button bit out, and reads past the eighth return
//! a set line, as the hardware does.

use vstd::prelude::*;

verus! {

/// One logical controller.
pub struct Controller {
    /// Currently pressed buttons, one bit each, pushed in by the
    /// input collaborator.
    pub buttons: u8,
    /// Strobe line: while high, reads keep returning the first
    /// button.
    pub strobe: bool,
    /// How many bits have been shifted out since the strobe fell.
    pub shift: u8,
}

pub open spec fn controller_wf(c: Controller) -> bool {
    c.shift <= 8
}

impl Controller {
    pub fn power_on() -> (r: Controller)
        ensures
            controller_wf(r),
            r.buttons == 0 && !r.strobe && r.shift == 0,
    {
        Controller { buttons: 0, strobe: false, shift: 0 }
    }

    /// The input collaborator pushes the current bitmask in.
    pub fn set_buttons(&mut self, v: u8)
        ensures
            *final(self) == (Controller { buttons: v, ..*old(self) }),
    {
        self.buttons = v;
    }

    /// A CPU write to the strobe register.
    pub fn write_strobe(&mut self, v: u8)
        requires
            controller_wf(*old(self)),
        ensures
            controller_wf(*final(self)),
            final(self).strobe == (v % 2 == 1),
            final(self).buttons == old(self).buttons,
            final(self).shift == (if v % 2 == 1 {
                0u8
            } else {
                old(self).shift
            }),
    {
        self.strobe = v % 2 == 1;
        if self.strobe {
            self.shift = 0;
        }
    }

    /// A CPU read of the data register: the next button bit, oldest
    /// first; a set line after all eight.
    pub fn read_bit(&mut self) -> (r: u8)
        requires
            controller_wf(*old(self)),
        ensures
            controller_wf(*final(self)),
            final(self).buttons == old(self).buttons,
            final(self).strobe == old(self).strobe,
            old(self).strobe ==> r == old(self).buttons % 2 && final(self).shift == old(
                self,
            ).shift,
            !old(self).strobe && old(self).shift < 8 ==> r as int == crate::render::spec_bit(old(
                self,
            ).buttons, old(self).shift as int) && final(self).shift == old(self).shift + 1,
            !old(self).strobe && old(self).shift == 8 ==> r == 1 && final(self).shift == 8,
    {
        if self.strobe {
            self.buttons % 2
        } else if self.shift < 8 {
            let r = crate::render::bit_at(self.buttons, self.shift);
            self.shift = self.shift + 1;
            r
        } else {
            1
        }
    }
}

} // verus!
