use vstd::prelude::*;

verus! {

/// Model of one hardware PWM output: whether the channel is armed and the
/// duty it was last given. The port layer mirrors both onto the physical
/// timer compare register; nothing here touches the shift-register latch.
#[derive(Clone, Copy, PartialEq, Eq, Structural)]
pub struct PwmChannel {
    /// Whether the timer output is connected to the pin.
    pub enabled: bool,
    /// Last duty cycle written, 0 (always low) to 255 (always high).
    pub duty: u8,
}

impl PwmChannel {
    /// A channel as handed out at board construction: disarmed, duty zero.
    pub fn new() -> (r: Self)
        ensures
            !r.enabled,
            r.duty == 0,
    {
        Self { enabled: false, duty: 0 }
    }

    /// Arms the channel; the duty is untouched.
    pub fn enable(&mut self)
        ensures
            final(self).enabled,
            final(self).duty == old(self).duty,
    {
        self.enabled = true;
    }

    /// Disarms the channel; the duty is untouched.
    pub fn disable(&mut self)
        ensures
            !final(self).enabled,
            final(self).duty == old(self).duty,
    {
        self.enabled = false;
    }

    /// Sets the duty cycle; arming is untouched.
    pub fn set_duty(&mut self, duty: u8)
        ensures
            final(self).duty == duty,
            final(self).enabled == old(self).enabled,
    {
        self.duty = duty;
    }
}

} // verus!
