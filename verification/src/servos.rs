use vstd::prelude::*;

verus! {

use crate::pwm::PwmChannel;

/// One of the two servo slots, carrying the PWM channel whose duty encodes
/// the commanded angle. Servos never touch the shift-register latch.
#[derive(Clone, Copy, PartialEq, Eq, Structural)]
pub enum ServoPin {
    Servo1(PwmChannel),
    Servo2(PwmChannel),
}

/// The PWM channel carried by a servo slot.
pub open spec fn servo_channel_of(pin: ServoPin) -> PwmChannel {
    match pin {
        ServoPin::Servo1(c) => c,
        ServoPin::Servo2(c) => c,
    }
}

/// Whether two pin values name the same servo slot.
pub open spec fn same_servo(x: ServoPin, y: ServoPin) -> bool {
    match x {
        ServoPin::Servo1(_) => y is Servo1,
        ServoPin::Servo2(_) => y is Servo2,
    }
}

impl ServoPin {
    /// Arms the slot's PWM channel.
    pub fn enable(&mut self)
        ensures
            same_servo(*final(self), *old(self)),
            servo_channel_of(*final(self)).enabled,
            servo_channel_of(*final(self)).duty == servo_channel_of(*old(self)).duty,
    {
        match self {
            Self::Servo1(c) => c.enable(),
            Self::Servo2(c) => c.enable(),
        }
    }

    /// Disarms the slot's PWM channel.
    pub fn disable(&mut self)
        ensures
            same_servo(*final(self), *old(self)),
            !servo_channel_of(*final(self)).enabled,
            servo_channel_of(*final(self)).duty == servo_channel_of(*old(self)).duty,
    {
        match self {
            Self::Servo1(c) => c.disable(),
            Self::Servo2(c) => c.disable(),
        }
    }

    /// Writes the angle as the channel's duty.
    pub fn set_angle(&mut self, angle: u8)
        ensures
            same_servo(*final(self), *old(self)),
            servo_channel_of(*final(self)).duty == angle,
            servo_channel_of(*final(self)).enabled == servo_channel_of(*old(self)).enabled,
    {
        match self {
            Self::Servo1(c) => c.set_duty(angle),
            Self::Servo2(c) => c.set_duty(angle),
        }
    }
}

/// Driver for one servo: a single PWM channel, no latch interaction and no
/// state machine.
pub struct Servo {
    /// The slot this servo occupies, with its PWM channel.
    pub pin: ServoPin,
}

impl Servo {
    /// Wraps a servo slot; no hardware effect.
    pub fn new(pin: ServoPin) -> (r: Self)
        ensures
            r.pin == pin,
    {
        Servo { pin }
    }

    /// Arms the servo's PWM channel.
    pub fn enable(&mut self)
        ensures
            same_servo(final(self).pin, old(self).pin),
            servo_channel_of(final(self).pin).enabled,
            servo_channel_of(final(self).pin).duty == servo_channel_of(old(self).pin).duty,
    {
        self.pin.enable();
    }

    /// Disarms the servo's PWM channel.
    pub fn disable(&mut self)
        ensures
            same_servo(final(self).pin, old(self).pin),
            !servo_channel_of(final(self).pin).enabled,
            servo_channel_of(final(self).pin).duty == servo_channel_of(old(self).pin).duty,
    {
        self.pin.disable();
    }

    /// Commands an angle, 0 to 255, forwarded directly as the PWM duty.
    pub fn set_angle(&mut self, angle: u8)
        ensures
            same_servo(final(self).pin, old(self).pin),
            servo_channel_of(final(self).pin).duty == angle,
            servo_channel_of(final(self).pin).enabled == servo_channel_of(old(self).pin).enabled,
    {
        self.pin.set_angle(angle);
    }
}

} // verus!
