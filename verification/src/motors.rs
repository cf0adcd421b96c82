use vstd::prelude::*;

verus! {

use crate::digital_output::DigitalOutput;
use crate::pwm::PwmChannel;

/// Commands a DC motor understands: drive one way, the other, or coast.
pub enum MotorCommands {
    FORWARD,
    BACKWARD,
    RELEASE,
}

/// One of the four DC-motor slots, carrying the PWM channel that sets its
/// speed. The slot decides which two latch bits steer the motor's two
/// direction terminals (`A` and `B`).
#[derive(Clone, Copy, PartialEq, Eq, Structural)]
pub enum MotorPin {
    Motor1(PwmChannel),
    Motor2(PwmChannel),
    Motor3(PwmChannel),
    Motor4(PwmChannel),
}

/// Latch bit wired to the motor's `A` terminal.
pub open spec fn a_bit(pin: MotorPin) -> u8 {
    match pin {
        MotorPin::Motor1(_) => 1u8 << 2,
        MotorPin::Motor2(_) => 1u8 << 1,
        MotorPin::Motor3(_) => 1u8 << 5,
        MotorPin::Motor4(_) => 1u8 << 0,
    }
}

/// Latch bit wired to the motor's `B` terminal.
pub open spec fn b_bit(pin: MotorPin) -> u8 {
    match pin {
        MotorPin::Motor1(_) => 1u8 << 3,
        MotorPin::Motor2(_) => 1u8 << 4,
        MotorPin::Motor3(_) => 1u8 << 7,
        MotorPin::Motor4(_) => 1u8 << 6,
    }
}

/// The PWM channel carried by a motor slot.
pub open spec fn channel_of(pin: MotorPin) -> PwmChannel {
    match pin {
        MotorPin::Motor1(c) => c,
        MotorPin::Motor2(c) => c,
        MotorPin::Motor3(c) => c,
        MotorPin::Motor4(c) => c,
    }
}

/// The same motor slot as `pin`, carrying channel `c` instead.
pub open spec fn with_channel(pin: MotorPin, c: PwmChannel) -> MotorPin {
    match pin {
        MotorPin::Motor1(_) => MotorPin::Motor1(c),
        MotorPin::Motor2(_) => MotorPin::Motor2(c),
        MotorPin::Motor3(_) => MotorPin::Motor3(c),
        MotorPin::Motor4(_) => MotorPin::Motor4(c),
    }
}

/// Whether two pin values name the same motor slot (the carried channel may
/// differ).
pub open spec fn same_motor(x: MotorPin, y: MotorPin) -> bool {
    match x {
        MotorPin::Motor1(_) => y is Motor1,
        MotorPin::Motor2(_) => y is Motor2,
        MotorPin::Motor3(_) => y is Motor3,
        MotorPin::Motor4(_) => y is Motor4,
    }
}

/// The latch state after a motor with terminal bits `a`, `b` executes `cmd`
/// on a latch holding `state`: FORWARD sets `A` and clears `B`, BACKWARD the
/// mirror image, RELEASE clears both.
pub open spec fn run_state(state: u8, a: u8, b: u8, cmd: MotorCommands) -> u8 {
    match cmd {
        MotorCommands::FORWARD => (state | a) & !b,
        MotorCommands::BACKWARD => (state & !a) | b,
        MotorCommands::RELEASE => state & !a & !b,
    }
}

/// The two direction bits of every motor slot are distinct single bits.
pub proof fn lemma_motor_bits_disjoint(pin: MotorPin)
    ensures
        a_bit(pin) & b_bit(pin) == 0,
        a_bit(pin) != 0,
        b_bit(pin) != 0,
{
    assert((1u8 << 2) & (1u8 << 3) == 0 && (1u8 << 1) & (1u8 << 4) == 0 && (1u8 << 5) & (1u8
        << 7) == 0 && (1u8 << 0) & (1u8 << 6) == 0 && (1u8 << 2) != 0 && (1u8 << 3) != 0 && (1u8
        << 1) != 0 && (1u8 << 4) != 0 && (1u8 << 5) != 0 && (1u8 << 7) != 0 && (1u8 << 0) != 0
        && (1u8 << 6) != 0) by (bit_vector);
}

/// Different motor slots drive disjoint latch bits: steering one motor
/// never disturbs another's direction bits.
pub proof fn lemma_motor_slots_disjoint(x: MotorPin, y: MotorPin)
    requires
        !same_motor(x, y),
    ensures
        (a_bit(x) | b_bit(x)) & (a_bit(y) | b_bit(y)) == 0,
{
    assert((((1u8 << 2) | (1u8 << 3)) & ((1u8 << 1) | (1u8 << 4)) == 0) && (((1u8 << 2) | (1u8
        << 3)) & ((1u8 << 5) | (1u8 << 7)) == 0) && (((1u8 << 2) | (1u8 << 3)) & ((1u8 << 0)
        | (1u8 << 6)) == 0) && (((1u8 << 1) | (1u8 << 4)) & ((1u8 << 5) | (1u8 << 7)) == 0) && (((
    1u8 << 1) | (1u8 << 4)) & ((1u8 << 0) | (1u8 << 6)) == 0) && (((1u8 << 5) | (1u8 << 7)) & ((
    1u8 << 0) | (1u8 << 6)) == 0) && (((1u8 << 1) | (1u8 << 4)) & ((1u8 << 2) | (1u8 << 3)) == 0)
        && (((1u8 << 5) | (1u8 << 7)) & ((1u8 << 2) | (1u8 << 3)) == 0) && (((1u8 << 0) | (1u8
        << 6)) & ((1u8 << 2) | (1u8 << 3)) == 0) && (((1u8 << 5) | (1u8 << 7)) & ((1u8 << 1) | (
    1u8 << 4)) == 0) && (((1u8 << 0) | (1u8 << 6)) & ((1u8 << 1) | (1u8 << 4)) == 0) && (((1u8
        << 0) | (1u8 << 6)) & ((1u8 << 5) | (1u8 << 7)) == 0)) by (bit_vector);
}

/// Direction bits stay mutually exclusive: whatever command ran last, a
/// motor's `A` and `B` bits are never both set, and after RELEASE both are
/// clear — so FORWARD followed by RELEASE leaves both direction bits clear.
pub proof fn lemma_run_direction_exclusive(state: u8, a: u8, b: u8, cmd: MotorCommands)
    requires
        a & b == 0,
    ensures
        run_state(state, a, b, cmd) & a == 0 || run_state(state, a, b, cmd) & b == 0,
        run_state(state, a, b, MotorCommands::RELEASE) & (a | b) == 0,
{
    assert(((state | a) & !b) & b == 0) by (bit_vector);
    assert(((state & !a) | b) & a == 0) by (bit_vector)
        requires
            a & b == 0,
    ;
    assert((state & !a & !b) & (a | b) == 0) by (bit_vector);
    assert((state & !a & !b) & a == 0) by (bit_vector);
}

impl MotorPin {
    /// The latch bit positions of this slot's `A` and `B` terminals.
    pub fn get_ab(&self) -> (r: (u8, u8))
        ensures
            r.0 == a_bit(*self),
            r.1 == b_bit(*self),
    {
        match self {
            Self::Motor1(_) => (1u8 << 2, 1u8 << 3),
            Self::Motor2(_) => (1u8 << 1, 1u8 << 4),
            Self::Motor3(_) => (1u8 << 5, 1u8 << 7),
            Self::Motor4(_) => (1u8 << 0, 1u8 << 6),
        }
    }

    /// Arms the slot's PWM channel.
    pub fn enable(&mut self)
        ensures
            same_motor(*final(self), *old(self)),
            channel_of(*final(self)).enabled,
            channel_of(*final(self)).duty == channel_of(*old(self)).duty,
    {
        match self {
            Self::Motor1(c) => c.enable(),
            Self::Motor2(c) => c.enable(),
            Self::Motor3(c) => c.enable(),
            Self::Motor4(c) => c.enable(),
        }
    }

    /// Disarms the slot's PWM channel.
    pub fn disable(&mut self)
        ensures
            same_motor(*final(self), *old(self)),
            !channel_of(*final(self)).enabled,
            channel_of(*final(self)).duty == channel_of(*old(self)).duty,
    {
        match self {
            Self::Motor1(c) => c.disable(),
            Self::Motor2(c) => c.disable(),
            Self::Motor3(c) => c.disable(),
            Self::Motor4(c) => c.disable(),
        }
    }

    /// Sets the slot's PWM duty.
    pub fn set_speed(&mut self, speed: u8)
        ensures
            same_motor(*final(self), *old(self)),
            channel_of(*final(self)).duty == speed,
            channel_of(*final(self)).enabled == channel_of(*old(self)).enabled,
    {
        match self {
            Self::Motor1(c) => c.set_duty(speed),
            Self::Motor2(c) => c.set_duty(speed),
            Self::Motor3(c) => c.set_duty(speed),
            Self::Motor4(c) => c.set_duty(speed),
        }
    }
}

/// Driver for one DC motor: two latch bits for direction, one PWM channel
/// for speed. The shared latch is passed to each call that steers.
pub struct Motor {
    /// The slot this motor occupies, with its PWM channel.
    pub pin: MotorPin,
}

impl Motor {
    /// Wraps a motor slot; no hardware effect.
    pub fn new(pin: MotorPin) -> (r: Self)
        ensures
            r.pin == pin,
    {
        Self { pin }
    }

    /// Steers the motor: updates the two direction bits as `run_state` says
    /// and commits the latch with exactly one transmit.
    pub fn run(&self, command: MotorCommands, output: &mut DigitalOutput)
        ensures
            final(output).state == run_state(
                old(output).state,
                a_bit(self.pin),
                b_bit(self.pin),
                command,
            ),
            final(output).transmitted@ == old(output).transmitted@.push(final(output).state),
            final(output).enabled == old(output).enabled,
    {
        let (a, b) = self.pin.get_ab();

        match command {
            MotorCommands::FORWARD => {
                output.or(a);
                output.and_not(b);
            },
            MotorCommands::BACKWARD => {
                output.and_not(a);
                output.or(b);
            },
            MotorCommands::RELEASE => {
                output.and_not(a);
                output.and_not(b);
            },
        }

        output.transmit();
    }

    /// Arms the motor's PWM channel only; the latch is untouched.
    pub fn enable(&mut self)
        ensures
            same_motor(final(self).pin, old(self).pin),
            channel_of(final(self).pin).enabled,
            channel_of(final(self).pin).duty == channel_of(old(self).pin).duty,
    {
        self.pin.enable()
    }

    /// Disarms the motor's PWM channel only; the latch is untouched.
    pub fn disable(&mut self)
        ensures
            same_motor(final(self).pin, old(self).pin),
            !channel_of(final(self).pin).enabled,
            channel_of(final(self).pin).duty == channel_of(old(self).pin).duty,
    {
        self.pin.disable();
    }

    /// Sets the PWM duty; independent of direction state.
    pub fn speed(&mut self, speed: u8)
        ensures
            same_motor(final(self).pin, old(self).pin),
            channel_of(final(self).pin).duty == speed,
            channel_of(final(self).pin).enabled == channel_of(old(self).pin).enabled,
    {
        self.pin.set_speed(speed);
    }
}

} // verus!
