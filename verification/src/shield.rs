use vstd::prelude::*;

verus! {

use crate::digital_output::DigitalOutput;
use crate::layout::MotorPort;
use crate::layout::Motors;
use crate::layout::Servos;
use crate::layout::ShieldLayout;
use crate::layout::Steppers;
use crate::motors::Motor;
use crate::motors::MotorPin;
use crate::motors::channel_of;
use crate::motors::same_motor;
use crate::motors::with_channel;
use crate::pwm::PwmChannel;
use crate::servos::Servo;
use crate::servos::ServoPin;
use crate::steppers::Stepper;
use crate::steppers::StepperPin;
use crate::steppers::coils;
use crate::steppers::stepper_channels;

/// The board: stepper, motor and servo slots resolved once from a
/// two-port layout. The shift-register latch is owned by the caller and
/// handed to each driver call that steers it.
pub struct MotorShield {
    pub steppers: Steppers,
    pub motors: Motors,
    pub servos: Servos,
}

/// Motor `m` with its PWM channel armed and everything else unchanged.
pub open spec fn motor_armed(m: Motor) -> Motor {
    Motor {
        pin: with_channel(
            m.pin,
            PwmChannel { enabled: true, duty: channel_of(m.pin).duty },
        ),
    }
}

/// Motor `m` with its duty set to `v` and everything else unchanged.
pub open spec fn motor_with_speed(m: Motor, v: u8) -> Motor {
    Motor {
        pin: with_channel(
            m.pin,
            PwmChannel { enabled: channel_of(m.pin).enabled, duty: v },
        ),
    }
}

/// An occupied slot armed; an absent slot silently skipped.
pub open spec fn slot_armed(slot: Option<Motor>) -> Option<Motor> {
    match slot {
        Some(m) => Some(motor_armed(m)),
        None => None,
    }
}

/// An occupied slot at duty `v`; an absent slot silently skipped.
pub open spec fn slot_with_speed(slot: Option<Motor>, v: u8) -> Option<Motor> {
    match slot {
        Some(m) => Some(motor_with_speed(m, v)),
        None => None,
    }
}

/// The motor slots after arming the slot named by `id` (1-based).
pub open spec fn arm_one(ms: Motors, id: usize) -> Motors {
    Motors {
        m1: if id == 1 {
            slot_armed(ms.m1)
        } else {
            ms.m1
        },
        m2: if id == 2 {
            slot_armed(ms.m2)
        } else {
            ms.m2
        },
        m3: if id == 3 {
            slot_armed(ms.m3)
        } else {
            ms.m3
        },
        m4: if id == 4 {
            slot_armed(ms.m4)
        } else {
            ms.m4
        },
    }
}

/// The motor slots after arming every listed slot, in order.
pub open spec fn arm_applied(ms: Motors, ids: Seq<usize>) -> Motors
    decreases ids.len(),
{
    if ids.len() == 0 {
        ms
    } else {
        arm_one(arm_applied(ms, ids.drop_last()), ids.last())
    }
}

/// The motor slots after setting the duty of the slot named by `id`.
pub open spec fn speed_one(ms: Motors, id: usize, v: u8) -> Motors {
    Motors {
        m1: if id == 1 {
            slot_with_speed(ms.m1, v)
        } else {
            ms.m1
        },
        m2: if id == 2 {
            slot_with_speed(ms.m2, v)
        } else {
            ms.m2
        },
        m3: if id == 3 {
            slot_with_speed(ms.m3, v)
        } else {
            ms.m3
        },
        m4: if id == 4 {
            slot_with_speed(ms.m4, v)
        } else {
            ms.m4
        },
    }
}

/// The motor slots after applying every `(slot, duty)` pair, in order;
/// later pairs overwrite earlier ones.
pub open spec fn speeds_applied(ms: Motors, pairs: Seq<(usize, u8)>) -> Motors
    decreases pairs.len(),
{
    if pairs.len() == 0 {
        ms
    } else {
        speed_one(speeds_applied(ms, pairs.drop_last()), pairs.last().0, pairs.last().1)
    }
}

/// A slot keeps its identity under any channel it carries.
proof fn lemma_motor_pin_rebuild(x: MotorPin, y: MotorPin)
    requires
        same_motor(x, y),
    ensures
        x == with_channel(y, channel_of(x)),
{
}

impl MotorShield {
    /// Resolves a two-port layout into driver slots. A stepper port builds
    /// its stepper released on the latch (one transmit per stepper, clearing
    /// that slot's four coil bits); motor ports populate their motor slots;
    /// both servo slots always exist. Every PWM channel starts disarmed,
    /// motors and servos at duty 0, steppers at full coil current.
    pub fn new(layout: ShieldLayout, output: &mut DigitalOutput) -> (r: Self)
        ensures
            (r.steppers.s1 is Some) <==> (layout.port1 is SingleStepper),
            (r.steppers.s2 is Some) <==> (layout.port2 is SingleStepper),
            (r.motors.m1 is Some) <==> (layout.port1 is SingleMotorFirst || layout.port1
                is TwoMotors),
            (r.motors.m2 is Some) <==> (layout.port1 is SingleMotorSecond || layout.port1
                is TwoMotors),
            (r.motors.m3 is Some) <==> (layout.port2 is SingleMotorFirst || layout.port2
                is TwoMotors),
            (r.motors.m4 is Some) <==> (layout.port2 is SingleMotorSecond || layout.port2
                is TwoMotors),
            r.servos.s1 is Some && r.servos.s2 is Some,
            r.steppers.s1 matches Some(st) ==> st.wf() && st.revsteps == 48 && st.usperstep == 0
                && st.steppingcounter == 0 && st.currentstep == 0 && st.pin is Stepper1
                && stepper_channels(st.pin).0 == (PwmChannel { enabled: false, duty: 255 })
                && stepper_channels(st.pin).1 == (PwmChannel { enabled: false, duty: 255 }),
            r.steppers.s2 matches Some(st) ==> st.wf() && st.revsteps == 48 && st.usperstep == 0
                && st.steppingcounter == 0 && st.currentstep == 0 && st.pin is Stepper2
                && stepper_channels(st.pin).0 == (PwmChannel { enabled: false, duty: 255 })
                && stepper_channels(st.pin).1 == (PwmChannel { enabled: false, duty: 255 }),
            r.motors.m1 matches Some(m) ==> m.pin == (MotorPin::Motor1(
                PwmChannel { enabled: false, duty: 0 },
            )),
            r.motors.m2 matches Some(m) ==> m.pin == (MotorPin::Motor2(
                PwmChannel { enabled: false, duty: 0 },
            )),
            r.motors.m3 matches Some(m) ==> m.pin == (MotorPin::Motor3(
                PwmChannel { enabled: false, duty: 0 },
            )),
            r.motors.m4 matches Some(m) ==> m.pin == (MotorPin::Motor4(
                PwmChannel { enabled: false, duty: 0 },
            )),
            r.servos.s1 matches Some(sv) ==> sv.pin == (ServoPin::Servo1(
                PwmChannel { enabled: false, duty: 0 },
            )),
            r.servos.s2 matches Some(sv) ==> sv.pin == (ServoPin::Servo2(
                PwmChannel { enabled: false, duty: 0 },
            )),
            final(output).enabled == old(output).enabled,
            !(layout.port1 is SingleStepper) && !(layout.port2 is SingleStepper) ==> final(
                output).state == old(output).state && final(output).transmitted@ == old(
                output).transmitted@,
            (layout.port1 is SingleStepper) && !(layout.port2 is SingleStepper) ==> (
            r.steppers.s1 matches Some(st) && final(output).state == (old(output).state & !coils(
                st.pin,
            )) && final(output).transmitted@ == old(output).transmitted@.push(
                final(output).state,
            )),
            !(layout.port1 is SingleStepper) && (layout.port2 is SingleStepper) ==> (
            r.steppers.s2 matches Some(st) && final(output).state == (old(output).state & !coils(
                st.pin,
            )) && final(output).transmitted@ == old(output).transmitted@.push(
                final(output).state,
            )),
            (layout.port1 is SingleStepper) && (layout.port2 is SingleStepper) ==> (
            r.steppers.s1 matches Some(st1) && r.steppers.s2 matches Some(st2) && final(
                output).state == ((old(output).state & !coils(st1.pin)) & !coils(st2.pin)) && final(
                output).transmitted@ == old(output).transmitted@.push(
                old(output).state & !coils(st1.pin),
            ).push(final(output).state)),
    {
        let (s1, m1, m2) = match layout.port1 {
            MotorPort::SingleStepper => (
                Some(
                    Stepper::new(
                        StepperPin::Stepper1((PwmChannel::new(), PwmChannel::new())),
                        48,
                        output,
                    ),
                ),
                None,
                None,
            ),
            MotorPort::SingleMotorFirst => (
                None,
                Some(Motor::new(MotorPin::Motor1(PwmChannel::new()))),
                None,
            ),
            MotorPort::SingleMotorSecond => (
                None,
                None,
                Some(Motor::new(MotorPin::Motor2(PwmChannel::new()))),
            ),
            MotorPort::TwoMotors => (
                None,
                Some(Motor::new(MotorPin::Motor1(PwmChannel::new()))),
                Some(Motor::new(MotorPin::Motor2(PwmChannel::new()))),
            ),
            MotorPort::Empty => (None, None, None),
        };

        let (s2, m3, m4) = match layout.port2 {
            MotorPort::SingleStepper => (
                Some(
                    Stepper::new(
                        StepperPin::Stepper2((PwmChannel::new(), PwmChannel::new())),
                        48,
                        output,
                    ),
                ),
                None,
                None,
            ),
            MotorPort::SingleMotorFirst => (
                None,
                Some(Motor::new(MotorPin::Motor3(PwmChannel::new()))),
                None,
            ),
            MotorPort::SingleMotorSecond => (
                None,
                None,
                Some(Motor::new(MotorPin::Motor4(PwmChannel::new()))),
            ),
            MotorPort::TwoMotors => (
                None,
                Some(Motor::new(MotorPin::Motor3(PwmChannel::new()))),
                Some(Motor::new(MotorPin::Motor4(PwmChannel::new()))),
            ),
            MotorPort::Empty => (None, None, None),
        };

        Self {
            steppers: Steppers { s1, s2 },
            motors: Motors { m1, m2, m3, m4 },
            servos: Servos {
                s1: Some(Servo::new(ServoPin::Servo1(PwmChannel::new()))),
                s2: Some(Servo::new(ServoPin::Servo2(PwmChannel::new()))),
            },
        }
    }

    /// Number of stepper slots the board exposes.
    pub fn steppers_count(&mut self) -> (r: usize)
        ensures
            r == 2,
            *final(self) == *old(self),
    {
        self.steppers.len()
    }

    /// Mutable access to a stepper slot by 1-based index; an index without
    /// a configured stepper yields the empty slot.
    pub fn stepper(&mut self, stepper_id: usize) -> (r: &mut Option<Stepper>)
        requires
            1 <= stepper_id <= 2,
        ensures
            stepper_id == 1 ==> *r == old(self).steppers.s1 && final(self).steppers.s1 == *final(r)
                && final(self).steppers.s2 == old(self).steppers.s2,
            stepper_id == 2 ==> *r == old(self).steppers.s2 && final(self).steppers.s2 == *final(r)
                && final(self).steppers.s1 == old(self).steppers.s1,
            final(self).motors == old(self).motors,
            final(self).servos == old(self).servos,
    {
        if stepper_id == 1 {
            &mut self.steppers.s1
        } else {
            &mut self.steppers.s2
        }
    }

    /// Number of motor slots the board exposes.
    pub fn motors_count(&mut self) -> (r: usize)
        ensures
            r == 4,
            *final(self) == *old(self),
    {
        self.motors.len()
    }

    /// Mutable access to a motor slot by 1-based index; an index without a
    /// configured motor yields the empty slot.
    pub fn motor(&mut self, motor_id: usize) -> (r: &mut Option<Motor>)
        requires
            1 <= motor_id <= 4,
        ensures
            motor_id == 1 ==> *r == old(self).motors.m1 && final(self).motors == (Motors {
                m1: *final(r),
                ..old(self).motors
            }),
            motor_id == 2 ==> *r == old(self).motors.m2 && final(self).motors == (Motors {
                m2: *final(r),
                ..old(self).motors
            }),
            motor_id == 3 ==> *r == old(self).motors.m3 && final(self).motors == (Motors {
                m3: *final(r),
                ..old(self).motors
            }),
            motor_id == 4 ==> *r == old(self).motors.m4 && final(self).motors == (Motors {
                m4: *final(r),
                ..old(self).motors
            }),
            final(self).steppers == old(self).steppers,
            final(self).servos == old(self).servos,
    {
        if motor_id == 1 {
            &mut self.motors.m1
        } else if motor_id == 2 {
            &mut self.motors.m2
        } else if motor_id == 3 {
            &mut self.motors.m3
        } else {
            &mut self.motors.m4
        }
    }

    /// Number of servo slots the board exposes.
    pub fn servos_count(&mut self) -> (r: usize)
        ensures
            r == 2,
            *final(self) == *old(self),
    {
        self.servos.len()
    }

    /// Mutable access to a servo slot by 1-based index.
    pub fn servo(&mut self, servo_id: usize) -> (r: &mut Option<Servo>)
        requires
            1 <= servo_id <= 2,
        ensures
            servo_id == 1 ==> *r == old(self).servos.s1 && final(self).servos.s1 == *final(r)
                && final(self).servos.s2 == old(self).servos.s2,
            servo_id == 2 ==> *r == old(self).servos.s2 && final(self).servos.s2 == *final(r)
                && final(self).servos.s1 == old(self).servos.s1,
            final(self).motors == old(self).motors,
            final(self).steppers == old(self).steppers,
    {
        if servo_id == 1 {
            &mut self.servos.s1
        } else {
            &mut self.servos.s2
        }
    }

    /// Arms every listed motor slot's PWM channel, in order, silently
    /// skipping slots the layout left empty. The latch is untouched.
    pub fn enable_motors(&mut self, motor_ids: &[usize])
        requires
            forall|i: int| 0 <= i < motor_ids@.len() ==> 1 <= #[trigger] motor_ids@[i] <= 4,
        ensures
            final(self).motors == arm_applied(old(self).motors, motor_ids@),
            final(self).steppers == old(self).steppers,
            final(self).servos == old(self).servos,
    {
        let ghost ms0 = self.motors;
        let ghost st0 = self.steppers;
        let ghost sv0 = self.servos;
        let mut i: usize = 0;
        while i < motor_ids.len()
            invariant
                i <= motor_ids@.len(),
                forall|k: int| 0 <= k < motor_ids@.len() ==> 1 <= #[trigger] motor_ids@[k] <= 4,
                self.motors == arm_applied(ms0, motor_ids@.take(i as int)),
                self.steppers == st0,
                self.servos == sv0,
            decreases motor_ids@.len() - i,
        {
            let ghost prev = self.motors;
            let id = motor_ids[i];
            let slot = self.motor(id);
            match slot {
                Some(m) => {
                    let ghost before = *m;
                    m.enable();
                    proof {
                        lemma_motor_pin_rebuild((*m).pin, before.pin);
                    }
                },
                None => {},
            }
            proof {
                assert(motor_ids@.take(i as int + 1).drop_last() =~= motor_ids@.take(i as int));
                assert(self.motors == arm_one(prev, id));
            }
            i = i + 1;
        }
        proof {
            assert(motor_ids@.take(motor_ids@.len() as int) =~= motor_ids@);
        }
    }

    /// Sets the duty of every listed `(slot, duty)` pair, in order,
    /// silently skipping slots the layout left empty. The latch is
    /// untouched.
    pub fn set_speeds(&mut self, motor_speeds: &[(usize, u8)])
        requires
            forall|i: int|
                0 <= i < motor_speeds@.len() ==> 1 <= (#[trigger] motor_speeds@[i]).0 <= 4,
        ensures
            final(self).motors == speeds_applied(old(self).motors, motor_speeds@),
            final(self).steppers == old(self).steppers,
            final(self).servos == old(self).servos,
    {
        let ghost ms0 = self.motors;
        let ghost st0 = self.steppers;
        let ghost sv0 = self.servos;
        let mut i: usize = 0;
        while i < motor_speeds.len()
            invariant
                i <= motor_speeds@.len(),
                forall|k: int|
                    0 <= k < motor_speeds@.len() ==> 1 <= (#[trigger] motor_speeds@[k]).0 <= 4,
                self.motors == speeds_applied(ms0, motor_speeds@.take(i as int)),
                self.steppers == st0,
                self.servos == sv0,
            decreases motor_speeds@.len() - i,
        {
            let ghost prev = self.motors;
            let (id, speed) = motor_speeds[i];
            let slot = self.motor(id);
            match slot {
                Some(m) => {
                    let ghost before = *m;
                    m.speed(speed);
                    proof {
                        lemma_motor_pin_rebuild((*m).pin, before.pin);
                    }
                },
                None => {},
            }
            proof {
                assert(motor_speeds@.take(i as int + 1).drop_last() =~= motor_speeds@.take(
                    i as int,
                ));
                assert(self.motors == speed_one(prev, id, speed));
            }
            i = i + 1;
        }
        proof {
            assert(motor_speeds@.take(motor_speeds@.len() as int) =~= motor_speeds@);
        }
    }
}

} // verus!
