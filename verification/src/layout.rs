use vstd::prelude::*;

verus! {

use crate::motors::Motor;
use crate::servos::Servo;
use crate::steppers::Stepper;

/// What one physical port of the board carries: two DC motors, one stepper,
/// a single motor in either slot, or nothing.
#[derive(Clone, Copy, PartialEq, Eq, Structural)]
pub enum MotorPort {
    TwoMotors,
    SingleStepper,
    SingleMotorFirst,
    SingleMotorSecond,
    Empty,
}

/// The two-port configuration the board is built from; fixed after
/// construction.
#[derive(Clone, Copy, PartialEq, Eq, Structural)]
pub struct ShieldLayout {
    pub port1: MotorPort,
    pub port2: MotorPort,
}

/// The board's two stepper slots; a slot is `None` when the layout puts no
/// stepper there.
pub struct Steppers {
    pub s1: Option<Stepper>,
    pub s2: Option<Stepper>,
}

impl Steppers {
    /// Number of stepper slots the board exposes.
    pub fn len(&self) -> (r: usize)
        ensures
            r == 2,
    {
        2
    }
}

/// The board's two servo slots, always populated.
pub struct Servos {
    pub s1: Option<Servo>,
    pub s2: Option<Servo>,
}

impl Servos {
    /// Number of servo slots the board exposes.
    pub fn len(&self) -> (r: usize)
        ensures
            r == 2,
    {
        2
    }
}

/// The board's four DC-motor slots; a slot is `None` when the layout puts
/// no motor there.
pub struct Motors {
    pub m1: Option<Motor>,
    pub m2: Option<Motor>,
    pub m3: Option<Motor>,
    pub m4: Option<Motor>,
}

impl Motors {
    /// Number of motor slots the board exposes.
    pub fn len(&self) -> (r: usize)
        ensures
            r == 4,
    {
        4
    }
}

} // verus!
