//! Driver logic for a two-port motor expansion board: an 8-bit shift-register
//! latch shared by all drivers, DC-motor and stepper coil sequencing, a
//! microstepping interpolation curve, and speed-to-timing conversion.
//!
//! Hardware access (pin levels, PWM registers, blocking delays) is modelled as
//! plain data: the latch records every transmitted byte, PWM channels record
//! their armed state and duty, and stepping returns the delay schedule the
//! port layer must sleep through.

pub mod digital_output;
pub mod layout;
pub mod motors;
pub mod pwm;
pub mod servos;
pub mod shield;
pub mod steering;
pub mod steppers;

pub use crate::digital_output::DigitalOutput;
pub use crate::layout::MotorPort;
pub use crate::layout::ShieldLayout;
pub use crate::motors::MotorCommands;
pub use crate::shield::MotorShield;
pub use crate::steppers::StepperDirection;
pub use crate::steppers::StepperStyle;
