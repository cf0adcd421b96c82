use motor_shield::motors::MotorPin;
use motor_shield::pwm::PwmChannel;
use motor_shield::servos::ServoPin;
use motor_shield::DigitalOutput;
use motor_shield::MotorPort;
use motor_shield::MotorShield;
use motor_shield::ShieldLayout;

fn motor_channel(pin: &MotorPin) -> &PwmChannel {
    match pin {
        MotorPin::Motor1(c) => c,
        MotorPin::Motor2(c) => c,
        MotorPin::Motor3(c) => c,
        MotorPin::Motor4(c) => c,
    }
}

#[test]
fn two_motors_and_empty_resolves_two_motor_slots() {
    let mut out = DigitalOutput::new();
    let mut shield = MotorShield::new(
        ShieldLayout { port1: MotorPort::TwoMotors, port2: MotorPort::Empty },
        &mut out,
    );
    assert!(shield.motors.m1.is_some());
    assert!(shield.motors.m2.is_some());
    assert!(shield.motors.m3.is_none());
    assert!(shield.motors.m4.is_none());
    assert!(shield.steppers.s1.is_none());
    assert!(shield.steppers.s2.is_none());
    assert!(shield.servos.s1.is_some());
    assert!(shield.servos.s2.is_some());
    // no stepper, so construction leaves the latch alone
    assert_eq!(out.transmitted, vec![0u8]);
    assert_eq!(shield.steppers_count(), 2);
    assert_eq!(shield.motors_count(), 4);
    assert_eq!(shield.servos_count(), 2);
}

#[test]
fn single_motor_ports_resolve_one_slot_each() {
    let mut out = DigitalOutput::new();
    let shield = MotorShield::new(
        ShieldLayout {
            port1: MotorPort::SingleMotorSecond,
            port2: MotorPort::SingleMotorFirst,
        },
        &mut out,
    );
    assert!(shield.motors.m1.is_none());
    assert!(shield.motors.m2.is_some());
    assert!(shield.motors.m3.is_some());
    assert!(shield.motors.m4.is_none());
}

#[test]
fn stepper_ports_release_their_coils_at_construction() {
    let mut out = DigitalOutput::new();
    out.or(0xff);
    out.transmit();
    let shield = MotorShield::new(
        ShieldLayout {
            port1: MotorPort::SingleStepper,
            port2: MotorPort::SingleStepper,
        },
        &mut out,
    );
    assert!(shield.steppers.s1.is_some());
    assert!(shield.steppers.s2.is_some());
    assert!(shield.motors.m1.is_none());
    // stepper 1 coils on bits 1..=4, stepper 2 coils on bits 0 and 5..=7
    assert_eq!(
        out.transmitted,
        vec![0, 0xff, 0b1110_0001, 0b0000_0000]
    );
    assert_eq!(out.state, 0);
    let st = shield.steppers.s1.as_ref().unwrap();
    assert_eq!(st.revsteps, 48);
    assert_eq!(st.currentstep, 0);
}

#[test]
fn accessors_hand_out_the_right_slots() {
    let mut out = DigitalOutput::new();
    let mut shield = MotorShield::new(
        ShieldLayout { port1: MotorPort::TwoMotors, port2: MotorPort::SingleStepper },
        &mut out,
    );
    assert!(shield.motor(1).is_some());
    assert!(shield.motor(2).is_some());
    assert!(shield.motor(3).is_none());
    assert!(shield.motor(4).is_none());
    assert!(shield.stepper(1).is_none());
    assert!(shield.stepper(2).is_some());
    assert!(shield.servo(1).is_some());
    assert!(shield.servo(2).is_some());
}

#[test]
fn enable_motors_arms_present_slots_and_skips_absent_ones() {
    let mut out = DigitalOutput::new();
    let mut shield = MotorShield::new(
        ShieldLayout { port1: MotorPort::TwoMotors, port2: MotorPort::Empty },
        &mut out,
    );
    shield.enable_motors(&[1, 3]);
    let m1 = shield.motors.m1.as_ref().unwrap();
    assert!(motor_channel(&m1.pin).enabled);
    let m2 = shield.motors.m2.as_ref().unwrap();
    assert!(!motor_channel(&m2.pin).enabled);
    assert!(shield.motors.m3.is_none());
}

#[test]
fn set_speeds_writes_present_slots_in_order() {
    let mut out = DigitalOutput::new();
    let mut shield = MotorShield::new(
        ShieldLayout { port1: MotorPort::TwoMotors, port2: MotorPort::Empty },
        &mut out,
    );
    shield.set_speeds(&[(1, 255), (2, 128), (4, 9), (1, 77)]);
    let m1 = shield.motors.m1.as_ref().unwrap();
    let m2 = shield.motors.m2.as_ref().unwrap();
    // the later pair for slot 1 overwrites the earlier one
    assert_eq!(motor_channel(&m1.pin).duty, 77);
    assert_eq!(motor_channel(&m2.pin).duty, 128);
    assert!(shield.motors.m4.is_none());
}

#[test]
fn servos_always_exist_and_take_angles() {
    let mut out = DigitalOutput::new();
    let mut shield = MotorShield::new(
        ShieldLayout { port1: MotorPort::Empty, port2: MotorPort::Empty },
        &mut out,
    );
    let before = out.transmitted.len();
    let servo = shield.servo(1).as_mut().unwrap();
    servo.enable();
    servo.set_angle(90);
    match &servo.pin {
        ServoPin::Servo1(c) => {
            assert!(c.enabled);
            assert_eq!(c.duty, 90);
        }
        _ => unreachable!(),
    }
    // servos never touch the latch
    assert_eq!(out.transmitted.len(), before);
}

#[test]
fn motor_run_through_the_shield_updates_the_shared_latch() {
    let mut out = DigitalOutput::new();
    let mut shield = MotorShield::new(
        ShieldLayout { port1: MotorPort::TwoMotors, port2: MotorPort::Empty },
        &mut out,
    );
    let m1 = shield.motor(1).take().unwrap();
    m1.run(motor_shield::MotorCommands::FORWARD, &mut out);
    m1.run(motor_shield::MotorCommands::RELEASE, &mut out);
    assert_eq!(out.state & ((1 << 2) | (1 << 3)), 0);
    assert_eq!(out.transmitted.len(), 3);
}
