use motor_shield::pwm::PwmChannel;
use motor_shield::steppers::curve_at;
use motor_shield::steppers::Stepper;
use motor_shield::steppers::StepperPin;
use motor_shield::DigitalOutput;
use motor_shield::StepperDirection;
use motor_shield::StepperStyle;

fn fresh_stepper(out: &mut DigitalOutput) -> Stepper {
    Stepper::new(
        StepperPin::Stepper1((PwmChannel::new(), PwmChannel::new())),
        48,
        out,
    )
}

fn duties(st: &Stepper) -> (u8, u8) {
    match &st.pin {
        StepperPin::Stepper1((c1, c2)) => (c1.duty, c2.duty),
        StepperPin::Stepper2((c1, c2)) => (c1.duty, c2.duty),
    }
}

#[test]
fn new_stepper_releases_coils_and_sets_full_current() {
    let mut out = DigitalOutput::new();
    out.or(0xff);
    out.transmit();
    let st = fresh_stepper(&mut out);
    assert_eq!(st.currentstep, 0);
    assert_eq!(st.usperstep, 0);
    assert_eq!(st.steppingcounter, 0);
    assert_eq!(st.revsteps, 48);
    // Stepper 1 coils sit on bits 1..=4; releasing clears exactly those.
    assert_eq!(out.state, 0b1110_0001);
    assert_eq!(out.transmitted, vec![0, 0xff, 0b1110_0001]);
    assert_eq!(duties(&st), (255, 255));
}

#[test]
fn set_speed_derives_microseconds_per_step() {
    let mut out = DigitalOutput::new();
    let mut st = fresh_stepper(&mut out);
    st.set_speed(60);
    assert_eq!(st.usperstep, 60_000_000 / (48 * 60));
    assert_eq!(st.usperstep, 20833);
    assert_eq!(st.steppingcounter, 0);
}

#[test]
fn single_style_walks_the_full_step_slots() {
    let mut out = DigitalOutput::new();
    let mut st = fresh_stepper(&mut out);
    let mut phases = Vec::new();
    let mut latches = Vec::new();
    for _ in 0..4 {
        phases.push(st.onestep(StepperDirection::FORWARD, StepperStyle::SINGLE, &mut out));
        latches.push(out.state);
    }
    assert_eq!(phases, vec![16, 32, 48, 0]);
    // one coil at a time: B, C, D, A on bits 1, 3, 4, 2
    assert_eq!(latches, vec![0b0000_0010, 0b0000_1000, 0b0001_0000, 0b0000_0100]);
}

#[test]
fn single_style_snaps_from_an_odd_slot() {
    let mut out = DigitalOutput::new();
    let mut st = fresh_stepper(&mut out);
    st.onestep(StepperDirection::FORWARD, StepperStyle::DOUBLE, &mut out);
    assert_eq!(st.currentstep, 8);
    // from an odd half-step slot SINGLE advances only half a step
    let p = st.onestep(StepperDirection::FORWARD, StepperStyle::SINGLE, &mut out);
    assert_eq!(p, 16);
}

#[test]
fn double_style_walks_the_two_coil_slots() {
    let mut out = DigitalOutput::new();
    let mut st = fresh_stepper(&mut out);
    let mut phases = Vec::new();
    let mut latches = Vec::new();
    for _ in 0..5 {
        phases.push(st.onestep(StepperDirection::FORWARD, StepperStyle::DOUBLE, &mut out));
        latches.push(out.state);
    }
    assert_eq!(phases, vec![8, 24, 40, 56, 8]);
    // two coils at a time: A+B, B+C, C+D, D+A, A+B
    assert_eq!(
        latches,
        vec![0b0000_0110, 0b0000_1010, 0b0001_1000, 0b0001_0100, 0b0000_0110]
    );
}

#[test]
fn interleave_style_half_steps_through_all_eight_patterns() {
    let mut out = DigitalOutput::new();
    let mut st = fresh_stepper(&mut out);
    let mut phases = Vec::new();
    let mut latches = Vec::new();
    for _ in 0..8 {
        phases.push(st.onestep(StepperDirection::FORWARD, StepperStyle::INTERLEAVE, &mut out));
        latches.push(out.state);
    }
    assert_eq!(phases, vec![8, 16, 24, 32, 40, 48, 56, 0]);
    assert_eq!(
        latches,
        vec![
            0b0000_0110,
            0b0000_0010,
            0b0000_1010,
            0b0000_1000,
            0b0001_1000,
            0b0001_0000,
            0b0001_0100,
            0b0000_0100
        ]
    );
    // eight half-steps complete one electrical cycle
    assert_eq!(st.currentstep, 0);
}

#[test]
fn non_microstep_patterns_energize_one_or_two_coils() {
    let styles = [StepperStyle::SINGLE, StepperStyle::DOUBLE, StepperStyle::INTERLEAVE];
    for style in styles {
        let mut out = DigitalOutput::new();
        let mut st = fresh_stepper(&mut out);
        for _ in 0..64 {
            st.onestep(StepperDirection::FORWARD, style, &mut out);
            let coil_bits = out.state & 0b0001_1110;
            let count = coil_bits.count_ones();
            assert!(count == 1 || count == 2, "style {:?}: {} coils", style as u8, count);
        }
    }
}

#[test]
fn microstep_advances_by_one_and_blends_duties() {
    let mut out = DigitalOutput::new();
    let mut st = fresh_stepper(&mut out);
    let p = st.onestep(StepperDirection::FORWARD, StepperStyle::MICROSTEP, &mut out);
    assert_eq!(p, 1);
    // quadrant 0 energizes A+B (bits 2 and 1)
    assert_eq!(out.state, 0b0000_0110);
    // one sixteenth in: A falling from full, B rising from zero
    assert_eq!(duties(&st), (253, 25));
    let p2 = st.onestep(StepperDirection::BACKWARD, StepperStyle::MICROSTEP, &mut out);
    assert_eq!(p2, 0);
    assert_eq!(duties(&st), (255, 0));
}

#[test]
fn microstep_backward_wraps_into_last_quadrant() {
    let mut out = DigitalOutput::new();
    let mut st = fresh_stepper(&mut out);
    let p = st.onestep(StepperDirection::BACKWARD, StepperStyle::MICROSTEP, &mut out);
    assert_eq!(p, 63);
    // quadrant 3 energizes D+A (bits 4 and 2)
    assert_eq!(out.state, 0b0001_0100);
    assert_eq!(duties(&st), (253, 25));
}

#[test]
fn microstep_cycle_returns_to_start() {
    let mut out = DigitalOutput::new();
    let mut st = fresh_stepper(&mut out);
    for _ in 0..64 {
        st.onestep(StepperDirection::FORWARD, StepperStyle::MICROSTEP, &mut out);
    }
    assert_eq!(st.currentstep, 0);
}

#[test]
fn forward_then_backward_returns_to_start() {
    for style in [
        StepperStyle::SINGLE,
        StepperStyle::INTERLEAVE,
        StepperStyle::MICROSTEP,
    ] {
        let mut out = DigitalOutput::new();
        let mut st = fresh_stepper(&mut out);
        for _ in 0..7 {
            st.onestep(StepperDirection::FORWARD, style, &mut out);
        }
        for _ in 0..7 {
            st.onestep(StepperDirection::BACKWARD, style, &mut out);
        }
        assert_eq!(st.currentstep, 0, "style {:?}", style as u8);
    }
    // DOUBLE settles on the half-offset slots: reversal holds from there
    let mut out = DigitalOutput::new();
    let mut st = fresh_stepper(&mut out);
    st.onestep(StepperDirection::FORWARD, StepperStyle::DOUBLE, &mut out);
    assert_eq!(st.currentstep, 8);
    for _ in 0..5 {
        st.onestep(StepperDirection::FORWARD, StepperStyle::DOUBLE, &mut out);
    }
    for _ in 0..5 {
        st.onestep(StepperDirection::BACKWARD, StepperStyle::DOUBLE, &mut out);
    }
    assert_eq!(st.currentstep, 8);
}

#[test]
fn single_cycles_from_any_even_half_step_slot() {
    let mut out = DigitalOutput::new();
    let mut st = fresh_stepper(&mut out);
    // a microstep moves to phase 1, still an even half-step slot
    st.onestep(StepperDirection::FORWARD, StepperStyle::MICROSTEP, &mut out);
    assert_eq!(st.currentstep, 1);
    let mut phases = Vec::new();
    for _ in 0..4 {
        phases.push(st.onestep(StepperDirection::FORWARD, StepperStyle::SINGLE, &mut out));
    }
    assert_eq!(phases, vec![17, 33, 49, 1]);
}

#[test]
fn release_clears_all_coil_bits_and_transmits() {
    let mut out = DigitalOutput::new();
    let mut st = fresh_stepper(&mut out);
    st.onestep(StepperDirection::FORWARD, StepperStyle::DOUBLE, &mut out);
    assert_ne!(out.state & 0b0001_1110, 0);
    let before = out.transmitted.len();
    st.release(&mut out);
    assert_eq!(out.state & 0b0001_1110, 0);
    assert_eq!(out.transmitted.len(), before + 1);
}

#[test]
fn step_double_issues_one_latch_update_per_step() {
    let mut out = DigitalOutput::new();
    let mut st = fresh_stepper(&mut out);
    st.set_speed(60);
    let before = out.transmitted.len();
    let delays = st.step(48, StepperDirection::FORWARD, StepperStyle::DOUBLE, &mut out);
    assert_eq!(out.transmitted.len(), before + 48);
    assert_eq!(delays.len(), 48);
    // 48 two-coil steps from phase 0 end on a half-offset slot
    assert_eq!(st.currentstep, 56);
    assert_eq!(st.currentstep % 8, 0);
}

#[test]
fn step_keeps_sub_millisecond_residue() {
    let mut out = DigitalOutput::new();
    let mut st = fresh_stepper(&mut out);
    st.set_speed(60);
    // 20833 us per step: 20 whole ms, 833 us carried over
    let delays = st.step(48, StepperDirection::FORWARD, StepperStyle::DOUBLE, &mut out);
    assert_eq!(delays[0], 20);
    assert_eq!(delays[1], 21);
    let extras = delays.iter().filter(|&&d| d == 21).count();
    let bases = delays.iter().filter(|&&d| d == 20).count();
    assert_eq!(extras + bases, 48);
    assert_eq!(extras, 39);
    assert_eq!(st.steppingcounter, (48 * 833) % 1000);
}

#[test]
fn step_interleave_halves_the_period() {
    let mut out = DigitalOutput::new();
    let mut st = fresh_stepper(&mut out);
    st.set_speed(60);
    let delays = st.step(4, StepperDirection::FORWARD, StepperStyle::INTERLEAVE, &mut out);
    assert_eq!(delays.len(), 4);
    // 20833 / 2 = 10416 us: 10 whole ms, 416 us carried; the residue
    // crosses a millisecond on the third step
    assert_eq!(delays, vec![10, 10, 11, 10]);
    assert_eq!(st.steppingcounter, (4 * 416) % 1000);
}

#[test]
fn step_microstep_settles_on_a_full_step_boundary() {
    let mut out = DigitalOutput::new();
    let mut st = fresh_stepper(&mut out);
    st.set_speed(60);
    let before = out.transmitted.len();
    let delays = st.step(1, StepperDirection::FORWARD, StepperStyle::MICROSTEP, &mut out);
    // 16 microsteps reach phase 16, the unconditional extra step leaves it,
    // and the engine walks on to the next boundary at phase 0
    assert_eq!(st.currentstep, 0);
    assert_eq!(out.transmitted.len(), before + 64);
    assert_eq!(delays.len(), 63);
    // 20833 / 16 = 1302 us per microstep
    assert_eq!(delays[0], 1);
}

#[test]
fn step_microstep_backward_settles_immediately() {
    let mut out = DigitalOutput::new();
    let mut st = fresh_stepper(&mut out);
    st.set_speed(60);
    let before = out.transmitted.len();
    st.step(1, StepperDirection::BACKWARD, StepperStyle::MICROSTEP, &mut out);
    // 16 backward microsteps reach 48, the extra step reaches 47, and the
    // engine walks down to 16
    assert_eq!(st.currentstep, 16);
    assert_eq!(out.transmitted.len(), before + 16 + 1 + 31);
}

#[test]
fn step_zero_steps_moves_nothing() {
    let mut out = DigitalOutput::new();
    let mut st = fresh_stepper(&mut out);
    st.set_speed(60);
    let before = out.transmitted.len();
    let delays = st.step(0, StepperDirection::FORWARD, StepperStyle::SINGLE, &mut out);
    assert!(delays.is_empty());
    assert_eq!(out.transmitted.len(), before);
    assert_eq!(st.currentstep, 0);
}

#[test]
fn enable_and_disable_touch_only_the_channels() {
    let mut out = DigitalOutput::new();
    let mut st = fresh_stepper(&mut out);
    let before = out.transmitted.len();
    st.enable();
    match &st.pin {
        StepperPin::Stepper1((c1, c2)) => {
            assert!(c1.enabled && c2.enabled);
        }
        _ => unreachable!(),
    }
    st.disable();
    match &st.pin {
        StepperPin::Stepper1((c1, c2)) => {
            assert!(!c1.enabled && !c2.enabled);
        }
        _ => unreachable!(),
    }
    assert_eq!(out.transmitted.len(), before);
}

#[test]
fn curve_table_is_monotone_with_fixed_endpoints() {
    let expected: [u8; 17] = [
        0, 25, 50, 74, 98, 120, 141, 162, 180, 197, 212, 225, 236, 244, 250, 253, 255,
    ];
    for (i, &v) in expected.iter().enumerate() {
        assert_eq!(curve_at(i as u8), v);
    }
    assert_eq!(curve_at(0), 0);
    assert_eq!(curve_at(16), 255);
    for i in 0..16u8 {
        assert!(curve_at(i) < curve_at(i + 1));
    }
}

#[test]
fn microstep_duty_pairs_mirror_inside_a_quadrant() {
    let mut out = DigitalOutput::new();
    let mut st = fresh_stepper(&mut out);
    for i in 1..=16u8 {
        st.onestep(StepperDirection::FORWARD, StepperStyle::MICROSTEP, &mut out);
        assert_eq!(duties(&st), (curve_at(16 - i), curve_at(i)));
    }
}
