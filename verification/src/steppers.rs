use vstd::prelude::*;

verus! {

use crate::digital_output::DigitalOutput;
use crate::pwm::PwmChannel;
use vstd::arithmetic::div_mod::lemma_add_mod_noop;
use vstd::arithmetic::div_mod::lemma_mod_bound;
use vstd::arithmetic::div_mod::lemma_small_mod;

/// Microsteps per full step; the electrical cycle is 4 full steps, so the
/// phase counter runs modulo `4 * MICROSTEPS == 64`.
pub const MICROSTEPS: u8 = 16;

/// The four drive styles of the stepping engine.
#[derive(Clone, Copy, PartialEq, Eq, Structural)]
pub enum StepperStyle {
    SINGLE,
    DOUBLE,
    INTERLEAVE,
    MICROSTEP,
}

/// Direction of rotation; FORWARD advances the phase, BACKWARD retreats it.
#[derive(Clone, Copy, PartialEq, Eq, Structural)]
pub enum StepperDirection {
    FORWARD,
    BACKWARD,
}

/// One of the two stepper slots, carrying the two PWM channels that set the
/// current magnitude of the two coil pairs. The slot decides which four
/// latch bits drive the coil terminals `A`, `B`, `C`, `D`.
#[derive(Clone, Copy)]
pub enum StepperPin {
    Stepper1((PwmChannel, PwmChannel)),
    Stepper2((PwmChannel, PwmChannel)),
}

/// Latch bit wired to coil terminal `A`.
pub open spec fn coil_a(pin: StepperPin) -> u8 {
    match pin {
        StepperPin::Stepper1(_) => 1u8 << 2,
        StepperPin::Stepper2(_) => 1u8 << 5,
    }
}

/// Latch bit wired to coil terminal `B`.
pub open spec fn coil_b(pin: StepperPin) -> u8 {
    match pin {
        StepperPin::Stepper1(_) => 1u8 << 1,
        StepperPin::Stepper2(_) => 1u8 << 0,
    }
}

/// Latch bit wired to coil terminal `C`.
pub open spec fn coil_c(pin: StepperPin) -> u8 {
    match pin {
        StepperPin::Stepper1(_) => 1u8 << 3,
        StepperPin::Stepper2(_) => 1u8 << 7,
    }
}

/// Latch bit wired to coil terminal `D`.
pub open spec fn coil_d(pin: StepperPin) -> u8 {
    match pin {
        StepperPin::Stepper1(_) => 1u8 << 4,
        StepperPin::Stepper2(_) => 1u8 << 6,
    }
}

/// All four coil bits of the slot.
pub open spec fn coils(pin: StepperPin) -> u8 {
    coil_a(pin) | coil_b(pin) | coil_c(pin) | coil_d(pin)
}

/// The two PWM channels carried by a stepper slot.
pub open spec fn stepper_channels(pin: StepperPin) -> (PwmChannel, PwmChannel) {
    match pin {
        StepperPin::Stepper1(t) => t,
        StepperPin::Stepper2(t) => t,
    }
}

/// Whether two pin values name the same stepper slot.
pub open spec fn same_stepper(x: StepperPin, y: StepperPin) -> bool {
    match x {
        StepperPin::Stepper1(_) => y is Stepper1,
        StepperPin::Stepper2(_) => y is Stepper2,
    }
}

/// The 17-entry quarter-wave interpolation table: entry `i` is the duty for
/// a coil `i` sixteenths of the way into its rising quadrant. Entry 0 is 0,
/// entry 16 is full current, and the entries rise strictly in between.
pub open spec fn curve(i: int) -> u8 {
    if i <= 0 {
        0
    } else if i == 1 {
        25
    } else if i == 2 {
        50
    } else if i == 3 {
        74
    } else if i == 4 {
        98
    } else if i == 5 {
        120
    } else if i == 6 {
        141
    } else if i == 7 {
        162
    } else if i == 8 {
        180
    } else if i == 9 {
        197
    } else if i == 10 {
        212
    } else if i == 11 {
        225
    } else if i == 12 {
        236
    } else if i == 13 {
        244
    } else if i == 14 {
        250
    } else if i == 15 {
        253
    } else {
        255
    }
}

/// Table lookup for the interpolation curve.
pub fn curve_at(i: u8) -> (r: u8)
    requires
        i <= 16,
    ensures
        r == curve(i as int),
{
    match i {
        0 => 0,
        1 => 25,
        2 => 50,
        3 => 74,
        4 => 98,
        5 => 120,
        6 => 141,
        7 => 162,
        8 => 180,
        9 => 197,
        10 => 212,
        11 => 225,
        12 => 236,
        13 => 244,
        14 => 250,
        15 => 253,
        _ => 255,
    }
}

/// The table starts at 0, ends at full current, and rises strictly.
pub proof fn lemma_curve_shape()
    ensures
        curve(0) == 0,
        curve(16) == 255,
        forall|i: int| 0 <= i < 16 ==> #[trigger] curve(i) < curve(i + 1),
{
}

/// Wraps an offset phase back into the 64-position electrical cycle; defined
/// for one wrap in either direction, which covers every step the engine
/// takes.
pub open spec fn wrap_phase(x: int) -> int {
    if x < 0 {
        x + 64
    } else if x >= 64 {
        x - 64
    } else {
        x
    }
}

/// How far one step advances the phase: SINGLE jumps a full step from even
/// micro-slots and snaps a half step from odd ones, DOUBLE mirrors that,
/// INTERLEAVE always half-steps, MICROSTEP moves one sixteenth.
pub open spec fn step_increment(phase: int, style: StepperStyle) -> int {
    match style {
        StepperStyle::SINGLE => if (phase / 8) % 2 == 0 {
            16
        } else {
            8
        },
        StepperStyle::DOUBLE => if (phase / 8) % 2 == 0 {
            8
        } else {
            16
        },
        StepperStyle::INTERLEAVE => 8,
        StepperStyle::MICROSTEP => 1,
    }
}

/// The phase after one step from `phase`, direction-signed and wrapped into
/// the 64-position cycle.
pub open spec fn next_phase(phase: int, dir: StepperDirection, style: StepperStyle) -> int {
    match dir {
        StepperDirection::FORWARD => wrap_phase(phase + step_increment(phase, style)),
        StepperDirection::BACKWARD => wrap_phase(phase - step_increment(phase, style)),
    }
}

/// The phase after `n` steps from `phase`.
pub open spec fn iter_phase(phase: int, dir: StepperDirection, style: StepperStyle, n: nat) -> int
    decreases n,
{
    if n == 0 {
        phase
    } else {
        next_phase(iter_phase(phase, dir, style, (n - 1) as nat), dir, style)
    }
}

/// The direction opposite to `dir`.
pub open spec fn opposite(dir: StepperDirection) -> StepperDirection {
    match dir {
        StepperDirection::FORWARD => StepperDirection::BACKWARD,
        StepperDirection::BACKWARD => StepperDirection::FORWARD,
    }
}

/// The phases on which a style steps by a constant amount: SINGLE the
/// even half-step slots (from an odd slot it first snaps half a step),
/// DOUBLE the odd ones, the other styles every phase of the cycle.
pub open spec fn phase_aligned(phase: int, style: StepperStyle) -> bool {
    match style {
        StepperStyle::SINGLE => (phase / 8) % 2 == 0,
        StepperStyle::DOUBLE => (phase / 8) % 2 == 1,
        StepperStyle::INTERLEAVE => 0 <= phase < 64,
        StepperStyle::MICROSTEP => 0 <= phase < 64,
    }
}

/// Steps per electrical cycle: four full steps, counted in the style's own
/// granularity.
pub open spec fn cycle_steps(style: StepperStyle) -> nat {
    match style {
        StepperStyle::SINGLE => 4,
        StepperStyle::DOUBLE => 4,
        StepperStyle::INTERLEAVE => 8,
        StepperStyle::MICROSTEP => 64,
    }
}

/// One step stays inside the cycle and on the style's settled phases.
proof fn lemma_next_phase_aligned(phase: int, dir: StepperDirection, style: StepperStyle)
    requires
        0 <= phase < 64,
        phase_aligned(phase, style),
    ensures
        0 <= next_phase(phase, dir, style) < 64,
        phase_aligned(next_phase(phase, dir, style), style),
{
}

/// Any number of steps stays inside the cycle and on the style's settled
/// phases.
proof fn lemma_iter_phase_aligned(phase: int, dir: StepperDirection, style: StepperStyle, n: nat)
    requires
        0 <= phase < 64,
        phase_aligned(phase, style),
    ensures
        0 <= iter_phase(phase, dir, style, n) < 64,
        phase_aligned(iter_phase(phase, dir, style, n), style),
    decreases n,
{
    if n > 0 {
        lemma_iter_phase_aligned(phase, dir, style, (n - 1) as nat);
        lemma_next_phase_aligned(iter_phase(phase, dir, style, (n - 1) as nat), dir, style);
    }
}

/// Stepping `n + 1` times is one step followed by `n` more.
proof fn lemma_iter_phase_shift(phase: int, dir: StepperDirection, style: StepperStyle, n: nat)
    ensures
        iter_phase(phase, dir, style, n + 1) == iter_phase(
            next_phase(phase, dir, style),
            dir,
            style,
            n,
        ),
    decreases n,
{
    if n == 0 {
        assert(iter_phase(phase, dir, style, 1) == next_phase(
            iter_phase(phase, dir, style, 0),
            dir,
            style,
        ));
    } else {
        lemma_iter_phase_shift(phase, dir, style, (n - 1) as nat);
        assert(iter_phase(phase, dir, style, n + 1) == next_phase(
            iter_phase(phase, dir, style, n),
            dir,
            style,
        ));
        assert(iter_phase(next_phase(phase, dir, style), dir, style, n) == next_phase(
            iter_phase(next_phase(phase, dir, style), dir, style, (n - 1) as nat),
            dir,
            style,
        ));
    }
}

/// On the style's settled phases, a step one way followed by a step the
/// other way lands back where it started.
proof fn lemma_step_inverse(phase: int, dir: StepperDirection, style: StepperStyle)
    requires
        0 <= phase < 64,
        phase_aligned(phase, style),
    ensures
        next_phase(next_phase(phase, dir, style), opposite(dir), style) == phase,
{
}

/// Closed form of MICROSTEP iteration: `n` sixteenth-steps move the phase
/// by `n`, modulo the 64-position cycle.
proof fn lemma_iter_micro(phase: int, dir: StepperDirection, n: nat)
    requires
        0 <= phase < 64,
    ensures
        dir is FORWARD ==> iter_phase(phase, dir, StepperStyle::MICROSTEP, n) == (phase + n) % 64,
        dir is BACKWARD ==> iter_phase(phase, dir, StepperStyle::MICROSTEP, n) == (phase - n) % 64,
    decreases n,
{
    if n == 0 {
        lemma_small_mod(phase as nat, 64);
    } else {
        lemma_iter_micro(phase, dir, (n - 1) as nat);
        let q = iter_phase(phase, dir, StepperStyle::MICROSTEP, (n - 1) as nat);
        match dir {
            StepperDirection::FORWARD => {
                lemma_mod_bound(phase + (n - 1), 64);
                lemma_add_mod_noop(phase + (n - 1), 1, 64);
                lemma_small_mod(1, 64);
                lemma_small_mod(((phase + (n - 1)) % 64) as nat, 64);
                if q + 1 < 64 {
                    lemma_small_mod((q + 1) as nat, 64);
                } else {
                    vstd::arithmetic::div_mod::lemma_mod_self_0(64);
                }
            },
            StepperDirection::BACKWARD => {
                lemma_mod_bound(phase - (n - 1), 64);
                lemma_add_mod_noop(phase - (n - 1), -1, 64);
                vstd::arithmetic::div_mod::lemma_mod_add_multiples_vanish(-1, 64);
                lemma_small_mod(63, 64);
                lemma_small_mod(((phase - (n - 1)) % 64) as nat, 64);
                if q == 0 {
                    lemma_small_mod(63, 64);
                    vstd::arithmetic::div_mod::lemma_mod_add_multiples_vanish(q - 1, 64);
                } else {
                    vstd::arithmetic::div_mod::lemma_mod_add_multiples_vanish(q - 1, 64);
                    lemma_small_mod((q - 1) as nat, 64);
                }
            },
        }
    }
}

/// From any phase the style settles on, stepping one full
/// electrical cycle — four full steps, in the style's granularity —
/// returns the phase to its starting value, in either direction.
pub proof fn lemma_phase_cycle(phase: int, dir: StepperDirection, style: StepperStyle)
    requires
        0 <= phase < 64,
        phase_aligned(phase, style),
    ensures
        iter_phase(phase, dir, style, cycle_steps(style)) == phase,
{
    match style {
        StepperStyle::SINGLE => {
            reveal_with_fuel(iter_phase, 5);
        },
        StepperStyle::DOUBLE => {
            reveal_with_fuel(iter_phase, 5);
        },
        StepperStyle::INTERLEAVE => {
            reveal_with_fuel(iter_phase, 9);
        },
        StepperStyle::MICROSTEP => {
            lemma_iter_micro(phase, dir, 64);
            vstd::arithmetic::div_mod::lemma_mod_add_multiples_vanish(phase, 64);
            vstd::arithmetic::div_mod::lemma_mod_sub_multiples_vanish(phase, 64);
            lemma_small_mod(phase as nat, 64);
        },
    }
}

/// From any phase the style settles on, `n` steps one way
/// followed by `n` steps the other way return the phase to its starting
/// value.
pub proof fn lemma_phase_reversal(phase: int, dir: StepperDirection, style: StepperStyle, n: nat)
    requires
        0 <= phase < 64,
        phase_aligned(phase, style),
    ensures
        iter_phase(iter_phase(phase, dir, style, n), opposite(dir), style, n) == phase,
    decreases n,
{
    if n > 0 {
        lemma_next_phase_aligned(phase, dir, style);
        lemma_iter_phase_shift(phase, dir, style, (n - 1) as nat);
        let q = iter_phase(phase, dir, style, n);
        lemma_iter_phase_shift(q, opposite(dir), style, (n - 1) as nat);
        let x = iter_phase(phase, dir, style, (n - 1) as nat);
        lemma_iter_phase_aligned(phase, dir, style, (n - 1) as nat);
        lemma_step_inverse(x, dir, style);
        lemma_phase_reversal(phase, dir, style, (n - 1) as nat);
    }
}

/// Number of the slot's four coil bits set in `mask`.
pub open spec fn coil_count(pin: StepperPin, mask: u8) -> int {
    (if mask & coil_a(pin) != 0 {
        1int
    } else {
        0int
    }) + (if mask & coil_b(pin) != 0 {
        1int
    } else {
        0int
    }) + (if mask & coil_c(pin) != 0 {
        1int
    } else {
        0int
    }) + (if mask & coil_d(pin) != 0 {
        1int
    } else {
        0int
    })
}

/// The slot's four coil bits are four distinct single bits; no two coils
/// share a latch bit.
pub proof fn lemma_coil_bits_disjoint(pin: StepperPin)
    ensures
        coil_a(pin) != 0,
        coil_b(pin) != 0,
        coil_c(pin) != 0,
        coil_d(pin) != 0,
        coil_a(pin) & coil_b(pin) == 0,
        coil_a(pin) & coil_c(pin) == 0,
        coil_a(pin) & coil_d(pin) == 0,
        coil_b(pin) & coil_c(pin) == 0,
        coil_b(pin) & coil_d(pin) == 0,
        coil_c(pin) & coil_d(pin) == 0,
{
    assert((1u8 << 2) != 0 && (1u8 << 1) != 0 && (1u8 << 3) != 0 && (1u8 << 4) != 0 && (1u8
        << 2) & (1u8 << 1) == 0 && (1u8 << 2) & (1u8 << 3) == 0 && (1u8 << 2) & (1u8 << 4) == 0
        && (1u8 << 1) & (1u8 << 3) == 0 && (1u8 << 1) & (1u8 << 4) == 0 && (1u8 << 3) & (1u8
        << 4) == 0 && (1u8 << 5) != 0 && (1u8 << 0) != 0 && (1u8 << 7) != 0 && (1u8 << 6) != 0
        && (1u8 << 5) & (1u8 << 0) == 0 && (1u8 << 5) & (1u8 << 7) == 0 && (1u8 << 5) & (1u8
        << 6) == 0 && (1u8 << 0) & (1u8 << 7) == 0 && (1u8 << 0) & (1u8 << 6) == 0 && (1u8
        << 7) & (1u8 << 6) == 0) by (bit_vector);
}

/// The two stepper slots drive disjoint latch bits: stepping or releasing
/// one never disturbs the other's coils.
pub proof fn lemma_stepper_slots_disjoint(x: StepperPin, y: StepperPin)
    requires
        !same_stepper(x, y),
    ensures
        coils(x) & coils(y) == 0,
{
    assert((((1u8 << 2) | (1u8 << 1) | (1u8 << 3) | (1u8 << 4)) & ((1u8 << 5) | (1u8 << 0) | (1u8
        << 7) | (1u8 << 6)) == 0) && (((1u8 << 5) | (1u8 << 0) | (1u8 << 7) | (1u8 << 6)) & ((1u8
        << 2) | (1u8 << 1) | (1u8 << 3) | (1u8 << 4)) == 0)) by (bit_vector);
}

/// Under the non-microstep styles every phase of the
/// cycle energizes exactly one of the eight documented combinations — one
/// coil in even half-step slots, two adjacent coils in odd ones — never
/// zero coils and never three or four.
pub proof fn lemma_energized_pattern(pin: StepperPin, phase: int, style: StepperStyle)
    requires
        0 <= phase < 64,
        !(style is MICROSTEP),
    ensures
        energized_bits(pin, phase, style) != 0,
        (phase / 8) % 2 == 0 ==> coil_count(pin, energized_bits(pin, phase, style)) == 1,
        (phase / 8) % 2 == 1 ==> coil_count(pin, energized_bits(pin, phase, style)) == 2,
{
    lemma_coil_bits_disjoint(pin);
    let a = coil_a(pin);
    let b = coil_b(pin);
    let c = coil_c(pin);
    let d = coil_d(pin);
    assert((a != 0 && b != 0 && c != 0 && d != 0 && a & b == 0 && a & c == 0 && a & d == 0 && b
        & c == 0 && b & d == 0 && c & d == 0) ==> (a & a != 0 && a & b == 0 && a & c == 0 && a
        & d == 0 && (a | b) & a != 0 && (a | b) & b != 0 && (a | b) & c == 0 && (a | b) & d == 0
        && b & a == 0 && b & b != 0 && b & c == 0 && b & d == 0 && (b | c) & a == 0 && (b | c)
        & b != 0 && (b | c) & c != 0 && (b | c) & d == 0 && c & a == 0 && c & b == 0 && c & c
        != 0 && c & d == 0 && (c | d) & a == 0 && (c | d) & b == 0 && (c | d) & c != 0 && (c
        | d) & d != 0 && d & a == 0 && d & b == 0 && d & c == 0 && d & d != 0 && (d | a) & a != 0
        && (d | a) & b == 0 && (d | a) & c == 0 && (d | a) & d != 0 && (a | b) != 0 && (b | c)
        != 0 && (c | d) != 0 && (d | a) != 0)) by (bit_vector);
}

/// The coil latch bits energized at `phase`. For MICROSTEP the quadrant
/// selects one adjacent coil pair; otherwise the phase's eighth selects one
/// of the 8 single/pair combinations around the cycle. Phases outside the
/// cycle (unreachable through the engine) energize nothing.
pub open spec fn energized_bits(pin: StepperPin, phase: int, style: StepperStyle) -> u8 {
    let a = coil_a(pin);
    let b = coil_b(pin);
    let c = coil_c(pin);
    let d = coil_d(pin);
    if style is MICROSTEP {
        let q = phase / 16;
        if q == 0 {
            a | b
        } else if q == 1 {
            b | c
        } else if q == 2 {
            c | d
        } else if q == 3 {
            d | a
        } else {
            0
        }
    } else {
        let k = phase / 8;
        if k == 0 {
            a
        } else if k == 1 {
            a | b
        } else if k == 2 {
            b
        } else if k == 3 {
            b | c
        } else if k == 4 {
            c
        } else if k == 5 {
            c | d
        } else if k == 6 {
            d
        } else if k == 7 {
            d | a
        } else {
            0
        }
    }
}

/// Duty of the first PWM channel at `phase`: the interpolation curve inside
/// the quadrant for MICROSTEP, full current otherwise.
pub open spec fn duty_a(phase: int, style: StepperStyle) -> u8 {
    if style is MICROSTEP {
        if phase < 16 {
            curve(16 - phase)
        } else if phase < 32 {
            curve(phase - 16)
        } else if phase < 48 {
            curve(48 - phase)
        } else {
            curve(phase - 48)
        }
    } else {
        255
    }
}

/// Duty of the second PWM channel at `phase`; the falling counterpart of
/// `duty_a` inside each quadrant.
pub open spec fn duty_b(phase: int, style: StepperStyle) -> u8 {
    if style is MICROSTEP {
        if phase < 16 {
            curve(phase)
        } else if phase < 32 {
            curve(32 - phase)
        } else if phase < 48 {
            curve(phase - 32)
        } else {
            curve(64 - phase)
        }
    } else {
        255
    }
}

/// The step period actually slept under `style`: halved for INTERLEAVE
/// (half-steps), one sixteenth for MICROSTEP (sixteenth-steps).
pub open spec fn adjusted_period(usperstep: u32, style: StepperStyle) -> int {
    match style {
        StepperStyle::INTERLEAVE => usperstep as int / 2,
        StepperStyle::MICROSTEP => usperstep as int / 16,
        _ => usperstep as int,
    }
}

/// Milliseconds slept after step number `i` (0-based) of a run that began
/// with residue `r0`: the whole milliseconds of the period, plus one when
/// the accumulated sub-millisecond residue crosses a full millisecond.
pub open spec fn delay_entry(r0: int, uspers: int, i: int) -> int {
    uspers / 1000 + if (r0 + i * (uspers % 1000)) % 1000 + uspers % 1000 >= 1000 {
        1int
    } else {
        0int
    }
}

/// How many further MICROSTEP steps in `dir` reach a stable full-step
/// boundary (phase 0 or 16), counting zero if `phase` is already there.
pub open spec fn micro_settle(phase: int, dir: StepperDirection) -> int {
    if phase == 0 || phase == 16 {
        0
    } else {
        match dir {
            StepperDirection::FORWARD => if phase < 16 {
                16 - phase
            } else {
                64 - phase
            },
            StepperDirection::BACKWARD => if phase < 16 {
                phase
            } else {
                phase - 16
            },
        }
    }
}

/// How many `onestep` calls `step(steps, dir, style)` issues from phase
/// `phase0`: the requested count (16-fold for MICROSTEP), and for MICROSTEP
/// one unconditional extra step followed by however many more reach a
/// full-step boundary.
pub open spec fn total_onesteps(phase0: int, steps: int, dir: StepperDirection, style: StepperStyle) -> int {
    if style is MICROSTEP {
        let q1 = next_phase(iter_phase(phase0, dir, style, (16 * steps) as nat), dir, style);
        16 * steps + 1 + micro_settle(q1, dir)
    } else {
        steps
    }
}

/// How many sleeps `step(steps, dir, style)` performs: one per `onestep`,
/// except that the unconditional extra MICROSTEP step is not followed by
/// one.
pub open spec fn total_delays(phase0: int, steps: int, dir: StepperDirection, style: StepperStyle) -> int {
    if style is MICROSTEP {
        total_onesteps(phase0, steps, dir, style) - 1
    } else {
        steps
    }
}

/// One accumulation step of the sub-millisecond residue: adding the
/// period's remainder and rolling over at a full millisecond is addition
/// modulo 1000.
proof fn lemma_residue_step(r0: int, rem: int, i: int)
    requires
        0 <= r0 < 1000,
        0 <= rem < 1000,
        0 <= i,
    ensures
        0 <= (r0 + i * rem) % 1000 < 1000,
        ((r0 + i * rem) % 1000 + rem) % 1000 == (r0 + (i + 1) * rem) % 1000,
        (r0 + i * rem) % 1000 + rem < 1000 ==> (r0 + (i + 1) * rem) % 1000 == (r0 + i * rem)
            % 1000 + rem,
        (r0 + i * rem) % 1000 + rem >= 1000 ==> (r0 + (i + 1) * rem) % 1000 == (r0 + i * rem)
            % 1000 + rem - 1000,
{
    lemma_mod_bound(r0 + i * rem, 1000);
    lemma_add_mod_noop(r0 + i * rem, rem, 1000);
    lemma_small_mod(rem as nat, 1000);
    assert((r0 + i * rem) % 1000 % 1000 == (r0 + i * rem) % 1000) by {
        lemma_small_mod(((r0 + i * rem) % 1000) as nat, 1000);
    }
    assert(r0 + i * rem + rem == r0 + (i + 1) * rem) by (nonlinear_arith);
    let v = (r0 + i * rem) % 1000 + rem;
    if v < 1000 {
        lemma_small_mod(v as nat, 1000);
    } else {
        vstd::arithmetic::div_mod::lemma_mod_add_multiples_vanish(v - 1000, 1000);
        lemma_small_mod((v - 1000) as nat, 1000);
    }
}

/// Away from the two stable boundaries, one MICROSTEP step in `dir` brings
/// the phase one step closer to the boundary it is heading for.
proof fn lemma_micro_settle_step(phase: int, dir: StepperDirection)
    requires
        0 <= phase < 64,
        phase != 0,
        phase != 16,
    ensures
        micro_settle(next_phase(phase, dir, StepperStyle::MICROSTEP), dir) == micro_settle(phase, dir) - 1,
{
}

/// Whatever the phase and style, the energized mask only ever holds coil
/// bits of its own slot.
pub proof fn lemma_energized_in_coils(pin: StepperPin, phase: int, style: StepperStyle)
    ensures
        energized_bits(pin, phase, style) & !coils(pin) == 0,
{
    let a = coil_a(pin);
    let b = coil_b(pin);
    let c = coil_c(pin);
    let d = coil_d(pin);
    assert(a & !(a | b | c | d) == 0 && b & !(a | b | c | d) == 0 && c & !(a | b | c | d) == 0
        && d & !(a | b | c | d) == 0 && (a | b) & !(a | b | c | d) == 0 && (b | c) & !(a | b | c
        | d) == 0 && (c | d) & !(a | b | c | d) == 0 && (d | a) & !(a | b | c | d) == 0 && 0u8
        & !(a | b | c | d) == 0) by (bit_vector);
}

/// Pin values naming the same slot have the same coil wiring, whatever
/// their channels hold.
proof fn lemma_same_stepper_bits(x: StepperPin, y: StepperPin, phase: int, style: StepperStyle)
    requires
        same_stepper(x, y),
    ensures
        coils(x) == coils(y),
        energized_bits(x, phase, style) == energized_bits(y, phase, style),
{
}

/// Re-clearing the coil bits of a state whose only set coil bits came from
/// one energized mask recovers the original cleared state.
proof fn lemma_clear_absorb(x: u8, e: u8, c: u8)
    requires
        e & !c == 0,
    ensures
        ((x & !c) | e) & !c == x & !c,
{
    assert(e & !c == 0 ==> ((x & !c) | e) & !c == x & !c) by (bit_vector);
}

impl StepperPin {
    /// The latch bit positions of the slot's four coil terminals.
    pub fn get_abcd(&self) -> (r: (u8, u8, u8, u8))
        ensures
            r.0 == coil_a(*self),
            r.1 == coil_b(*self),
            r.2 == coil_c(*self),
            r.3 == coil_d(*self),
    {
        match self {
            Self::Stepper1(_) => (1u8 << 2, 1u8 << 1, 1u8 << 3, 1u8 << 4),
            Self::Stepper2(_) => (1u8 << 5, 1u8 << 0, 1u8 << 7, 1u8 << 6),
        }
    }

    /// Writes the two coil current magnitudes.
    pub fn set_dutys(&mut self, duty1: u8, duty2: u8)
        ensures
            same_stepper(*final(self), *old(self)),
            stepper_channels(*final(self)).0.duty == duty1,
            stepper_channels(*final(self)).1.duty == duty2,
            stepper_channels(*final(self)).0.enabled == stepper_channels(*old(self)).0.enabled,
            stepper_channels(*final(self)).1.enabled == stepper_channels(*old(self)).1.enabled,
    {
        match self {
            Self::Stepper1((pin1, pin2)) => {
                pin1.set_duty(duty1);
                pin2.set_duty(duty2);
            },
            Self::Stepper2((pin1, pin2)) => {
                pin1.set_duty(duty1);
                pin2.set_duty(duty2);
            },
        }
    }

    /// Arms both PWM channels.
    pub fn enable(&mut self)
        ensures
            same_stepper(*final(self), *old(self)),
            stepper_channels(*final(self)).0.enabled,
            stepper_channels(*final(self)).1.enabled,
            stepper_channels(*final(self)).0.duty == stepper_channels(*old(self)).0.duty,
            stepper_channels(*final(self)).1.duty == stepper_channels(*old(self)).1.duty,
    {
        match self {
            Self::Stepper1((pin1, pin2)) => {
                pin1.enable();
                pin2.enable();
            },
            Self::Stepper2((pin1, pin2)) => {
                pin1.enable();
                pin2.enable();
            },
        }
    }

    /// Disarms both PWM channels.
    pub fn disable(&mut self)
        ensures
            same_stepper(*final(self), *old(self)),
            !stepper_channels(*final(self)).0.enabled,
            !stepper_channels(*final(self)).1.enabled,
            stepper_channels(*final(self)).0.duty == stepper_channels(*old(self)).0.duty,
            stepper_channels(*final(self)).1.duty == stepper_channels(*old(self)).1.duty,
    {
        match self {
            Self::Stepper1((pin1, pin2)) => {
                pin1.disable();
                pin2.disable();
            },
            Self::Stepper2((pin1, pin2)) => {
                pin1.disable();
                pin2.disable();
            },
        }
    }
}

/// The stepping engine for one stepper slot: an absolute electrical phase in
/// the 64-position cycle, the speed-derived step period, and the residual
/// accumulator that keeps sub-millisecond timing from drifting. The shared
/// latch is passed to each call that energizes coils.
pub struct Stepper {
    /// The slot this stepper occupies, with its two PWM channels.
    pub pin: StepperPin,
    /// Steps per mechanical revolution.
    pub revsteps: u16,
    /// Microseconds between full steps, as derived by `set_speed`.
    pub usperstep: u32,
    /// Sub-millisecond residue not yet slept, in microseconds.
    pub steppingcounter: u32,
    /// Position in the 64-position electrical cycle.
    pub currentstep: u8,
}

impl Stepper {
    /// The engine's invariant: phase inside the cycle, period no larger than
    /// one minute of microseconds, residue below one millisecond.
    pub open spec fn wf(self) -> bool {
        &&& self.currentstep < 64
        &&& self.usperstep <= 60_000_000
        &&& self.steppingcounter < 1000
    }

    /// Creates the engine at phase 0 with coils released on the latch and
    /// both coil currents at full magnitude.
    pub fn new(pin: StepperPin, steps: u16, output: &mut DigitalOutput) -> (r: Self)
        ensures
            r.wf(),
            r.revsteps == steps,
            r.usperstep == 0,
            r.steppingcounter == 0,
            r.currentstep == 0,
            same_stepper(r.pin, pin),
            stepper_channels(r.pin).0.duty == 255,
            stepper_channels(r.pin).1.duty == 255,
            stepper_channels(r.pin).0.enabled == stepper_channels(pin).0.enabled,
            stepper_channels(r.pin).1.enabled == stepper_channels(pin).1.enabled,
            final(output).state == old(output).state & !coils(pin),
            final(output).transmitted@ == old(output).transmitted@.push(final(output).state),
            final(output).enabled == old(output).enabled,
    {
        let mut me = Self { pin, revsteps: steps, usperstep: 0, steppingcounter: 0, currentstep: 0 };

        me.release(output);
        me.pin.set_dutys(255, 255);

        me
    }

    /// Derives the step period from a rotational speed: microseconds per
    /// step is one minute of microseconds divided by steps per minute. The
    /// residual accumulator restarts at zero. The product `revsteps * rpm`
    /// is formed in 16-bit arithmetic, so it must fit there, and a zero
    /// speed (division by zero) is excluded.
    pub fn set_speed(&mut self, rpm: u16)
        requires
            old(self).wf(),
            rpm > 0,
            old(self).revsteps > 0,
            old(self).revsteps * rpm <= u16::MAX,
        ensures
            final(self).wf(),
            final(self).usperstep == 60_000_000int / (old(self).revsteps * rpm),
            final(self).steppingcounter == 0,
            final(self).currentstep == old(self).currentstep,
            final(self).revsteps == old(self).revsteps,
            final(self).pin == old(self).pin,
    {
        proof {
            let revs = old(self).revsteps;
            assert(1 <= revs as int * rpm as int && 60_000_000int / (revs as int * rpm as int)
                <= 60_000_000) by (nonlinear_arith)
                requires
                    1 <= revs,
                    1 <= rpm,
            ;
        }
        self.usperstep = 60_000_000u32 / ((self.revsteps * rpm) as u32);
        self.steppingcounter = 0;
    }

    /// Clears all four coil bits on the latch and commits immediately; the
    /// engine's phase and timing state are untouched.
    pub fn release(&self, output: &mut DigitalOutput)
        ensures
            final(output).state == old(output).state & !coils(self.pin),
            final(output).transmitted@ == old(output).transmitted@.push(final(output).state),
            final(output).enabled == old(output).enabled,
    {
        let (a, b, c, d) = self.pin.get_abcd();

        output.and(!a & !b & !c & !d);
        proof {
            assert((!a & !b & !c & !d) == !(a | b | c | d)) by (bit_vector);
        }
        output.transmit();
    }

    /// Blocks through `steps` steps in `dir` under `style`: one `onestep`
    /// (with its single latch transmit) per step, each followed by one sleep
    /// whose whole milliseconds come from the adjusted period and whose
    /// sub-millisecond remainder accumulates in `steppingcounter` — once the
    /// residue reaches a millisecond, that sleep is one millisecond longer.
    /// MICROSTEP multiplies the count by 16 and then keeps stepping until
    /// the phase rests on a stable full-step boundary (0 or 16). The sleeps
    /// themselves are the port layer's: the returned vector holds, in
    /// order, the milliseconds to sleep after each step taken.
    pub fn step(&mut self, steps: u32, dir: StepperDirection, style: StepperStyle, output: &mut DigitalOutput) -> (delays: Vec<u16>)
        requires
            old(self).wf(),
            style is MICROSTEP ==> steps <= 0x0fff_ffff,
        ensures
            final(self).wf(),
            final(self).revsteps == old(self).revsteps,
            final(self).usperstep == old(self).usperstep,
            same_stepper(final(self).pin, old(self).pin),
            stepper_channels(final(self).pin).0.enabled == stepper_channels(old(self).pin).0.enabled,
            stepper_channels(final(self).pin).1.enabled == stepper_channels(old(self).pin).1.enabled,
            final(self).currentstep as int == iter_phase(
                old(self).currentstep as int,
                dir,
                style,
                total_onesteps(old(self).currentstep as int, steps as int, dir, style) as nat,
            ),
            style is MICROSTEP ==> final(self).currentstep == 0 || final(self).currentstep == 16,
            total_onesteps(old(self).currentstep as int, steps as int, dir, style) == 0 ==> final(
                self).pin == old(self).pin,
            total_onesteps(old(self).currentstep as int, steps as int, dir, style) > 0 ==> {
                &&& stepper_channels(final(self).pin).0.duty == duty_a(
                    final(self).currentstep as int,
                    style,
                )
                &&& stepper_channels(final(self).pin).1.duty == duty_b(
                    final(self).currentstep as int,
                    style,
                )
            },
            final(output).enabled == old(output).enabled,
            final(output).transmitted@.len() == old(output).transmitted@.len() + total_onesteps(
                old(self).currentstep as int,
                steps as int,
                dir,
                style,
            ),
            forall|i: int|
                0 <= i < old(output).transmitted@.len() ==> #[trigger] final(
                    output).transmitted@[i] == old(output).transmitted@[i],
            forall|i: int|
                old(output).transmitted@.len() <= i < old(output).transmitted@.len()
                    + total_onesteps(old(self).currentstep as int, steps as int, dir, style)
                    ==> #[trigger] final(output).transmitted@[i] == ((old(output).state & !coils(
                    old(self).pin)) | energized_bits(
                    old(self).pin,
                    iter_phase(
                        old(self).currentstep as int,
                        dir,
                        style,
                        (i + 1 - old(output).transmitted@.len()) as nat,
                    ),
                    style,
                )),
            total_onesteps(old(self).currentstep as int, steps as int, dir, style) == 0 ==> final(
                output).state == old(output).state,
            total_onesteps(old(self).currentstep as int, steps as int, dir, style) > 0 ==> final(
                output).state == ((old(output).state & !coils(old(self).pin)) | energized_bits(
                old(self).pin,
                final(self).currentstep as int,
                style,
            )),
            delays@.len() == total_delays(old(self).currentstep as int, steps as int, dir, style),
            forall|i: int|
                0 <= i < delays@.len() ==> #[trigger] delays@[i] as int == delay_entry(
                    old(self).steppingcounter as int,
                    adjusted_period(old(self).usperstep, style),
                    i,
                ),
            final(self).steppingcounter as int == (old(self).steppingcounter as int + total_delays(
                old(self).currentstep as int,
                steps as int,
                dir,
                style,
            ) * (adjusted_period(old(self).usperstep, style) % 1000)) % 1000,
    {
        let ghost p0 = self.currentstep as int;
        let ghost pin0 = self.pin;
        let ghost s0 = output.state;
        let ghost base_len = output.transmitted@.len() as int;
        let ghost old_trans = output.transmitted@;
        let ghost r0 = self.steppingcounter as int;
        let ghost us0 = self.usperstep;
        let ghost enabled0 = output.enabled;

        let mut uspers: u32 = self.usperstep;
        let mut count: u32 = steps;

        match style {
            StepperStyle::INTERLEAVE => {
                uspers = uspers / 2;
            },
            StepperStyle::MICROSTEP => {
                uspers = uspers / 16;
                count = steps * MICROSTEPS as u32;
            },
            _ => {},
        }
        let ghost rem = uspers as int % 1000;

        proof {
            lemma_small_mod(r0 as nat, 1000);
            lemma_mod_bound(rem, 1000);
        }

        let mut delays: Vec<u16> = Vec::new();
        let mut done: u32 = 0;
        while done < count
            invariant
                self.wf(),
                done <= count,
                count as int == if style is MICROSTEP {
                    16 * steps as int
                } else {
                    steps as int
                },
                uspers as int == adjusted_period(us0, style),
                uspers <= 60_000_000,
                0 <= r0 < 1000,
                rem == uspers as int % 1000,
                0 <= rem < 1000,
                self.revsteps == old(self).revsteps,
                self.usperstep == us0,
                same_stepper(self.pin, pin0),
                stepper_channels(self.pin).0.enabled == stepper_channels(pin0).0.enabled,
                stepper_channels(self.pin).1.enabled == stepper_channels(pin0).1.enabled,
                self.currentstep as int == iter_phase(p0, dir, style, done as nat),
                done == 0 ==> self.pin == pin0,
                done > 0 ==> stepper_channels(self.pin).0.duty == duty_a(
                    self.currentstep as int,
                    style,
                ),
                done > 0 ==> stepper_channels(self.pin).1.duty == duty_b(
                    self.currentstep as int,
                    style,
                ),
                output.enabled == enabled0,
                0 <= base_len,
                output.transmitted@.len() == base_len + done,
                forall|i: int|
                    0 <= i < base_len ==> #[trigger] output.transmitted@[i] == old_trans[i],
                forall|i: int|
                    base_len <= i < base_len + done ==> #[trigger] output.transmitted@[i] == ((s0
                        & !coils(pin0)) | energized_bits(
                        pin0,
                        iter_phase(p0, dir, style, (i + 1 - base_len) as nat),
                        style,
                    )),
                done == 0 ==> output.state == s0,
                done > 0 ==> output.state == ((s0 & !coils(pin0)) | energized_bits(
                    pin0,
                    iter_phase(p0, dir, style, done as nat),
                    style,
                )),
                delays@.len() == done,
                forall|i: int|
                    0 <= i < done ==> #[trigger] delays@[i] as int == delay_entry(
                        r0,
                        uspers as int,
                        i,
                    ),
                self.steppingcounter as int == (r0 + done * rem) % 1000,
            decreases count - done,
        {
            let ghost prev_phase = self.currentstep as int;
            let ghost prev_pin = self.pin;
            let ghost prev_trans = output.transmitted@;
            let _ = self.onestep(dir, style, output);
            proof {
                lemma_same_stepper_bits(prev_pin, pin0, self.currentstep as int, style);
                if done > 0 {
                    lemma_energized_in_coils(pin0, prev_phase, style);
                    lemma_clear_absorb(s0, energized_bits(pin0, prev_phase, style), coils(pin0));
                }
                lemma_residue_step(r0, rem, done as int);
                assert forall|i: int| base_len <= i < base_len + done + 1 implies #[trigger] output.transmitted@[i]
                    == ((s0 & !coils(pin0)) | energized_bits(
                    pin0,
                    iter_phase(p0, dir, style, (i + 1 - base_len) as nat),
                    style,
                )) by {
                    if i < base_len + done {
                        assert(prev_trans.push(output.state)[i] == prev_trans[i]);
                    }
                }
            }
            let base_ms: u16 = (uspers / 1000) as u16;
            self.steppingcounter = self.steppingcounter + uspers % 1000;
            let ms: u16;
            if self.steppingcounter >= 1000 {
                self.steppingcounter = self.steppingcounter - 1000;
                ms = base_ms + 1;
            } else {
                ms = base_ms;
            }
            delays.push(ms);
            done = done + 1;
        }

        if let StepperStyle::MICROSTEP = style {
            let ghost q_main = self.currentstep as int;
            let ghost pin_main = self.pin;
            let mut ret = self.onestep(dir, style, output);
            let ghost q1 = self.currentstep as int;
            let ghost mut j: int = 0int;
            proof {
                lemma_same_stepper_bits(pin_main, pin0, q1, style);
                if count > 0 {
                    lemma_energized_in_coils(pin0, q_main, style);
                    lemma_clear_absorb(s0, energized_bits(pin0, q_main, style), coils(pin0));
                }
            }

            while ret != 0 && ret != MICROSTEPS
                invariant
                    self.wf(),
                    style is MICROSTEP,
                    ret == self.currentstep,
                    count as int == 16 * steps as int,
                    uspers as int == adjusted_period(us0, style),
                    uspers <= 60_000_000,
                    0 <= r0 < 1000,
                    rem == uspers as int % 1000,
                    0 <= rem < 1000,
                    self.revsteps == old(self).revsteps,
                    self.usperstep == us0,
                    same_stepper(self.pin, pin0),
                    stepper_channels(self.pin).0.enabled == stepper_channels(pin0).0.enabled,
                    stepper_channels(self.pin).1.enabled == stepper_channels(pin0).1.enabled,
                    stepper_channels(self.pin).0.duty == duty_a(self.currentstep as int, style),
                    stepper_channels(self.pin).1.duty == duty_b(self.currentstep as int, style),
                    q1 == iter_phase(p0, dir, style, (count + 1) as nat),
                    0 <= j,
                    j == micro_settle(q1, dir) - micro_settle(self.currentstep as int, dir),
                    0 <= micro_settle(self.currentstep as int, dir),
                    self.currentstep as int == iter_phase(p0, dir, style, (count + 1 + j) as nat),
                    output.enabled == enabled0,
                    0 <= base_len,
                    output.transmitted@.len() == base_len + count + 1 + j,
                    forall|i: int|
                        0 <= i < base_len ==> #[trigger] output.transmitted@[i] == old_trans[i],
                    forall|i: int|
                        base_len <= i < base_len + count + 1 + j ==> #[trigger] output.transmitted@[i]
                            == ((s0 & !coils(pin0)) | energized_bits(
                            pin0,
                            iter_phase(p0, dir, style, (i + 1 - base_len) as nat),
                            style,
                        )),
                    output.state == ((s0 & !coils(pin0)) | energized_bits(
                        pin0,
                        iter_phase(p0, dir, style, (count + 1 + j) as nat),
                        style,
                    )),
                    delays@.len() == count + j,
                    forall|i: int|
                        0 <= i < count + j ==> #[trigger] delays@[i] as int == delay_entry(
                            r0,
                            uspers as int,
                            i,
                        ),
                    self.steppingcounter as int == (r0 + (count + j) * rem) % 1000,
                decreases micro_settle(self.currentstep as int, dir),
            {
                let ghost prev_phase = self.currentstep as int;
                let ghost prev_pin = self.pin;
                proof {
                    lemma_micro_settle_step(prev_phase, dir);
                }
                ret = self.onestep(dir, style, output);
                proof {
                    lemma_same_stepper_bits(prev_pin, pin0, self.currentstep as int, style);
                    lemma_energized_in_coils(pin0, prev_phase, style);
                    lemma_clear_absorb(s0, energized_bits(pin0, prev_phase, style), coils(pin0));
                    j = j + 1;
                    lemma_residue_step(r0, rem, (count + j - 1) as int);
                }
                let base_ms: u16 = (uspers / 1000) as u16;
                self.steppingcounter = self.steppingcounter + uspers % 1000;
                let ms: u16;
                if self.steppingcounter >= 1000 {
                    self.steppingcounter = self.steppingcounter - 1000;
                    ms = base_ms + 1;
                } else {
                    ms = base_ms;
                }
                delays.push(ms);
            }
        }

        delays
    }

    /// Advances the phase one step in `dir` under `style`, re-energizes the
    /// coils for the new phase — clearing all four coil bits before setting
    /// the new ones, with the new duty pair already in place — and commits
    /// the latch with exactly one transmit. Returns the new phase.
    pub fn onestep(&mut self, dir: StepperDirection, style: StepperStyle, output: &mut DigitalOutput) -> (ret: u8)
        requires
            old(self).wf(),
        ensures
            final(self).wf(),
            ret == final(self).currentstep,
            final(self).currentstep as int == next_phase(old(self).currentstep as int, dir, style),
            final(self).revsteps == old(self).revsteps,
            final(self).usperstep == old(self).usperstep,
            final(self).steppingcounter == old(self).steppingcounter,
            same_stepper(final(self).pin, old(self).pin),
            stepper_channels(final(self).pin).0.duty == duty_a(final(self).currentstep as int, style),
            stepper_channels(final(self).pin).1.duty == duty_b(final(self).currentstep as int, style),
            stepper_channels(final(self).pin).0.enabled == stepper_channels(old(self).pin).0.enabled,
            stepper_channels(final(self).pin).1.enabled == stepper_channels(old(self).pin).1.enabled,
            final(output).state == ((old(output).state & !coils(old(self).pin)) | energized_bits(
                old(self).pin,
                final(self).currentstep as int,
                style,
            )),
            final(output).transmitted@ == old(output).transmitted@.push(final(output).state),
            final(output).enabled == old(output).enabled,
    {
        let phase = self.currentstep;
        let incr: u8 = match style {
            StepperStyle::SINGLE => if (phase / (MICROSTEPS / 2)) % 2 == 0 {
                MICROSTEPS
            } else {
                MICROSTEPS / 2
            },
            StepperStyle::DOUBLE => if (phase / (MICROSTEPS / 2)) % 2 == 0 {
                MICROSTEPS / 2
            } else {
                MICROSTEPS
            },
            StepperStyle::INTERLEAVE => MICROSTEPS / 2,
            StepperStyle::MICROSTEP => 1,
        };
        let next: u8 = match dir {
            StepperDirection::FORWARD => {
                let t = phase + incr;
                if t >= 64 {
                    t - 64
                } else {
                    t
                }
            },
            StepperDirection::BACKWARD => {
                let t = phase + 64 - incr;
                if t >= 64 {
                    t - 64
                } else {
                    t
                }
            },
        };
        self.currentstep = next;

        let (ocra, ocrb): (u8, u8) = match style {
            StepperStyle::MICROSTEP => {
                if next < MICROSTEPS {
                    (curve_at(MICROSTEPS - next), curve_at(next))
                } else if next < 2 * MICROSTEPS {
                    (curve_at(next - MICROSTEPS), curve_at(2 * MICROSTEPS - next))
                } else if next < 3 * MICROSTEPS {
                    (curve_at(3 * MICROSTEPS - next), curve_at(next - 2 * MICROSTEPS))
                } else {
                    (curve_at(next - 3 * MICROSTEPS), curve_at(4 * MICROSTEPS - next))
                }
            },
            _ => (255, 255),
        };
        self.pin.set_dutys(ocra, ocrb);

        let (a, b, c, d) = self.pin.get_abcd();

        output.and(!a & !b & !c & !d);
        proof {
            assert((!a & !b & !c & !d) == !(a | b | c | d)) by (bit_vector);
        }

        if let StepperStyle::MICROSTEP = style {
            match next / MICROSTEPS {
                0 => output.or(a | b),
                1 => output.or(b | c),
                2 => output.or(c | d),
                3 => output.or(d | a),
                _ => {},
            }
        } else {
            match next / (MICROSTEPS / 2) {
                0 => output.or(a),
                1 => output.or(a | b),
                2 => output.or(b),
                3 => output.or(b | c),
                4 => output.or(c),
                5 => output.or(c | d),
                6 => output.or(d),
                7 => output.or(d | a),
                _ => output.and(!a & !b & !c & !d),
            }
        }

        output.transmit();

        self.currentstep
    }

    /// Arms both coil PWM channels only; the latch is untouched.
    pub fn enable(&mut self)
        ensures
            same_stepper(final(self).pin, old(self).pin),
            stepper_channels(final(self).pin).0.enabled,
            stepper_channels(final(self).pin).1.enabled,
            stepper_channels(final(self).pin).0.duty == stepper_channels(old(self).pin).0.duty,
            stepper_channels(final(self).pin).1.duty == stepper_channels(old(self).pin).1.duty,
            final(self).revsteps == old(self).revsteps,
            final(self).usperstep == old(self).usperstep,
            final(self).steppingcounter == old(self).steppingcounter,
            final(self).currentstep == old(self).currentstep,
    {
        self.pin.enable();
    }

    /// Disarms both coil PWM channels only; the latch is untouched.
    pub fn disable(&mut self)
        ensures
            same_stepper(final(self).pin, old(self).pin),
            !stepper_channels(final(self).pin).0.enabled,
            !stepper_channels(final(self).pin).1.enabled,
            stepper_channels(final(self).pin).0.duty == stepper_channels(old(self).pin).0.duty,
            stepper_channels(final(self).pin).1.duty == stepper_channels(old(self).pin).1.duty,
            final(self).revsteps == old(self).revsteps,
            final(self).usperstep == old(self).usperstep,
            final(self).steppingcounter == old(self).steppingcounter,
            final(self).currentstep == old(self).currentstep,
    {
        self.pin.disable();
    }
}

} // verus!
