//! Piezo buzzer: the tone sequences played when the link to the central
//! comes up or goes down, and the square-wave plan of a single beep.

use vstd::prelude::*;

verus! {

/// One step of a tone sequence.
#[derive(Clone, Copy, Debug, PartialEq, Eq)]
pub enum Tone {
    /// Sound `frequency_hz` for `duration_ms` (a frequency of 0 is silent).
    Beep { frequency_hz: u32, duration_ms: u64 },
    /// Stay silent for `duration_ms`.
    Pause { duration_ms: u64 },
}

/// The tone set a half plays.
#[derive(Clone, Copy, Debug, PartialEq, Eq)]
pub enum ToneSet {
    /// Falling R2-D2 whistle on connect, warbling one on disconnect.
    R2d2,
    /// Rising two-tone chime on connect, falling one on disconnect.
    Chime,
}

pub open spec fn beep(frequency_hz: u32, duration_ms: u64) -> Tone {
    Tone::Beep { frequency_hz, duration_ms }
}

pub open spec fn pause(duration_ms: u64) -> Tone {
    Tone::Pause { duration_ms }
}

/// The tones of `set` for a link that came up (`connected`) or went down.
pub open spec fn connection_tones_spec(set: ToneSet, connected: bool) -> Seq<Tone> {
    match (set, connected) {
        (ToneSet::R2d2, true) => seq![
            beep(3000, 50), pause(15), beep(2200, 70), pause(15),
            beep(1600, 90), pause(20), beep(1000, 120),
        ],
        (ToneSet::R2d2, false) => seq![
            beep(2000, 30), pause(10), beep(2600, 40), pause(10),
            beep(3200, 50), pause(15), beep(2400, 60),
        ],
        (ToneSet::Chime, true) => seq![beep(1500, 80), pause(40), beep(2000, 120)],
        (ToneSet::Chime, false) => seq![beep(2000, 80), pause(40), beep(1200, 200)],
    }
}

/// The tones played for a controller event: `split_central` is
/// `Some(connected)` for a change of the link to the central and `None` for
/// any other event, which plays nothing.
pub fn connection_tones(set: ToneSet, split_central: Option<bool>) -> (tones: Vec<Tone>)
    ensures
        tones@ == match split_central {
            Some(connected) => connection_tones_spec(set, connected),
            None => Seq::<Tone>::empty(),
        },
{
    let mut tones: Vec<Tone> = Vec::new();
    match split_central {
        None => {},
        Some(connected) => match set {
            ToneSet::R2d2 => if connected {
                tones.push(Tone::Beep { frequency_hz: 3000, duration_ms: 50 });
                tones.push(Tone::Pause { duration_ms: 15 });
                tones.push(Tone::Beep { frequency_hz: 2200, duration_ms: 70 });
                tones.push(Tone::Pause { duration_ms: 15 });
                tones.push(Tone::Beep { frequency_hz: 1600, duration_ms: 90 });
                tones.push(Tone::Pause { duration_ms: 20 });
                tones.push(Tone::Beep { frequency_hz: 1000, duration_ms: 120 });
            } else {
                tones.push(Tone::Beep { frequency_hz: 2000, duration_ms: 30 });
                tones.push(Tone::Pause { duration_ms: 10 });
                tones.push(Tone::Beep { frequency_hz: 2600, duration_ms: 40 });
                tones.push(Tone::Pause { duration_ms: 10 });
                tones.push(Tone::Beep { frequency_hz: 3200, duration_ms: 50 });
                tones.push(Tone::Pause { duration_ms: 15 });
                tones.push(Tone::Beep { frequency_hz: 2400, duration_ms: 60 });
            },
            ToneSet::Chime => if connected {
                tones.push(Tone::Beep { frequency_hz: 1500, duration_ms: 80 });
                tones.push(Tone::Pause { duration_ms: 40 });
                tones.push(Tone::Beep { frequency_hz: 2000, duration_ms: 120 });
            } else {
                tones.push(Tone::Beep { frequency_hz: 2000, duration_ms: 80 });
                tones.push(Tone::Pause { duration_ms: 40 });
                tones.push(Tone::Beep { frequency_hz: 1200, duration_ms: 200 });
            },
        },
    }
    tones
}

/// How a single beep is produced.
#[derive(Clone, Copy, Debug, PartialEq, Eq)]
pub enum BeepPlan {
    /// A frequency of 0: stay silent for the duration.
    Silence { duration_ms: u64 },
    /// Toggle the pin every `half_period_us` until the clock reaches `end_us`.
    SquareWave { half_period_us: u64, end_us: u64 },
    /// The beep is over.
    Finished,
}

/// Half the period, in microseconds, of a square wave of `frequency_hz`, in
/// the integer arithmetic of the firmware.
pub open spec fn half_period_us(frequency_hz: u32) -> int {
    (1_000_000int / (frequency_hz as int)) / 2
}

/// The plan of a beep of `frequency_hz` for `duration_ms` that starts when the
/// microsecond clock reads `now_us`.
pub open spec fn beep_plan_spec(frequency_hz: u32, duration_ms: u64, now_us: u64) -> BeepPlan {
    if frequency_hz == 0 {
        BeepPlan::Silence { duration_ms }
    } else {
        BeepPlan::SquareWave {
            half_period_us: half_period_us(frequency_hz) as u64,
            end_us: (now_us + duration_ms * 1000) as u64,
        }
    }
}

/// Plans a beep of `frequency_hz` for `duration_ms` starting at `now_us`. The
/// end of a sounding beep must be a time the clock can hold.
pub fn plan_beep(frequency_hz: u32, duration_ms: u64, now_us: u64) -> (plan: BeepPlan)
    requires
        frequency_hz == 0 || now_us + duration_ms * 1000 <= u64::MAX,
    ensures
        plan == beep_plan_spec(frequency_hz, duration_ms, now_us),
        frequency_hz == 0 <==> plan == (BeepPlan::Silence { duration_ms }),
        plan matches BeepPlan::SquareWave { half_period_us: h, end_us: e } ==> {
            &&& 2 * h * frequency_hz <= 1_000_000 < (2 * h + 2) * frequency_hz
            &&& e == now_us + duration_ms * 1000
        },
{
    proof {
        lemma_beep_plan_pitch(frequency_hz, duration_ms, now_us);
    }
    if frequency_hz == 0 {
        BeepPlan::Silence { duration_ms }
    } else {
        let period_us: u64 = 1_000_000u64 / (frequency_hz as u64);
        let half: u64 = period_us / 2;
        BeepPlan::SquareWave { half_period_us: half, end_us: now_us + duration_ms * 1000 }
    }
}

/// What the buzzer driver does next.
#[derive(Clone, Copy, Debug, PartialEq, Eq)]
pub enum BeepAction {
    /// Wait this many milliseconds with the pin untouched.
    WaitMillis(u64),
    /// Drive the pin high, wait `half_period_us`, drive it low, wait again.
    Pulse { half_period_us: u64 },
    /// Drive the pin low; the beep is over.
    Release,
    /// Nothing to do.
    Idle,
}

/// One step of a beep when the microsecond clock reads `now_us`.
pub open spec fn beep_transition(plan: BeepPlan, now_us: u64) -> (BeepPlan, BeepAction) {
    match plan {
        BeepPlan::Silence { duration_ms } => (BeepPlan::Finished, BeepAction::WaitMillis(duration_ms)),
        BeepPlan::SquareWave { half_period_us, end_us } => if now_us < end_us {
            (plan, BeepAction::Pulse { half_period_us })
        } else {
            (BeepPlan::Finished, BeepAction::Release)
        },
        BeepPlan::Finished => (BeepPlan::Finished, BeepAction::Idle),
    }
}

/// Decides the next step of a beep from the current time.
pub fn beep_step(plan: BeepPlan, now_us: u64) -> (r: (BeepPlan, BeepAction))
    ensures
        r == beep_transition(plan, now_us),
{
    match plan {
        BeepPlan::Silence { duration_ms } => (BeepPlan::Finished, BeepAction::WaitMillis(duration_ms)),
        BeepPlan::SquareWave { half_period_us, end_us } => if now_us < end_us {
            (plan, BeepAction::Pulse { half_period_us })
        } else {
            (BeepPlan::Finished, BeepAction::Release)
        },
        BeepPlan::Finished => (BeepPlan::Finished, BeepAction::Idle),
    }
}

/// A sounding beep pulses while the clock is before its end, and it finishes
/// only by driving the pin low; a silent beep waits out its duration once.
pub proof fn lemma_beep_ends_low(plan: BeepPlan, now_us: u64)
    ensures
        ({
            let (next, action) = beep_transition(plan, now_us);
            &&& plan matches BeepPlan::SquareWave { half_period_us, end_us } ==> (
                if now_us < end_us {
                    next == plan && action == (BeepAction::Pulse { half_period_us })
                } else {
                    next == BeepPlan::Finished && action == BeepAction::Release
                })
            &&& plan matches BeepPlan::Silence { duration_ms } ==> next == BeepPlan::Finished
                && action == BeepAction::WaitMillis(duration_ms)
            &&& plan == BeepPlan::Finished ==> next == BeepPlan::Finished && action == BeepAction::Idle
        }),
{
}

/// The tones alternate beeps and pauses, start and end with a beep, and every
/// beep sounds (has a nonzero frequency).
pub open spec fn alternates_beeps_and_pauses(tones: Seq<Tone>) -> bool {
    &&& tones.len() % 2 == 1
    &&& forall|i: int| 0 <= i < tones.len() ==> (#[trigger] tones[i] matches Tone::Beep { frequency_hz, .. }
        ==> i % 2 == 0 && frequency_hz > 0)
    &&& forall|i: int| 0 <= i < tones.len() ==> (#[trigger] tones[i] matches Tone::Pause { .. } ==> i % 2 == 1)
}

/// The frequency of a tone; 0 for a pause.
pub open spec fn tone_frequency(tone: Tone) -> int {
    match tone {
        Tone::Beep { frequency_hz, .. } => frequency_hz as int,
        Tone::Pause { .. } => 0,
    }
}

/// Every beep is higher than the beeps before it.
pub open spec fn rising(tones: Seq<Tone>) -> bool {
    forall|i: int, j: int|
        0 <= i < j < tones.len() && tones[i] is Beep && tones[j] is Beep
            ==> tone_frequency(#[trigger] tones[i]) < tone_frequency(#[trigger] tones[j])
}

/// Every beep is lower than the beeps before it.
pub open spec fn falling(tones: Seq<Tone>) -> bool {
    forall|i: int, j: int|
        0 <= i < j < tones.len() && tones[i] is Beep && tones[j] is Beep
            ==> tone_frequency(#[trigger] tones[i]) > tone_frequency(#[trigger] tones[j])
}

/// Every tone sequence alternates sounding beeps and pauses, beginning and
/// ending with a beep.
pub proof fn lemma_tones_alternate(set: ToneSet, connected: bool)
    ensures
        alternates_beeps_and_pauses(connection_tones_spec(set, connected)),
{
}

/// The chime rises when the link comes up and falls when it goes down; the
/// R2-D2 connect whistle falls throughout.
pub proof fn lemma_tone_direction()
    ensures
        rising(connection_tones_spec(ToneSet::Chime, true)),
        falling(connection_tones_spec(ToneSet::Chime, false)),
        falling(connection_tones_spec(ToneSet::R2d2, true)),
{
}

/// The square wave of a sounding beep has a whole period `2 * h` that never
/// exceeds the requested period `1_000_000 / f` microseconds and falls short
/// of it by less than two microseconds: `2 * h * f <= 1_000_000 < (2 * h + 2) * f`.
pub proof fn lemma_square_wave_period(frequency_hz: u32)
    requires
        frequency_hz > 0,
    ensures
        2 * half_period_us(frequency_hz) * frequency_hz <= 1_000_000,
        1_000_000 < (2 * half_period_us(frequency_hz) + 2) * frequency_hz,
{
    let f = frequency_hz as int;
    let q = 1_000_000int / f;
    let h = q / 2;
    assert(q * f <= 1_000_000 < (q + 1) * f) by (nonlinear_arith)
        requires
            f > 0,
            q == 1_000_000int / f,
    ;
    assert(2 * h <= q < 2 * h + 2);
    assert(2 * h * f <= q * f) by (nonlinear_arith)
        requires
            2 * h <= q,
            f > 0,
    ;
    assert((q + 1) * f <= (2 * h + 2) * f) by (nonlinear_arith)
        requires
            q + 1 <= 2 * h + 2,
            f > 0,
    ;
}

/// A beep of frequency 0 is a silence of the requested duration; any other
/// beep is a square wave whose own half period `h` has the requested pitch
/// within rounding (`2 * h * f <= 1_000_000 < (2 * h + 2) * f`, which fixes
/// `h`) and which ends `duration_ms` milliseconds after it starts.
pub proof fn lemma_beep_plan_pitch(frequency_hz: u32, duration_ms: u64, now_us: u64)
    requires
        frequency_hz == 0 || now_us + duration_ms * 1000 <= u64::MAX,
    ensures
        frequency_hz == 0 <==> beep_plan_spec(frequency_hz, duration_ms, now_us) == (BeepPlan::Silence { duration_ms }),
        beep_plan_spec(frequency_hz, duration_ms, now_us) matches BeepPlan::SquareWave { half_period_us: h, end_us: e } ==> {
            &&& 2 * h * frequency_hz <= 1_000_000 < (2 * h + 2) * frequency_hz
            &&& e == now_us + duration_ms * 1000
        },
{
    if frequency_hz > 0 {
        lemma_square_wave_period(frequency_hz);
        assert(0 <= half_period_us(frequency_hz) <= 500_000) by (nonlinear_arith)
            requires
                frequency_hz > 0,
                half_period_us(frequency_hz) == (1_000_000int / (frequency_hz as int)) / 2;
    }
}

} // verus!
