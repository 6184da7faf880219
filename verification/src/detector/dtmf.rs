//! Detection of dual-tone multi-frequency digits.
//!
//! The powers of the eight tones are measured elsewhere, over windows of
//! samples, and are handed over in hundredths of a decibel relative to the
//! digital milliwatt. What is decided here is when the windows end, whether
//! the powers of a window make a digit, and when a digit begins.

use vstd::prelude::*;
use crate::detector::DetectionEvent;

verus! {

/// A power level in hundredths of a decibel (dBm0).
pub type Level = i32;

/// Number of samples in a window of the low tones.
pub const WINDOW_LOW: usize = 212;

/// Number of samples in a window of the high tones.
pub const WINDOW_HIGH: usize = 106;

/// Lowest power at which a tone counts: -25 dBm0.
pub const LEVEL_MIN: Level = -2500;

/// Highest power at which a tone counts: 0 dBm0.
pub const LEVEL_MAX: Level = 0;

/// By how much the strongest tone of a group must exceed the next: 10 dB.
pub const MARGIN_MIN: i64 = 1000;

/// Lowest twist, high group over low group: -8 dB.
pub const TWIST_MIN: i64 = -800;

/// Highest twist, high group over low group: +4 dB.
pub const TWIST_MAX: i64 = 400;

/// The keys of the dial: rows by low tone (697, 770, 852, 941 Hz), columns
/// by high tone (1209, 1336, 1477, 1633 Hz).
pub const KEY_MAP: [[char; 4]; 4] = [
    ['1', '2', '3', 'A'],
    ['4', '5', '6', 'B'],
    ['7', '8', '9', 'C'],
    ['*', '0', '#', 'D'],
];

/// The key at `row` and `column` of the dial.
pub open spec fn key_at(row: int, column: int) -> char {
    if row == 0 {
        if column == 0 {
            '1'
        } else if column == 1 {
            '2'
        } else if column == 2 {
            '3'
        } else {
            'A'
        }
    } else if row == 1 {
        if column == 0 {
            '4'
        } else if column == 1 {
            '5'
        } else if column == 2 {
            '6'
        } else {
            'B'
        }
    } else if row == 2 {
        if column == 0 {
            '7'
        } else if column == 1 {
            '8'
        } else if column == 2 {
            '9'
        } else {
            'C'
        }
    } else {
        if column == 0 {
            '*'
        } else if column == 1 {
            '0'
        } else if column == 2 {
            '#'
        } else {
            'D'
        }
    }
}

/// Index of the strongest of four tones: of equally strong ones, the first.
pub open spec fn strongest(powers: [Level; 4]) -> int {
    let best_01 = if powers[1] > powers[0] { 1int } else { 0int };
    let best_012 = if powers[2] > powers[best_01] { 2int } else { best_01 };
    if powers[3] > powers[best_012] {
        3int
    } else {
        best_012
    }
}

/// The larger of two levels.
pub open spec fn higher(a: Level, b: Level) -> Level {
    if a >= b {
        a
    } else {
        b
    }
}

/// The power of the strongest of the tones other than the strongest.
pub open spec fn runner_up(powers: [Level; 4]) -> Level {
    let best = strongest(powers);
    if best == 0 {
        higher(powers[1], higher(powers[2], powers[3]))
    } else if best == 1 {
        higher(powers[0], higher(powers[2], powers[3]))
    } else if best == 2 {
        higher(powers[0], higher(powers[1], powers[3]))
    } else {
        higher(powers[0], higher(powers[1], powers[2]))
    }
}

/// One tone of the group stands out: its power lies between -25 and
/// 0 dBm0, and no other tone comes nearer to it than 10 dB.
pub open spec fn stands_out(powers: [Level; 4]) -> bool {
    let peak = powers[strongest(powers)];
    LEVEL_MIN <= peak <= LEVEL_MAX && peak - runner_up(powers) >= MARGIN_MIN
}

/// The twist, high group over low group, is within -8 and +4 dB.
pub open spec fn twist_is_acceptable(low_powers: [Level; 4], high_powers: [Level; 4]) -> bool {
    let twist = high_powers[strongest(high_powers)] - low_powers[strongest(low_powers)];
    TWIST_MIN <= twist <= TWIST_MAX
}

/// The digit that the powers of one window make, if they make one.
pub open spec fn detected_key(low_powers: [Level; 4], high_powers: [Level; 4]) -> Option<char> {
    if stands_out(low_powers) && stands_out(high_powers) && twist_is_acceptable(low_powers, high_powers) {
        Some(key_at(strongest(low_powers), strongest(high_powers)))
    } else {
        None
    }
}

/// The larger of two levels.
fn higher_of(a: Level, b: Level) -> (level: Level)
    ensures
        level == higher(a, b),
{
    if a >= b {
        a
    } else {
        b
    }
}

/// Finds the strongest of four tones, its power, and the power of the next
/// strongest.
fn rank(powers: &[Level; 4]) -> (ranking: (usize, Level, Level))
    ensures
        ranking.0 == strongest(*powers),
        ranking.1 == powers[strongest(*powers)],
        ranking.2 == runner_up(*powers),
{
    let mut best: usize = 0;
    if powers[1] > powers[best] {
        best = 1;
    }
    if powers[2] > powers[best] {
        best = 2;
    }
    if powers[3] > powers[best] {
        best = 3;
    }
    let second = if best == 0 {
        higher_of(powers[1], higher_of(powers[2], powers[3]))
    } else if best == 1 {
        higher_of(powers[0], higher_of(powers[2], powers[3]))
    } else if best == 2 {
        higher_of(powers[0], higher_of(powers[1], powers[3]))
    } else {
        higher_of(powers[0], higher_of(powers[1], powers[2]))
    };
    (best, powers[best], second)
}

/// The key at `row` and `column` of the dial.
pub fn key(row: usize, column: usize) -> (key: char)
    requires
        row < 4,
        column < 4,
    ensures
        key == key_at(row as int, column as int),
{
    KEY_MAP[row][column]
}

/// Decides whether the powers of one window make a digit, and which: the
/// strongest tone of each group must stand out, and the two must not differ
/// too much in power.
pub fn detect(low_powers: &[Level; 4], high_powers: &[Level; 4]) -> (detection: Option<char>)
    ensures
        detection == detected_key(*low_powers, *high_powers),
{
    let (power_low_index, power_low_max, power_low_next) = rank(low_powers);
    let detect_low = LEVEL_MIN <= power_low_max && power_low_max <= LEVEL_MAX;
    if !detect_low {
        return None;
    }
    let powers_low_diff = power_low_max as i64 - power_low_next as i64;
    if powers_low_diff < MARGIN_MIN {
        return None;
    }
    let (power_high_index, power_high_max, power_high_next) = rank(high_powers);
    let detect_high = LEVEL_MIN <= power_high_max && power_high_max <= LEVEL_MAX;
    if !detect_high {
        return None;
    }
    let powers_high_diff = power_high_max as i64 - power_high_next as i64;
    if powers_high_diff < MARGIN_MIN {
        return None;
    }
    let twist = power_high_max as i64 - power_low_max as i64;
    let twist_ok = TWIST_MIN <= twist && twist <= TWIST_MAX;
    if !twist_ok {
        return None;
    }
    Some(key(power_low_index, power_high_index))
}

/// A tone at exactly -25 dBm0 counts: with such a tone in each group, and
/// every other tone at least 10 dB below, the digit is detected. A tone a
/// hundredth of a decibel weaker does not count, whatever the rest is.
pub proof fn lemma_lowest_level_that_counts(low_powers: [Level; 4], high_powers: [Level; 4])
    ensures
        low_powers[strongest(low_powers)] == LEVEL_MIN && high_powers[strongest(high_powers)] == LEVEL_MIN
            && runner_up(low_powers) <= LEVEL_MIN - MARGIN_MIN && runner_up(high_powers) <= LEVEL_MIN
            - MARGIN_MIN ==> detected_key(low_powers, high_powers) == Some(
            key_at(strongest(low_powers), strongest(high_powers)),
        ),
        low_powers[strongest(low_powers)] <= LEVEL_MIN - 1 ==> detected_key(low_powers, high_powers) is None,
        high_powers[strongest(high_powers)] <= LEVEL_MIN - 1 ==> detected_key(low_powers, high_powers) is None,
{
}

/// Counts the samples of one window after the other. The tones of a group
/// are measured over the same window.
#[derive(Copy, Clone, Debug)]
pub struct DetectorGroup {
    n: usize,
    iteration: usize,
}

impl DetectorGroup {
    /// A group with windows of `n` samples, of which `initial_iteration`
    /// are taken as passed already.
    pub fn new(n: usize, initial_iteration: usize) -> (group: Self)
        requires
            initial_iteration < n,
        ensures
            group.window() == n,
            group.position() == initial_iteration,
    {
        Self { n, iteration: initial_iteration }
    }

    #[verifier::type_invariant]
    spec fn within_window(&self) -> bool {
        self.iteration < self.n
    }

    /// Number of samples in a window.
    pub closed spec fn window(&self) -> usize {
        self.n
    }

    /// Number of samples of the current window that have passed.
    pub closed spec fn position(&self) -> usize {
        self.iteration
    }

    /// One more sample has passed. Returns whether it was the last of its
    /// window.
    pub fn iterate(&mut self) -> (complete: bool)
        ensures
            final(self).window() == old(self).window(),
            old(self).position() < old(self).window(),
            complete == (old(self).position() + 1 == old(self).window()),
            final(self).position() == if complete {
                0
            } else {
                old(self).position() + 1
            },
    {
        proof {
            use_type_invariant(&*self);
        }
        let next = self.iteration + 1;
        if next == self.n {
            self.iteration = 0;
            true
        } else {
            self.iteration = next;
            false
        }
    }
}

/// Where the detection of a digit stands.
#[derive(Copy, Clone, Debug, PartialEq, Eq, Structural)]
pub enum DetectionState {
    /// Nothing heard.
    S0,
    /// Not entered by any window; kept for the shape of the machine.
    S1,
    /// The same digit in two windows: one more and it begins.
    S2,
    /// A digit has begun, or what was heard did not last: waiting for
    /// silence.
    S3,
}

/// The last two windows made a digit, the same one.
pub open spec fn same_digit(last_detection: Option<char>, detection: Option<char>) -> bool {
    detection is Some && last_detection == detection
}

/// The last two windows made no digit.
pub open spec fn is_pause(last_detection: Option<char>, detection: Option<char>) -> bool {
    detection is None && last_detection is None
}

/// The state after a window.
pub open spec fn next_state(
    state: DetectionState,
    last_detection: Option<char>,
    detection: Option<char>,
) -> DetectionState {
    let same = same_digit(last_detection, detection);
    let pause = is_pause(last_detection, detection);
    match state {
        DetectionState::S0 => if same {
            DetectionState::S2
        } else {
            DetectionState::S0
        },
        DetectionState::S1 => if same {
            DetectionState::S3
        } else {
            DetectionState::S0
        },
        DetectionState::S2 => if pause {
            DetectionState::S0
        } else {
            DetectionState::S3
        },
        DetectionState::S3 => if pause {
            DetectionState::S0
        } else {
            DetectionState::S3
        },
    }
}

/// A digit begins with this window.
pub open spec fn tone_begins(state: DetectionState, last_detection: Option<char>, detection: Option<char>) -> bool {
    (state == DetectionState::S1 || state == DetectionState::S2) && same_digit(last_detection, detection)
}

/// Lets the beginning of a digit through once: after the same digit was
/// found in three windows in a row, and not again before two windows in a
/// row were silent.
#[derive(Copy, Clone, Debug)]
pub struct DetectionStateMachine {
    pub state: DetectionState,
    pub last_detection: Option<char>,
}

impl DetectionStateMachine {
    pub fn new() -> (machine: Self)
        ensures
            machine.state == DetectionState::S0,
            machine.last_detection is None,
    {
        Self { state: DetectionState::S0, last_detection: None }
    }

    /// Takes in what one window made. Returns the digit if it begins with
    /// this window.
    pub fn feed(&mut self, detection: Option<char>) -> (event: Option<DetectionEvent>)
        ensures
            final(self).state == next_state(old(self).state, old(self).last_detection, detection),
            final(self).last_detection == detection,
            event == if tone_begins(old(self).state, old(self).last_detection, detection) {
                Some(DetectionEvent::DtmfDigit(detection->0))
            } else {
                None
            },
    {
        // Ideas borrowed from:
        // https://users.ece.utexas.edu/~bevans/papers/1998/dtmf/dtmf.pdf
        let same = match (detection, self.last_detection) {
            (Some(now), Some(before)) => now == before,
            _ => false,
        };
        let pause = detection.is_none() && self.last_detection.is_none();

        let (new_state, new_tone) = match self.state {
            DetectionState::S0 => {
                if same {
                    (DetectionState::S2, false)
                } else {
                    (DetectionState::S0, false)
                }
            },
            DetectionState::S1 => {
                if same {
                    (DetectionState::S3, true)
                } else {
                    (DetectionState::S0, false)
                }
            },
            DetectionState::S2 => {
                if pause {
                    (DetectionState::S0, false)
                } else if same {
                    (DetectionState::S3, true)
                } else {
                    (DetectionState::S3, false)
                }
            },
            DetectionState::S3 => {
                if pause {
                    (DetectionState::S0, false)
                } else {
                    (DetectionState::S3, false)
                }
            },
        };
        self.state = new_state;
        self.last_detection = detection;

        match (new_tone, detection) {
            (true, Some(digit)) => Some(DetectionEvent::DtmfDigit(digit)),
            _ => None,
        }
    }
}

/// A digit begins only when the machine has heard it twice before, and then
/// the machine waits: no digit begins from the waiting state, which is left
/// only by a pause, and after a pause it takes two more windows with the
/// same digit before a digit can begin again.
pub proof fn lemma_digit_begins_once(
    state: DetectionState,
    last_detection: Option<char>,
    detection: Option<char>,
    following: Option<char>,
)
    ensures
        tone_begins(state, last_detection, detection) ==> next_state(state, last_detection, detection)
            == DetectionState::S3,
        !tone_begins(DetectionState::S3, last_detection, detection),
        !tone_begins(DetectionState::S0, last_detection, detection),
        next_state(DetectionState::S3, last_detection, detection) != DetectionState::S3 ==> is_pause(
            last_detection,
            detection,
        ),
        is_pause(last_detection, detection) ==> next_state(state, last_detection, detection)
            == DetectionState::S0 && !tone_begins(
            next_state(state, last_detection, detection),
            detection,
            following,
        ),
{
}

/// Which windows end with a sample.
#[derive(Copy, Clone, Debug, PartialEq, Eq, Structural)]
pub struct WindowsDue {
    /// The group of low tones whose window ends, if one does.
    pub low: Option<usize>,
    /// Whether the window of the high tones ends.
    pub high: bool,
}

/// The detector of one timeslot: two groups for the low tones, half a
/// window apart to tell better when a tone begins, one group for the high
/// tones with windows half as long, and the machine that lets a digit begin.
pub struct Detector {
    tones_low: [DetectorGroup; 2],
    tones_high: DetectorGroup,
    state_machine: DetectionStateMachine,
}

impl Detector {
    pub fn new() -> (detector: Self)
        ensures
            detector.phase() == 0,
            detector.machine().state == DetectionState::S0,
            detector.machine().last_detection is None,
    {
        Self {
            tones_low: [DetectorGroup::new(WINDOW_LOW, 0), DetectorGroup::new(WINDOW_LOW, WINDOW_HIGH)],
            tones_high: DetectorGroup::new(WINDOW_HIGH, 0),
            state_machine: DetectionStateMachine::new(),
        }
    }

    #[verifier::type_invariant]
    spec fn in_step(&self) -> bool {
        &&& self.tones_low[0].window() == WINDOW_LOW
        &&& self.tones_low[1].window() == WINDOW_LOW
        &&& self.tones_high.window() == WINDOW_HIGH
        &&& self.tones_low[0].position() < WINDOW_LOW
        &&& self.tones_low[1].position() == (self.tones_low[0].position() + WINDOW_HIGH) % (WINDOW_LOW as int)
        &&& self.tones_high.position() == (self.tones_low[0].position() as int) % (WINDOW_HIGH as int)
    }

    /// Number of samples taken in since the first group of low tones began
    /// its window.
    pub closed spec fn phase(&self) -> usize {
        self.tones_low[0].position()
    }

    /// The machine that lets a digit begin.
    pub closed spec fn machine(&self) -> DetectionStateMachine {
        self.state_machine
    }

    /// One more sample has passed. Tells which windows end with it. When
    /// the window of the high tones ends, the window of one group of low
    /// tones ends with it, in turn the second group's and the first's.
    pub fn advance(&mut self) -> (due: WindowsDue)
        ensures
            final(self).machine() == old(self).machine(),
            old(self).phase() < WINDOW_LOW,
            final(self).phase() == (old(self).phase() + 1) % (WINDOW_LOW as int),
            due.high == ((old(self).phase() + 1) % (WINDOW_HIGH as int) == 0),
            due.low == if old(self).phase() + 1 == WINDOW_LOW {
                Some(0usize)
            } else if old(self).phase() + 1 == WINDOW_HIGH {
                Some(1usize)
            } else {
                None
            },
            due.high == due.low is Some,
    {
        proof {
            use_type_invariant(&*self);
        }
        let mut first = self.tones_low[0];
        let mut second = self.tones_low[1];
        let mut high_group = self.tones_high;
        let first_due = first.iterate();
        let second_due = second.iterate();
        let high = high_group.iterate();
        *self = Detector {
            tones_low: [first, second],
            tones_high: high_group,
            state_machine: self.state_machine,
        };
        let low = if first_due {
            Some(0)
        } else if second_due {
            Some(1)
        } else {
            None
        };
        WindowsDue { low, high }
    }

    /// Takes in the powers that were measured over the windows that have
    /// just ended. Returns the digit if it begins with this window.
    pub fn window(&mut self, low_powers: &[Level; 4], high_powers: &[Level; 4]) -> (event: Option<DetectionEvent>)
        ensures
            final(self).phase() == old(self).phase(),
            final(self).machine().state == next_state(
                old(self).machine().state,
                old(self).machine().last_detection,
                detected_key(*low_powers, *high_powers),
            ),
            final(self).machine().last_detection == detected_key(*low_powers, *high_powers),
            event == if tone_begins(
                old(self).machine().state,
                old(self).machine().last_detection,
                detected_key(*low_powers, *high_powers),
            ) {
                Some(DetectionEvent::DtmfDigit(detected_key(*low_powers, *high_powers)->0))
            } else {
                None
            },
    {
        proof {
            use_type_invariant(&*self);
        }
        let detection = detect(low_powers, high_powers);
        let mut machine = self.state_machine;
        let event = machine.feed(detection);
        self.state_machine = machine;
        event
    }
}

} // verus!
