//! Match timing: the phases of an FTC match and the sound effects played during one.

use vstd::prelude::*;

use std::time::{Duration, Instant};

use crate::clock::{duration_new, duration_of, elapsed_nanos, instant_now};

verus! {

pub const NANOS_PER_SECOND: u128 = 1_000_000_000;

/// Used for match timers and sfx
#[derive(Debug, Clone, Copy, PartialEq, Eq, PartialOrd, Ord)]
pub struct Match {
    /// When we started the match
    pub start: Instant,
}

/// The phases of a match, in the order they happen.
#[derive(Debug, Clone, Copy, PartialEq, Eq, Structural, PartialOrd, Ord)]
pub enum MatchPhase {
    Autonomous,
    Transition,
    Teleop,
    /// After the match has already ended
    Ended,
}

/// How many seconds a phase lasts.
pub open spec fn spec_length_seconds(p: MatchPhase) -> u64 {
    match p {
        MatchPhase::Autonomous => 30,
        MatchPhase::Transition => 8,
        MatchPhase::Teleop => 120,
        MatchPhase::Ended => 0,
    }
}

/// The position of a phase in the match.
pub open spec fn phase_rank(p: MatchPhase) -> int {
    match p {
        MatchPhase::Autonomous => 0,
        MatchPhase::Transition => 1,
        MatchPhase::Teleop => 2,
        MatchPhase::Ended => 3,
    }
}

/// How many nanoseconds after the start a phase ends (for `Ended`, the end of the match).
pub open spec fn phase_end_nanos(p: MatchPhase) -> int {
    match p {
        MatchPhase::Autonomous => 30_000_000_000int,
        MatchPhase::Transition => 38_000_000_000int,
        MatchPhase::Teleop => 158_000_000_000int,
        MatchPhase::Ended => 158_000_000_000int,
    }
}

/// The phase a match is in `elapsed` nanoseconds after its start: a phase runs from the
/// end of the previous one (inclusive) to its own end (exclusive).
pub open spec fn spec_phase_at(elapsed: int) -> MatchPhase {
    if elapsed < phase_end_nanos(MatchPhase::Autonomous) {
        MatchPhase::Autonomous
    } else if elapsed < phase_end_nanos(MatchPhase::Transition) {
        MatchPhase::Transition
    } else if elapsed < phase_end_nanos(MatchPhase::Teleop) {
        MatchPhase::Teleop
    } else {
        MatchPhase::Ended
    }
}

/// Nanoseconds left in the phase a match is in `elapsed` nanoseconds after its start
/// (none once it has ended).
pub open spec fn spec_remaining_at(elapsed: int) -> int {
    let p = spec_phase_at(elapsed);
    if p == MatchPhase::Ended {
        0
    } else {
        phase_end_nanos(p) - elapsed
    }
}

/// The `Duration` of a number of nanoseconds.
pub open spec fn duration_of_nanos(n: int) -> Duration {
    duration_of((n / 1_000_000_000) as u64, (n % 1_000_000_000) as u32)
}

impl MatchPhase {
    /// Returns how many seconds the phase lasts
    pub fn length_seconds(&self) -> (s: u64)
        ensures
            s == spec_length_seconds(*self),
    {
        match *self {
            Self::Autonomous => 30,
            Self::Transition => 8,
            Self::Teleop => 120,
            MatchPhase::Ended => 0,
        }
    }

    /// Returns a strongly-typed length of the phase
    pub fn length(&self) -> (d: Duration)
        ensures
            d == duration_of(spec_length_seconds(*self), 0),
    {
        duration_new(self.length_seconds(), 0)
    }

    /// The phase a match is in `elapsed` nanoseconds after its start.
    pub fn at_elapsed(elapsed: u128) -> (p: MatchPhase)
        ensures
            p == spec_phase_at(elapsed as int),
    {
        let auto_end = (MatchPhase::Autonomous.length_seconds() as u128) * NANOS_PER_SECOND;
        let transition_end = auto_end + (MatchPhase::Transition.length_seconds() as u128)
            * NANOS_PER_SECOND;
        let teleop_end = transition_end + (MatchPhase::Teleop.length_seconds() as u128)
            * NANOS_PER_SECOND;
        if elapsed < auto_end {
            MatchPhase::Autonomous
        } else if elapsed < transition_end {
            MatchPhase::Transition
        } else if elapsed < teleop_end {
            MatchPhase::Teleop
        } else {
            MatchPhase::Ended
        }
    }

    /// Nanoseconds left in the phase a match is in `elapsed` nanoseconds after its start.
    pub fn remaining_at(elapsed: u128) -> (r: u128)
        ensures
            r == spec_remaining_at(elapsed as int),
    {
        match MatchPhase::at_elapsed(elapsed) {
            MatchPhase::Ended => 0,
            MatchPhase::Autonomous => 30 * NANOS_PER_SECOND - elapsed,
            MatchPhase::Transition => 38 * NANOS_PER_SECOND - elapsed,
            MatchPhase::Teleop => 158 * NANOS_PER_SECOND - elapsed,
        }
    }
}

impl Match {
    /// Creates a new match, starting now
    pub fn new() -> (m: Match) {
        Match { start: instant_now() }
    }

    /// Creates a new match from a given start time
    pub fn from_start_time(start_time: Instant) -> (m: Match)
        ensures
            m.start == start_time,
    {
        Match { start: start_time }
    }

    /// Returns the current phase of the match: the phase at some time since the start.
    pub fn phase(&self) -> (p: MatchPhase)
        ensures
            exists|elapsed: u128| p == spec_phase_at(elapsed as int),
    {
        MatchPhase::at_elapsed(elapsed_nanos(&self.start))
    }

    /// Returns how much is left before the end of this phase, the clock being read once.
    pub fn remaining_in_phase(&self) -> (d: Duration)
        ensures
            exists|elapsed: u128| d == duration_of_nanos(spec_remaining_at(elapsed as int)),
    {
        let elapsed = elapsed_nanos(&self.start);
        let remaining = MatchPhase::remaining_at(elapsed);
        duration_new((remaining / NANOS_PER_SECOND) as u64, (remaining % NANOS_PER_SECOND) as u32)
    }

    /// Returns whether the match is already over
    pub fn is_over(&self) -> (over: bool)
        ensures
            exists|elapsed: u128|
                over == (spec_phase_at(elapsed as int) == MatchPhase::Ended),
    {
        self.phase() == MatchPhase::Ended
    }

    /// Returns the full duration of a match: the three phases back to back.
    pub fn length() -> (d: Duration)
        ensures
            d == duration_of(
                (spec_length_seconds(MatchPhase::Autonomous) + spec_length_seconds(
                    MatchPhase::Transition,
                ) + spec_length_seconds(MatchPhase::Teleop)) as u64,
                0,
            ),
    {
        duration_new(
            MatchPhase::Autonomous.length_seconds() + MatchPhase::Transition.length_seconds()
                + MatchPhase::Teleop.length_seconds(),
            0,
        )
    }
}

/// The phases follow each other: a later time is never in an earlier phase.
pub proof fn lemma_phase_monotonic(e1: int, e2: int)
    requires
        e1 <= e2,
    ensures
        phase_rank(spec_phase_at(e1)) <= phase_rank(spec_phase_at(e2)),
{
}

/// Each phase ends when the phases before it and itself have run their lengths, and the
/// time left in the phase plus the time elapsed reaches exactly that end.
pub proof fn lemma_remaining_reaches_phase_end(elapsed: int)
    requires
        0 <= elapsed,
    ensures
        spec_phase_at(elapsed) != MatchPhase::Ended ==> elapsed + spec_remaining_at(elapsed)
            == phase_end_nanos(spec_phase_at(elapsed)),
        spec_phase_at(elapsed) != MatchPhase::Ended ==> 0 < spec_remaining_at(elapsed)
            <= spec_length_seconds(spec_phase_at(elapsed)) * 1_000_000_000,
        phase_end_nanos(MatchPhase::Autonomous) == spec_length_seconds(MatchPhase::Autonomous)
            * 1_000_000_000,
        phase_end_nanos(MatchPhase::Transition) == phase_end_nanos(MatchPhase::Autonomous)
            + spec_length_seconds(MatchPhase::Transition) * 1_000_000_000,
        phase_end_nanos(MatchPhase::Teleop) == phase_end_nanos(MatchPhase::Transition)
            + spec_length_seconds(MatchPhase::Teleop) * 1_000_000_000,
{
}

/// Counted in whole seconds since the start, a match is in autonomous for its first 30
/// seconds, in the transition for the next 8, under driver control for the next 120, and
/// over after that; the phase changes only on a whole second.
pub proof fn lemma_phase_by_seconds(secs: int, nanos: int)
    requires
        0 <= secs,
        0 <= nanos < 1_000_000_000,
    ensures
        spec_phase_at(secs * 1_000_000_000 + nanos) == (if secs < 30 {
            MatchPhase::Autonomous
        } else if secs < 38 {
            MatchPhase::Transition
        } else if secs < 158 {
            MatchPhase::Teleop
        } else {
            MatchPhase::Ended
        }),
{
}

/// Sound effects played during a match
#[derive(Debug, Clone, Copy, PartialEq, Eq, Structural, PartialOrd, Ord)]
pub enum MatchSFX {
    MatchStart01,
    Drivers02,
    Countdown03,
    TeleopStart04,
    Endgame05,
    End06,
    Abortmatch,
}

impl MatchSFX {
    /// Returns a filename for this sfx, under which it is written to the temporary folder
    pub fn file_name(&self) -> (name: &'static str)
        ensures
            name@ == spec_sfx_file_name(*self)@,
    {
        match self {
            MatchSFX::MatchStart01 => "ftctui_01.wav",
            MatchSFX::Drivers02 => "ftctui_02.wav",
            MatchSFX::Countdown03 => "ftctui_03.wav",
            MatchSFX::TeleopStart04 => "ftctui_04.wav",
            MatchSFX::Endgame05 => "ftctui_05.wav",
            MatchSFX::End06 => "ftctui_06.wav",
            MatchSFX::Abortmatch => "ftctui_abort.wav",
        }
    }
}

/// The file name of each sound effect.
pub open spec fn spec_sfx_file_name(s: MatchSFX) -> &'static str {
    match s {
        MatchSFX::MatchStart01 => "ftctui_01.wav",
        MatchSFX::Drivers02 => "ftctui_02.wav",
        MatchSFX::Countdown03 => "ftctui_03.wav",
        MatchSFX::TeleopStart04 => "ftctui_04.wav",
        MatchSFX::Endgame05 => "ftctui_05.wav",
        MatchSFX::End06 => "ftctui_06.wav",
        MatchSFX::Abortmatch => "ftctui_abort.wav",
    }
}

/// When each cue of a match is played, in seconds after its start, in order: the start
/// at once, the call to the drivers when autonomous ends, the countdown three seconds
/// before driver control, driver control's start, the endgame thirty seconds before the
/// end, and the end.
pub open spec fn spec_sfx_schedule() -> Seq<(u64, MatchSFX)> {
    let auto = spec_length_seconds(MatchPhase::Autonomous);
    let transition = spec_length_seconds(MatchPhase::Transition);
    let teleop = spec_length_seconds(MatchPhase::Teleop);
    seq![
        (0u64, MatchSFX::MatchStart01),
        (auto, MatchSFX::Drivers02),
        ((auto + transition - 3) as u64, MatchSFX::Countdown03),
        ((auto + transition) as u64, MatchSFX::TeleopStart04),
        ((auto + transition + teleop - 30) as u64, MatchSFX::Endgame05),
        ((auto + transition + teleop) as u64, MatchSFX::End06),
    ]
}

/// The cues of a match and when each is played, in seconds after its start.
pub fn sfx_schedule() -> (schedule: Vec<(u64, MatchSFX)>)
    ensures
        schedule@ == spec_sfx_schedule(),
{
    let auto = MatchPhase::Autonomous.length_seconds();
    let transition = MatchPhase::Transition.length_seconds();
    let teleop = MatchPhase::Teleop.length_seconds();
    let mut schedule: Vec<(u64, MatchSFX)> = Vec::new();
    schedule.push((0, MatchSFX::MatchStart01));
    schedule.push((auto, MatchSFX::Drivers02));
    schedule.push((auto + transition - 3, MatchSFX::Countdown03));
    schedule.push((auto + transition, MatchSFX::TeleopStart04));
    schedule.push((auto + transition + teleop - 30, MatchSFX::Endgame05));
    schedule.push((auto + transition + teleop, MatchSFX::End06));
    assert(schedule@ =~= spec_sfx_schedule());
    schedule
}

} // verus!
