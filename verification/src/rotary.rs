//! Debouncing of the rotary encoder: a step is reported only after the
//! encoder has read the same direction a few times in a row.
use vstd::prelude::*;

use crate::global::RotaryEvent;

verus! {

/// One reading of the rotary encoder.
#[derive(Debug, Clone, Copy, PartialEq, Eq, Structural)]
pub enum Direction {
    NoTurn,
    Clockwise,
    CounterClockwise,
}

/// Readings in the same direction needed for one reported step.
pub const DEBOUNCE_THRESHOLD: u8 = 3;

/// The event reported for a turning direction.
pub open spec fn event_of(d: Direction) -> RotaryEvent {
    match d {
        Direction::Clockwise => RotaryEvent::Clockwise,
        Direction::CounterClockwise => RotaryEvent::CounterClockwise,
        Direction::NoTurn => RotaryEvent::NoTurn,
    }
}

/// The debouncer's state: the last turning direction read and how many
/// readings in a row went that way since the last report.
pub open spec fn debounce_step(last: Direction, count: nat, d: Direction) -> (
    Direction,
    nat,
    Option<RotaryEvent>,
) {
    if d is NoTurn {
        (last, count, None)
    } else {
        let c = if last != d { 1nat } else { count + 1 };
        if c >= DEBOUNCE_THRESHOLD { (d, 0nat, Some(event_of(d))) } else { (d, c, None) }
    }
}

/// Debounces the readings of the rotary encoder.
pub struct RotaryDebouncer {
    last_direction: Direction,
    debounce_count: u8,
}

impl View for RotaryDebouncer {
    type V = (Direction, nat);

    closed spec fn view(&self) -> (Direction, nat) {
        (self.last_direction, self.debounce_count as nat)
    }
}

impl RotaryDebouncer {
    /// The count of readings is always below the threshold between readings.
    #[verifier::type_invariant]
    spec fn count_below_threshold(self) -> bool {
        self.debounce_count < DEBOUNCE_THRESHOLD
    }

    /// No direction read yet.
    pub fn new() -> (d: Self)
        ensures
            d@ == (Direction::NoTurn, 0nat),
    {
        RotaryDebouncer { last_direction: Direction::NoTurn, debounce_count: 0 }
    }

    /// Takes one reading; gives the step to report, if any.
    pub fn update(&mut self, d: Direction) -> (ev: Option<RotaryEvent>)
        ensures
            (final(self)@.0, final(self)@.1, ev) == debounce_step(old(self)@.0, old(self)@.1, d),
            final(self)@.1 < DEBOUNCE_THRESHOLD,
    {
        proof {
            use_type_invariant(&*self);
        }
        match d {
            Direction::NoTurn => None,
            _ => {
                let mut count = self.debounce_count;
                if self.last_direction != d {
                    count = 0;
                }
                count = count + 1;
                if count >= DEBOUNCE_THRESHOLD {
                    self.last_direction = d;
                    self.debounce_count = 0;
                    match d {
                        Direction::Clockwise => Some(RotaryEvent::Clockwise),
                        _ => Some(RotaryEvent::CounterClockwise),
                    }
                } else {
                    self.last_direction = d;
                    self.debounce_count = count;
                    None
                }
            },
        }
    }
}

/// Readings with no turn change nothing; after a change of direction (or a
/// report), three readings in one direction report exactly one step, on the
/// third, and leave the count at zero.
pub proof fn lemma_three_readings_one_step(last: Direction, count: nat, d: Direction)
    requires
        !(d is NoTurn),
        last != d || count == 0,
    ensures
        debounce_step(last, count, Direction::NoTurn) == (last, count, None::<RotaryEvent>),
        ({
            let (l1, c1, e1) = debounce_step(last, count, d);
            let (l2, c2, e2) = debounce_step(l1, c1, d);
            let (l3, c3, e3) = debounce_step(l2, c2, d);
            &&& e1 is None
            &&& e2 is None
            &&& e3 == Some(event_of(d))
            &&& l3 == d
            &&& c3 == 0
        }),
{
}

/// The debouncer's state and last report after a run of readings, starting
/// from a fresh debouncer.
pub open spec fn debounce_run(reads: Seq<Direction>) -> (Direction, nat, Option<RotaryEvent>)
    decreases reads.len(),
{
    if reads.len() == 0 {
        (Direction::NoTurn, 0nat, None)
    } else {
        let (l, c, _e) = debounce_run(reads.drop_last());
        debounce_step(l, c, reads.last())
    }
}

/// Readings in direction `d` since the last reading the other way (or the
/// start), readings without a turn neither counted nor breaking the streak.
pub open spec fn streak(reads: Seq<Direction>, d: Direction) -> nat
    decreases reads.len(),
{
    if reads.len() == 0 {
        0
    } else if reads.last() == d {
        streak(reads.drop_last(), d) + 1
    } else if reads.last() is NoTurn {
        streak(reads.drop_last(), d)
    } else {
        0
    }
}

/// What a run of readings leaves in the debouncer: the last turning
/// direction read, and the streak in that direction modulo the threshold.
proof fn lemma_debounce_run_state(reads: Seq<Direction>)
    ensures
        ({
            let (l, c, _e) = debounce_run(reads);
            &&& l is NoTurn ==> c == 0 && streak(reads, Direction::Clockwise) == 0 && streak(
                reads,
                Direction::CounterClockwise,
            ) == 0
            &&& !(l is NoTurn) ==> c == streak(reads, l) % 3
            &&& l is Clockwise ==> streak(reads, Direction::CounterClockwise) == 0
            &&& l is CounterClockwise ==> streak(reads, Direction::Clockwise) == 0
        }),
    decreases reads.len(),
{
    if reads.len() > 0 {
        lemma_debounce_run_state(reads.drop_last());
    }
}

/// Over any run of readings from a fresh debouncer, a step is reported on a
/// reading exactly when that reading turns in some direction and the number
/// of readings in that direction since the last reading the other way (no-
/// turn readings neither counting nor resetting) is a multiple of three; the
/// step reported is that direction.
pub proof fn lemma_debounce_run(reads: Seq<Direction>)
    requires
        reads.len() > 0,
    ensures
        debounce_run(reads).2 == if !(reads.last() is NoTurn) && streak(reads, reads.last()) % 3 == 0 {
            Some(event_of(reads.last()))
        } else {
            None
        },
        !(reads.last() is NoTurn) ==> streak(reads, reads.last()) > 0,
{
    lemma_debounce_run_state(reads.drop_last());
}

} // verus!
