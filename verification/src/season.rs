//! The season driver: the simulated day, and how it moves on.
//!
//! The driver owns the schedule of a season and the simulated day. Before the
//! season has begun there is no simulated day. Each step moves the day on to
//! the next day of the schedule on which a fixture is played, whatever the
//! order of the schedule's items; the day never moves back. When no later
//! match day is left the season is over, and the day stays where it is.
//!
//! What happens on a match day (the ticks of the clubs, then the matches) is
//! for whoever drives the season: the driver says which day it is and which
//! fixtures are played on it.

use crate::date::Date;
use crate::fixture_laws::{
    lemma_fixture_count, lemma_number_of_place, lemma_single_fixture, round_of,
};
use crate::round_robin::{pairs_per_round, rounds};
use crate::schedule::{
    on_date, referents, single_round_robin, Schedule, ScheduleItem, DAYS_BETWEEN_ROUNDS,
};
use vstd::prelude::*;

verus! {

/// The driver of one season.
#[derive(Debug)]
pub struct SeasonDriver {
    pub schedule: Schedule,
    /// The simulated day; `None` while the season has not begun.
    pub current: Option<Date>,
}

/// The day number of the simulated day, where there is one.
pub open spec fn day_of(current: Option<Date>) -> Option<int> {
    match current {
        Some(date) => Some(date@),
        None => None,
    }
}

/// Whether the day `day` lies after the simulated day `after`. Every day lies
/// after the time before the season.
pub open spec fn is_after(after: Option<int>, day: int) -> bool {
    match after {
        Some(reached) => reached < day,
        None => true,
    }
}

/// Whether `day` is the first day after `after` on which one of `items` is
/// played.
pub open spec fn is_next_match_day(items: Seq<ScheduleItem>, after: Option<int>, day: int) -> bool {
    &&& is_after(after, day)
    &&& exists|k: int| 0 <= k < items.len() && (#[trigger] items[k]).date@ == day
    &&& forall|k: int|
        0 <= k < items.len() && is_after(after, (#[trigger] items[k]).date@) ==> day
            <= items[k].date@
}

/// Whether none of `items` is played after `after`.
pub open spec fn is_over(items: Seq<ScheduleItem>, after: Option<int>) -> bool {
    forall|k: int| 0 <= k < items.len() ==> !is_after(after, (#[trigger] items[k]).date@)
}

impl SeasonDriver {
    /// The driver of the season `schedule`, before its first day.
    pub fn new(schedule: Schedule) -> (r: SeasonDriver)
        ensures
            r.schedule == schedule,
            r.current.is_none(),
    {
        SeasonDriver { schedule, current: None }
    }

    /// Moves the simulated day on to the next match day and returns it, or
    /// returns `None` and leaves the day where it is when the season is over.
    /// The schedule stays as it is.
    pub fn advance(&mut self) -> (r: Option<Date>)
        ensures
            final(self).schedule == old(self).schedule,
            match r {
                Some(day) => {
                    &&& final(self).current == Some(day)
                    &&& is_next_match_day(
                        old(self).schedule.items@,
                        day_of(old(self).current),
                        day@,
                    )
                },
                None => {
                    &&& final(self).current == old(self).current
                    &&& is_over(old(self).schedule.items@, day_of(old(self).current))
                },
            },
    {
        let ghost after = day_of(self.current);
        let mut next: Option<Date> = None;
        let mut i: usize = 0;
        while i < self.schedule.items.len()
            invariant
                i <= self.schedule.items.len(),
                self.schedule == old(self).schedule,
                self.current == old(self).current,
                after == day_of(self.current),
                match next {
                    Some(day) => is_next_match_day(self.schedule.items@.take(i as int), after, day@),
                    None => is_over(self.schedule.items@.take(i as int), after),
                },
            decreases self.schedule.items.len() - i,
        {
            let date: Date = self.schedule.items[i].date;
            let later: bool = match self.current {
                Some(reached) => reached.day_number() < date.day_number(),
                None => true,
            };
            let earlier: bool = match next {
                Some(day) => date.day_number() < day.day_number(),
                None => true,
            };
            proof {
                let items = self.schedule.items@;
                let seen = items.take(i as int);
                let more = items.take(i + 1);
                assert(more[i as int] == items[i as int]);
                assert forall|k: int| 0 <= k < i implies more[k] == seen[k] by {}
                if later && earlier {
                    assert(more[i as int].date@ == date@);
                } else if next.is_some() {
                    let k = choose|k: int|
                        0 <= k < seen.len() && (#[trigger] seen[k]).date@ == next.unwrap()@;
                    assert(more[k].date@ == next.unwrap()@);
                }
            }
            if later && earlier {
                next = Some(date);
            }
            i += 1;
        }
        assert(self.schedule.items@.take(i as int) =~= self.schedule.items@);
        match next {
            Some(day) => {
                self.current = Some(day);
            },
            None => {},
        }
        next
    }

    /// The fixtures that are played on the simulated day, in the order of the
    /// schedule; none before the season has begun.
    pub fn matches_today(&self) -> (r: Vec<&ScheduleItem>)
        ensures
            referents(r@) == match self.current {
                Some(day) => self.schedule.items@.filter(on_date(day@)),
                None => Seq::<ScheduleItem>::empty(),
            },
    {
        match self.current {
            Some(day) => self.schedule.get_matches(day),
            None => {
                let nothing: Vec<&ScheduleItem> = Vec::new();
                assert(referents(nothing@) =~= Seq::<ScheduleItem>::empty());
                nothing
            },
        }
    }
}

/// A single round robin is played week by week: its first match day is the
/// day it starts on, the match day after each round but the last is a week
/// later, and after the last round the season is over.
pub proof fn lemma_season_runs_week_by_week(
    schedule: Schedule,
    ids: Seq<u32>,
    start: int,
    round: int,
)
    requires
        2 <= ids.len(),
        schedule@ == single_round_robin(ids, start),
        0 <= round < rounds(ids.len() as int),
    ensures
        is_next_match_day(schedule.items@, None, start),
        round + 1 < rounds(ids.len() as int) ==> is_next_match_day(
            schedule.items@,
            Some(start + DAYS_BETWEEN_ROUNDS * round),
            start + DAYS_BETWEEN_ROUNDS * (round + 1),
        ),
        is_over(
            schedule.items@,
            Some(start + DAYS_BETWEEN_ROUNDS * (rounds(ids.len() as int) - 1)),
        ),
{
    let n = ids.len() as int;
    let items = schedule.items@;
    lemma_fixture_count(ids, start);
    assert(items.len() == schedule@.len());
    assert forall|k: int| 0 <= k < items.len() implies (#[trigger] items[k]).date@ == start
        + DAYS_BETWEEN_ROUNDS * round_of(n, k) && 0 <= round_of(n, k) < rounds(n) by {
        assert(schedule@[k] == items[k]@);
        lemma_single_fixture(ids, start, k);
    }
    lemma_number_of_place(n, 0, 0);
    assert(items[0].date@ == start);
    if round + 1 < rounds(n) {
        lemma_number_of_place(n, round + 1, 0);
        let opening = (round + 1) * pairs_per_round(n);
        assert(items[opening].date@ == start + DAYS_BETWEEN_ROUNDS * (round + 1));
    }
}

} // verus!
