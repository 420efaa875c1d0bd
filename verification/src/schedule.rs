//! The season's fixture list.

use crate::club::Club;
use crate::date::{is_day_number, Date};
use crate::round_robin::{
    bye_slot, circle_size, club_at, lemma_bye, pairs_per_round, rounds, sides_of, slot_at,
};
use crate::seq_facts::{lemma_filter_next, lemma_filter_nothing};
use vstd::arithmetic::div_mod::lemma_fundamental_div_mod_converse;
use vstd::prelude::*;

verus! {

/// Days from one round to the next.
pub const DAYS_BETWEEN_ROUNDS: i32 = 7;

/// One match of the season: who is at home, who visits, and when.
#[derive(Debug, Clone, Copy)]
pub struct ScheduleItem {
    pub date: Date,
    pub home_club_id: u32,
    pub guest_club_id: u32,
}

/// What a [`ScheduleItem`] stands for: the day number of its date and the
/// identities of the two clubs.
pub struct Fixture {
    pub date: int,
    pub home: u32,
    pub guest: u32,
}

impl View for ScheduleItem {
    type V = Fixture;

    open spec fn view(&self) -> Fixture {
        Fixture { date: self.date@, home: self.home_club_id, guest: self.guest_club_id }
    }
}

/// The fixtures of a season, in the order in which they are played.
#[derive(Debug)]
pub struct Schedule {
    pub items: Vec<ScheduleItem>,
}

impl View for Schedule {
    type V = Seq<Fixture>;

    open spec fn view(&self) -> Seq<Fixture> {
        fixtures_of(self.items@)
    }
}

/// What a sequence of items stands for, item by item.
pub open spec fn fixtures_of(items: Seq<ScheduleItem>) -> Seq<Fixture> {
    items.map_values(|item: ScheduleItem| item@)
}

/// The items that a sequence of references points to.
pub open spec fn referents(items: Seq<&ScheduleItem>) -> Seq<ScheduleItem> {
    items.map_values(|item: &ScheduleItem| *item)
}

/// Why no schedule could be made.
#[derive(Debug, Clone, Copy, PartialEq, Eq, Structural)]
pub enum ScheduleError {
    /// Fewer than two clubs were given.
    InvalidInput,
}

/// The identities of the clubs of a list, in its order.
pub open spec fn club_ids(clubs: Seq<&Club>) -> Seq<u32> {
    clubs.map_values(|club: &Club| club.id)
}

/// Fixtures in a single round robin of `n` clubs.
pub open spec fn single_len(n: int) -> int {
    rounds(n) * pairs_per_round(n)
}

/// The fixture with number `k` of the single round robin of the clubs `ids`
/// that starts on the day `start`: rounds follow each other a week apart, and
/// within a round the fixtures stand in the order of their slots.
pub open spec fn single_fixture(ids: Seq<u32>, start: int, k: int) -> Fixture {
    let n = ids.len() as int;
    let round = k / pairs_per_round(n);
    let sides = sides_of(n, round, k % pairs_per_round(n));
    Fixture {
        date: start + DAYS_BETWEEN_ROUNDS * round,
        home: ids[sides.home],
        guest: ids[sides.guest],
    }
}

/// The single round robin of the clubs `ids` that starts on the day `start`.
pub open spec fn single_round_robin(ids: Seq<u32>, start: int) -> Seq<Fixture> {
    Seq::new(single_len(ids.len() as int) as nat, |k: int| single_fixture(ids, start, k))
}

/// The return match of `fixture` in a season of `n` clubs: the sides swapped,
/// one half of the season later.
pub open spec fn return_fixture(fixture: Fixture, n: int) -> Fixture {
    Fixture {
        date: fixture.date + DAYS_BETWEEN_ROUNDS * rounds(n),
        home: fixture.guest,
        guest: fixture.home,
    }
}

/// The double round robin of the clubs `ids` that starts on the day `start`:
/// the single round robin, then the return match of each of its fixtures in
/// the same order.
pub open spec fn double_round_robin(ids: Seq<u32>, start: int) -> Seq<Fixture> {
    let first_half = single_round_robin(ids, start);
    first_half + first_half.map_values(|f: Fixture| return_fixture(f, ids.len() as int))
}

/// The fixture with number `k` of one half of a season: of the first half, or,
/// where `swapped` is set, of a half in which every fixture has its sides
/// swapped.
pub open spec fn half_fixture(ids: Seq<u32>, start: int, swapped: bool, k: int) -> Fixture {
    let fixture = single_fixture(ids, start, k);
    if swapped {
        Fixture { date: fixture.date, home: fixture.guest, guest: fixture.home }
    } else {
        fixture
    }
}

/// The test "is played on the day `date`".
pub open spec fn on_date(date: int) -> spec_fn(ScheduleItem) -> bool {
    |item: ScheduleItem| item.date@ == date
}

/// Who stands on `position` of a circle of `size` positions in `round`.
fn club_index(size: usize, round: usize, position: usize) -> (r: usize)
    requires
        2 <= size,
        round < size - 1,
        position < size,
    ensures
        r == club_at(size as int, round as int, position as int),
        r < size,
{
    if position == 0 {
        0
    } else if position > round {
        position - round
    } else {
        size - 1 - round + position
    }
}

/// Fixtures that the slots below `slot` give in `round`.
spec fn fixtures_below(n: int, round: int, slot: int) -> int {
    if slot <= bye_slot(n, round) {
        slot
    } else {
        slot - 1
    }
}

/// Appends one half of a season to `items`: the rounds of the circle method
/// from the day `start` on, with the sides of every fixture swapped where
/// `swapped` is set.
fn push_half(items: &mut Vec<ScheduleItem>, clubs: &Vec<&Club>, start: Date, swapped: bool)
    requires
        2 <= clubs.len(),
        is_day_number(start@ + DAYS_BETWEEN_ROUNDS * (clubs.len() - 2)),
    ensures
        final(items)@.len() == old(items)@.len() + single_len(clubs.len() as int),
        forall|k: int| 0 <= k < old(items)@.len() ==> final(items)@[k] == old(items)@[k],
        forall|j: int|
            old(items)@.len() <= j < final(items)@.len() ==> (#[trigger] final(items)@[j])@
                == half_fixture(club_ids(clubs@), start@, swapped, j - old(items)@.len()),
{
    let n: usize = clubs.len();
    let first_day: i32 = start.day_number();
    let size: usize = if n % 2 == 0 {
        n
    } else {
        n + 1
    };
    let per_round: usize = n / 2;
    let ghost ids = club_ids(clubs@);
    let ghost before = items@;
    let mut round: usize = 0;
    while round < n - 1
        invariant
            n == clubs.len(),
            2 <= n,
            size == circle_size(n as int),
            per_round == n / 2,
            ids == club_ids(clubs@),
            round <= n - 1,
            first_day == start@,
            is_day_number(first_day as int),
            is_day_number(first_day + DAYS_BETWEEN_ROUNDS * (n - 2)),
            items@.len() == before.len() + round * per_round,
            forall|k: int| 0 <= k < before.len() ==> items@[k] == before[k],
            forall|j: int|
                before.len() <= j < items@.len() ==> (#[trigger] items@[j])@ == half_fixture(
                    ids,
                    start@,
                    swapped,
                    j - before.len(),
                ),
        decreases n - 1 - round,
    {
        let day: Date = Date::from_day_number(
            first_day + DAYS_BETWEEN_ROUNDS * (round as i32),
        ).unwrap();
        let low_at_home: bool = (round % 2 == 0) != swapped;
        let mut slot: usize = 0;
        while slot < size / 2
            invariant
                n == clubs.len(),
                2 <= n,
                size == circle_size(n as int),
                per_round == n / 2,
                ids == club_ids(clubs@),
                round < n - 1,
                slot <= size / 2,
                day@ == start@ + DAYS_BETWEEN_ROUNDS * round,
                low_at_home == ((round % 2 == 0) != swapped),
                items@.len() == before.len() + round * per_round + fixtures_below(
                    n as int,
                    round as int,
                    slot as int,
                ),
                forall|k: int| 0 <= k < before.len() ==> items@[k] == before[k],
                forall|j: int|
                    before.len() <= j < items@.len() ==> (#[trigger] items@[j])@ == half_fixture(
                        ids,
                        start@,
                        swapped,
                        j - before.len(),
                    ),
            decreases size / 2 - slot,
        {
            let low: usize = club_index(size, round, slot);
            let high: usize = club_index(size, round, size - 1 - slot);
            proof {
                lemma_bye(n as int, round as int, slot as int);
            }
            if low < n && high < n {
                let item = if low_at_home {
                    ScheduleItem {
                        date: day,
                        home_club_id: clubs[low].id,
                        guest_club_id: clubs[high].id,
                    }
                } else {
                    ScheduleItem {
                        date: day,
                        home_club_id: clubs[high].id,
                        guest_club_id: clubs[low].id,
                    }
                };
                proof {
                    let j = fixtures_below(n as int, round as int, slot as int);
                    let k = round * per_round + j;
                    assert(slot_at(n as int, round as int, j) == slot);
                    lemma_fundamental_div_mod_converse(k, per_round as int, round as int, j);
                    assert(item@ == half_fixture(ids, start@, swapped, k));
                }
                items.push(item);
            }
            slot += 1;
        }
        proof {
            assert(fixtures_below(n as int, round as int, size as int / 2) == per_round);
            assert(round * per_round + per_round == (round + 1) * per_round) by (nonlinear_arith);
        }
        round += 1;
    }
}

impl Schedule {
    /// Makes the single round robin of `clubs`, whose first round is played on
    /// `date` and each further round a week after the one before.
    ///
    /// The last round must still be a day of the calendar.
    pub fn generate(clubs: Vec<&Club>, date: Date) -> (r: Result<Schedule, ScheduleError>)
        requires
            2 <= clubs.len() ==> is_day_number(date@ + DAYS_BETWEEN_ROUNDS * (clubs.len() - 2)),
        ensures
            clubs.len() < 2 ==> r == Err::<Schedule, ScheduleError>(ScheduleError::InvalidInput),
            2 <= clubs.len() ==> r.is_ok() && r.unwrap()@ == single_round_robin(
                club_ids(clubs@),
                date@,
            ),
            2 <= clubs.len() ==> r.unwrap().items@.len() == (clubs.len() - 1) * (clubs.len() / 2),
    {
        if clubs.len() < 2 {
            return Err(ScheduleError::InvalidInput);
        }
        let mut items: Vec<ScheduleItem> = Vec::new();
        push_half(&mut items, &clubs, date, false);
        let schedule = Schedule { items };
        assert(schedule@ =~= single_round_robin(club_ids(clubs@), date@));
        Ok(schedule)
    }

    /// Makes the double round robin of `clubs`: the single round robin from
    /// `date` on, then, from the week after its last round, the same rounds
    /// once more with the sides of every fixture swapped.
    ///
    /// The last round must still be a day of the calendar.
    pub fn generate_double(clubs: Vec<&Club>, date: Date) -> (r: Result<Schedule, ScheduleError>)
        requires
            2 <= clubs.len() ==> is_day_number(
                date@ + DAYS_BETWEEN_ROUNDS * (2 * clubs.len() - 3),
            ),
        ensures
            clubs.len() < 2 ==> r == Err::<Schedule, ScheduleError>(ScheduleError::InvalidInput),
            2 <= clubs.len() ==> r.is_ok() && r.unwrap()@ == double_round_robin(
                club_ids(clubs@),
                date@,
            ),
            2 <= clubs.len() ==> r.unwrap().items@.len() == 2 * ((clubs.len() - 1) * (clubs.len()
                / 2)),
    {
        let n: usize = clubs.len();
        if n < 2 {
            return Err(ScheduleError::InvalidInput);
        }
        let first_day: i32 = date.day_number();
        let half_season: i32 = DAYS_BETWEEN_ROUNDS * ((n - 1) as i32);
        let second_start: Date = Date::from_day_number(first_day + half_season).unwrap();
        let mut items: Vec<ScheduleItem> = Vec::new();
        push_half(&mut items, &clubs, date, false);
        push_half(&mut items, &clubs, second_start, true);
        let schedule = Schedule { items };
        assert(schedule@ =~= double_round_robin(club_ids(clubs@), date@));
        Ok(schedule)
    }

    /// The fixtures that are played on `date`, in the order of the schedule.
    pub fn get_matches(&self, date: Date) -> (r: Vec<&ScheduleItem>)
        ensures
            referents(r@) == self.items@.filter(on_date(date@)),
    {
        let wanted: i32 = date.day_number();
        let mut found: Vec<&ScheduleItem> = Vec::new();
        let mut i: usize = 0;
        proof {
            lemma_filter_nothing(self.items@, on_date(date@));
        }
        while i < self.items.len()
            invariant
                i <= self.items.len(),
                wanted == date@,
                referents(found@) == self.items@.take(i as int).filter(on_date(date@)),
            decreases self.items.len() - i,
        {
            let item = &self.items[i];
            proof {
                lemma_filter_next(self.items@, i as int, on_date(date@));
            }
            if item.date.day_number() == wanted {
                found.push(item);
                assert(referents(found@) =~= self.items@.take(i as int).filter(
                    on_date(date@),
                ).push(*item));
            }
            i += 1;
        }
        assert(self.items@.take(i as int) =~= self.items@);
        found
    }
}

} // verus!
