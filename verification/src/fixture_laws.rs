//! What holds of every generated season.

use crate::round_robin::{
    is_fixture, lemma_no_pair_meets_twice, lemma_pair_has_fixture,
    lemma_round_has_no_club_twice, lemma_sides, meeting_round, meeting_slot, pairs_per_round,
    rounds, sides_of,
};
use crate::schedule::{
    double_round_robin, on_date, return_fixture, single_fixture, single_len, single_round_robin,
    Fixture, Schedule, ScheduleItem, DAYS_BETWEEN_ROUNDS,
};
use crate::seq_facts::lemma_filter_stretch;
use vstd::arithmetic::div_mod::{
    lemma_div_is_ordered, lemma_fundamental_div_mod, lemma_fundamental_div_mod_converse,
    lemma_mod_bound, lemma_multiply_divide_lt,
};
use vstd::prelude::*;

verus! {

/// The round in which the fixture with number `k` of a half season is played.
pub open spec fn round_of(n: int, k: int) -> int {
    k / pairs_per_round(n)
}

/// The number within its round of the fixture with number `k`.
pub open spec fn place_of(n: int, k: int) -> int {
    k % pairs_per_round(n)
}

/// Whether `fixture` is the meeting of the clubs `x` and `y`, whichever of
/// them is at home.
pub open spec fn is_meeting(fixture: Fixture, x: u32, y: u32) -> bool {
    (fixture.home == x && fixture.guest == y) || (fixture.home == y && fixture.guest == x)
}

/// Whether two fixtures have a club in common.
pub open spec fn share_a_club(f: Fixture, g: Fixture) -> bool {
    f.home == g.home || f.home == g.guest || f.guest == g.home || f.guest == g.guest
}

/// The number, in a single round robin of an even number `n` of clubs, of the
/// fixture in which the clubs on the places `a` and `b` of the list meet.
pub open spec fn meeting_index(n: int, a: int, b: int) -> int {
    if a < b {
        meeting_round(n, a, b) * pairs_per_round(n) + meeting_slot(n, a, b)
    } else {
        meeting_round(n, b, a) * pairs_per_round(n) + meeting_slot(n, b, a)
    }
}

/// Every number below the length of a half season names a round and a place
/// in it, and is named by them.
pub proof fn lemma_round_and_place(n: int, k: int)
    requires
        2 <= n,
        0 <= k < single_len(n),
    ensures
        is_fixture(n, round_of(n, k), place_of(n, k)),
        k == round_of(n, k) * pairs_per_round(n) + place_of(n, k),
{
    let h = pairs_per_round(n);
    lemma_fundamental_div_mod(k, h);
    lemma_mod_bound(k, h);
    assert(rounds(n) * h == h * rounds(n)) by (nonlinear_arith);
    lemma_multiply_divide_lt(k, h, rounds(n));
    assert(0 <= k / h) by (nonlinear_arith)
        requires
            0 <= k,
            0 < h,
    ;
    assert(h * (k / h) == (k / h) * h) by (nonlinear_arith);
}

/// The fixture on the place `j` of `round` has the number
/// `round * (n / 2) + j`.
pub proof fn lemma_number_of_place(n: int, round: int, j: int)
    requires
        2 <= n,
        is_fixture(n, round, j),
    ensures
        0 <= round * pairs_per_round(n) + j < single_len(n),
        round_of(n, round * pairs_per_round(n) + j) == round,
        place_of(n, round * pairs_per_round(n) + j) == j,
{
    let h = pairs_per_round(n);
    let k = round * h + j;
    lemma_fundamental_div_mod_converse(k, h, round, j);
    assert(0 <= round * h && round * h + h <= rounds(n) * h) by (nonlinear_arith)
        requires
            0 <= round < rounds(n),
            0 < h,
    ;
}

/// A single round robin of `n` clubs has `(n - 1) * (n / 2)` fixtures, a
/// double round robin twice as many.
pub proof fn lemma_fixture_count(ids: Seq<u32>, start: int)
    requires
        2 <= ids.len(),
    ensures
        single_round_robin(ids, start).len() == (ids.len() - 1) * (ids.len() / 2),
        double_round_robin(ids, start).len() == 2 * ((ids.len() - 1) * (ids.len() / 2)),
{
    let n = ids.len() as int;
    assert(0 <= (n - 1) * (n / 2)) by (nonlinear_arith)
        requires
            2 <= n,
    ;
}

/// Each fixture of a single round robin is played in the week of its round,
/// by two clubs of the list, the ones that the circle method pairs.
pub proof fn lemma_single_fixture(ids: Seq<u32>, start: int, k: int)
    requires
        2 <= ids.len(),
        0 <= k < single_round_robin(ids, start).len(),
    ensures
        is_fixture(ids.len() as int, round_of(ids.len() as int, k), place_of(ids.len() as int, k)),
        single_round_robin(ids, start)[k] == single_fixture(ids, start, k),
        single_round_robin(ids, start)[k].date == start + DAYS_BETWEEN_ROUNDS * round_of(
            ids.len() as int,
            k,
        ),
        ({
            let sides = sides_of(
                ids.len() as int,
                round_of(ids.len() as int, k),
                place_of(ids.len() as int, k),
            );
            &&& 0 <= sides.home < ids.len()
            &&& 0 <= sides.guest < ids.len()
            &&& sides.home != sides.guest
            &&& single_round_robin(ids, start)[k].home == ids[sides.home]
            &&& single_round_robin(ids, start)[k].guest == ids[sides.guest]
        }),
{
    let n = ids.len() as int;
    lemma_fixture_count(ids, start);
    lemma_round_and_place(n, k);
    lemma_sides(n, round_of(n, k), place_of(n, k));
}

/// In a single round robin of clubs with different identities, no club plays
/// against itself, and no club appears in two fixtures of one date.
pub proof fn lemma_no_club_twice_on_a_date(ids: Seq<u32>, start: int, j: int, k: int)
    requires
        2 <= ids.len(),
        ids.no_duplicates(),
        0 <= j < single_round_robin(ids, start).len(),
        0 <= k < single_round_robin(ids, start).len(),
    ensures
        single_round_robin(ids, start)[k].home != single_round_robin(ids, start)[k].guest,
        j != k && single_round_robin(ids, start)[j].date == single_round_robin(
            ids,
            start,
        )[k].date ==> !share_a_club(
            single_round_robin(ids, start)[j],
            single_round_robin(ids, start)[k],
        ),
{
    let n = ids.len() as int;
    let season = single_round_robin(ids, start);
    lemma_single_fixture(ids, start, j);
    lemma_single_fixture(ids, start, k);
    if j != k && season[j].date == season[k].date {
        lemma_round_and_place(n, j);
        lemma_round_and_place(n, k);
        assert(round_of(n, j) == round_of(n, k));
        lemma_round_has_no_club_twice(n, round_of(n, k), place_of(n, j), place_of(n, k));
    }
}

/// In a single round robin of clubs with different identities, no two clubs
/// meet twice.
pub proof fn lemma_no_pair_meets_twice_in_a_half(ids: Seq<u32>, start: int, j: int, k: int)
    requires
        2 <= ids.len(),
        ids.no_duplicates(),
        0 <= j < single_round_robin(ids, start).len(),
        0 <= k < single_round_robin(ids, start).len(),
        is_meeting(
            single_round_robin(ids, start)[k],
            single_round_robin(ids, start)[j].home,
            single_round_robin(ids, start)[j].guest,
        ),
    ensures
        j == k,
{
    let n = ids.len() as int;
    lemma_single_fixture(ids, start, j);
    lemma_single_fixture(ids, start, k);
    lemma_round_and_place(n, j);
    lemma_round_and_place(n, k);
    let mine = sides_of(n, round_of(n, j), place_of(n, j));
    let theirs = sides_of(n, round_of(n, k), place_of(n, k));
    assert((theirs.home == mine.home && theirs.guest == mine.guest) || (theirs.home == mine.guest
        && theirs.guest == mine.home));
    lemma_no_pair_meets_twice(n, round_of(n, j), place_of(n, j), round_of(n, k), place_of(n, k));
}

/// In a single round robin of an even number of clubs with different
/// identities, any two clubs meet exactly once: in the fixture with the number
/// `meeting_index`, and in no other.
pub proof fn lemma_every_pair_meets_once(ids: Seq<u32>, start: int, a: int, b: int)
    requires
        2 <= ids.len(),
        ids.len() % 2 == 0,
        ids.no_duplicates(),
        0 <= a < ids.len(),
        0 <= b < ids.len(),
        a != b,
    ensures
        0 <= meeting_index(ids.len() as int, a, b) < single_round_robin(ids, start).len(),
        is_meeting(
            single_round_robin(ids, start)[meeting_index(ids.len() as int, a, b)],
            ids[a],
            ids[b],
        ),
        forall|k: int|
            0 <= k < single_round_robin(ids, start).len() && is_meeting(
                #[trigger] single_round_robin(ids, start)[k],
                ids[a],
                ids[b],
            ) ==> k == meeting_index(ids.len() as int, a, b),
{
    let n = ids.len() as int;
    let season = single_round_robin(ids, start);
    let low = if a < b { a } else { b };
    let high = if a < b { b } else { a };
    let round = meeting_round(n, low, high);
    let place = meeting_slot(n, low, high);
    let at = meeting_index(n, a, b);
    lemma_fixture_count(ids, start);
    lemma_pair_has_fixture(n, low, high);
    lemma_number_of_place(n, round, place);
    lemma_single_fixture(ids, start, at);
    assert forall|k: int| 0 <= k < season.len() && is_meeting(#[trigger] season[k], ids[a], ids[b])
        implies k == at by {
        lemma_no_pair_meets_twice_in_a_half(ids, start, at, k);
    }
}

/// The first half of a double round robin is the single round robin; the
/// second half holds, in the same order, the return match of each fixture of
/// the first: the sides swapped, `n - 1` weeks later.
pub proof fn lemma_return_matches(ids: Seq<u32>, start: int, k: int)
    requires
        2 <= ids.len(),
        0 <= k < single_round_robin(ids, start).len(),
    ensures
        double_round_robin(ids, start)[k] == single_round_robin(ids, start)[k],
        double_round_robin(ids, start)[single_round_robin(ids, start).len() + k] == return_fixture(
            single_round_robin(ids, start)[k],
            ids.len() as int,
        ),
{
}

/// In a double round robin of clubs with different identities, no club plays
/// against itself, and no club appears in two fixtures of one date.
pub proof fn lemma_no_club_twice_on_a_date_double(ids: Seq<u32>, start: int, j: int, k: int)
    requires
        2 <= ids.len(),
        ids.no_duplicates(),
        0 <= j < double_round_robin(ids, start).len(),
        0 <= k < double_round_robin(ids, start).len(),
    ensures
        double_round_robin(ids, start)[k].home != double_round_robin(ids, start)[k].guest,
        j != k && double_round_robin(ids, start)[j].date == double_round_robin(
            ids,
            start,
        )[k].date ==> !share_a_club(
            double_round_robin(ids, start)[j],
            double_round_robin(ids, start)[k],
        ),
{
    let n = ids.len() as int;
    let half = single_round_robin(ids, start).len() as int;
    let first_j = if j < half { j } else { j - half };
    let first_k = if k < half { k } else { k - half };
    lemma_fixture_count(ids, start);
    lemma_return_matches(ids, start, first_j);
    lemma_return_matches(ids, start, first_k);
    lemma_single_fixture(ids, start, first_j);
    lemma_single_fixture(ids, start, first_k);
    lemma_no_club_twice_on_a_date(ids, start, first_j, first_k);
}

/// In a double round robin of clubs with different identities, no club is at
/// home to the same club twice.
pub proof fn lemma_no_home_match_twice(ids: Seq<u32>, start: int, j: int, k: int)
    requires
        2 <= ids.len(),
        ids.no_duplicates(),
        0 <= j < double_round_robin(ids, start).len(),
        0 <= k < double_round_robin(ids, start).len(),
        double_round_robin(ids, start)[j].home == double_round_robin(ids, start)[k].home,
        double_round_robin(ids, start)[j].guest == double_round_robin(ids, start)[k].guest,
    ensures
        j == k,
{
    let half = single_round_robin(ids, start).len() as int;
    let first_j = if j < half { j } else { j - half };
    let first_k = if k < half { k } else { k - half };
    lemma_fixture_count(ids, start);
    lemma_return_matches(ids, start, first_j);
    lemma_return_matches(ids, start, first_k);
    lemma_single_fixture(ids, start, first_j);
    lemma_single_fixture(ids, start, first_k);
    lemma_no_pair_meets_twice_in_a_half(ids, start, first_j, first_k);
}

/// Whether, of the clubs on the places `a` and `b` of the list, `a` is at
/// home when the two meet in the first half of the season.
pub open spec fn hosts_first(n: int, a: int, b: int) -> bool {
    if a < b {
        sides_of(n, meeting_round(n, a, b), meeting_slot(n, a, b)).home == a
    } else {
        sides_of(n, meeting_round(n, b, a), meeting_slot(n, b, a)).home == a
    }
}

/// The number, in a double round robin of an even number `n` of clubs, of the
/// fixture in which the club on the place `a` of the list is at home to the
/// club on the place `b`.
pub open spec fn home_match_index(n: int, a: int, b: int) -> int {
    if hosts_first(n, a, b) {
        meeting_index(n, a, b)
    } else {
        single_len(n) + meeting_index(n, a, b)
    }
}

/// Where two clubs meet in a single round robin, the one that `hosts_first`
/// names is at home; and it names exactly one of the two.
pub proof fn lemma_host_of_meeting(ids: Seq<u32>, start: int, a: int, b: int)
    requires
        2 <= ids.len(),
        ids.len() % 2 == 0,
        ids.no_duplicates(),
        0 <= a < ids.len(),
        0 <= b < ids.len(),
        a != b,
    ensures
        meeting_index(ids.len() as int, a, b) == meeting_index(ids.len() as int, b, a),
        hosts_first(ids.len() as int, a, b) != hosts_first(ids.len() as int, b, a),
        hosts_first(ids.len() as int, a, b) ==> single_round_robin(ids, start)[meeting_index(
            ids.len() as int,
            a,
            b,
        )].home == ids[a],
        !hosts_first(ids.len() as int, a, b) ==> single_round_robin(ids, start)[meeting_index(
            ids.len() as int,
            a,
            b,
        )].home == ids[b],
{
    let n = ids.len() as int;
    let low = if a < b { a } else { b };
    let high = if a < b { b } else { a };
    let round = meeting_round(n, low, high);
    let place = meeting_slot(n, low, high);
    let at = meeting_index(n, a, b);
    lemma_fixture_count(ids, start);
    lemma_pair_has_fixture(n, low, high);
    lemma_number_of_place(n, round, place);
    lemma_single_fixture(ids, start, at);
    assert(round_of(n, at) == round);
    assert(place_of(n, at) == place);
}

/// In a double round robin of an even number of clubs with different
/// identities, each club is at home to each other club exactly once: in the
/// fixture with the number `home_match_index`, and in no other. So any two
/// clubs meet twice, once on each ground.
pub proof fn lemma_every_pair_meets_home_and_away(ids: Seq<u32>, start: int, a: int, b: int)
    requires
        2 <= ids.len(),
        ids.len() % 2 == 0,
        ids.no_duplicates(),
        0 <= a < ids.len(),
        0 <= b < ids.len(),
        a != b,
    ensures
        0 <= home_match_index(ids.len() as int, a, b) < double_round_robin(ids, start).len(),
        double_round_robin(ids, start)[home_match_index(ids.len() as int, a, b)].home == ids[a],
        double_round_robin(ids, start)[home_match_index(ids.len() as int, a, b)].guest == ids[b],
        forall|k: int|
            #![trigger double_round_robin(ids, start)[k]]
            0 <= k < double_round_robin(ids, start).len() && double_round_robin(
                ids,
                start,
            )[k].home == ids[a] && double_round_robin(ids, start)[k].guest == ids[b] ==> k
                == home_match_index(ids.len() as int, a, b),
{
    let n = ids.len() as int;
    let single = single_round_robin(ids, start);
    let season = double_round_robin(ids, start);
    let half = single.len() as int;
    let first = meeting_index(n, a, b);
    let at = home_match_index(n, a, b);
    lemma_fixture_count(ids, start);
    lemma_every_pair_meets_once(ids, start, a, b);
    lemma_host_of_meeting(ids, start, a, b);
    lemma_return_matches(ids, start, first);
    assert(half == single_len(n));
    assert(is_meeting(single[first], ids[a], ids[b]));
    assert forall|k: int|
        #![trigger season[k]]
        0 <= k < season.len() && season[k].home == ids[a] && season[k].guest == ids[b] implies k
        == at by {
        lemma_no_home_match_twice(ids, start, at, k);
    }
}

/// Whether a round of a season of `rounds` rounds that starts on the day
/// `start` is played on the day `date`.
pub open spec fn is_round_day(start: int, rounds: int, date: int) -> bool {
    &&& start <= date < start + DAYS_BETWEEN_ROUNDS * rounds
    &&& (date - start) % (DAYS_BETWEEN_ROUNDS as int) == 0
}

/// Every fixture of a single round robin is played on a round day.
pub proof fn lemma_played_on_round_days(ids: Seq<u32>, start: int, k: int)
    requires
        2 <= ids.len(),
        0 <= k < single_round_robin(ids, start).len(),
    ensures
        is_round_day(start, rounds(ids.len() as int), single_round_robin(ids, start)[k].date),
{
    lemma_single_fixture(ids, start, k);
}

/// Every fixture of a double round robin is played on a round day.
pub proof fn lemma_played_on_round_days_double(ids: Seq<u32>, start: int, k: int)
    requires
        2 <= ids.len(),
        0 <= k < double_round_robin(ids, start).len(),
    ensures
        is_round_day(start, 2 * rounds(ids.len() as int), double_round_robin(ids, start)[k].date),
{
    let half = single_round_robin(ids, start).len() as int;
    let leg = if k < half { k } else { k - half };
    lemma_fixture_count(ids, start);
    lemma_return_matches(ids, start, leg);
    lemma_single_fixture(ids, start, leg);
}

/// A single round robin stands in the order in which it is played: no
/// fixture is played before one that stands before it.
pub proof fn lemma_played_in_date_order(ids: Seq<u32>, start: int, j: int, k: int)
    requires
        2 <= ids.len(),
        0 <= j <= k < single_round_robin(ids, start).len(),
    ensures
        single_round_robin(ids, start)[j].date <= single_round_robin(ids, start)[k].date,
{
    let n = ids.len() as int;
    lemma_single_fixture(ids, start, j);
    lemma_single_fixture(ids, start, k);
    lemma_div_is_ordered(j, k, pairs_per_round(n));
}

/// Asking a schedule for a day on which none of its fixtures is played gives
/// nothing.
pub proof fn lemma_no_matches_on_a_free_day(schedule: Schedule, date: int)
    requires
        forall|k: int| 0 <= k < schedule@.len() ==> (#[trigger] schedule@[k]).date != date,
    ensures
        schedule.items@.filter(on_date(date)) == Seq::<ScheduleItem>::empty(),
{
    let found = schedule.items@.filter(on_date(date));
    if 0 < found.len() {
        let item = found[0];
        schedule.items@.lemma_filter_pred(on_date(date), 0);
        assert(found.contains(item));
        schedule.items@.lemma_filter_contains_rev(on_date(date), item);
        let k = choose|k: int| 0 <= k < schedule.items@.len() && schedule.items@[k] == item;
        assert(schedule@[k].date == date);
    }
    assert(found =~= Seq::<ScheduleItem>::empty());
}

/// Asking a single round robin for a day before its first round, after its
/// last round, or between two rounds gives nothing.
pub proof fn lemma_no_matches_off_season(schedule: Schedule, ids: Seq<u32>, start: int, date: int)
    requires
        2 <= ids.len(),
        schedule@ == single_round_robin(ids, start),
        !is_round_day(start, rounds(ids.len() as int), date),
    ensures
        schedule.items@.filter(on_date(date)) == Seq::<ScheduleItem>::empty(),
{
    assert forall|k: int| 0 <= k < schedule@.len() implies (#[trigger] schedule@[k]).date
        != date by {
        lemma_played_on_round_days(ids, start, k);
    }
    lemma_no_matches_on_a_free_day(schedule, date);
}

/// Asking a double round robin for a day before its first round, after its
/// last round, or between two rounds gives nothing.
pub proof fn lemma_no_matches_off_season_double(
    schedule: Schedule,
    ids: Seq<u32>,
    start: int,
    date: int,
)
    requires
        2 <= ids.len(),
        schedule@ == double_round_robin(ids, start),
        !is_round_day(start, 2 * rounds(ids.len() as int), date),
    ensures
        schedule.items@.filter(on_date(date)) == Seq::<ScheduleItem>::empty(),
{
    assert forall|k: int| 0 <= k < schedule@.len() implies (#[trigger] schedule@[k]).date
        != date by {
        lemma_played_on_round_days_double(ids, start, k);
    }
    lemma_no_matches_on_a_free_day(schedule, date);
}

/// Asking a single round robin for the day of one of its rounds gives the
/// fixtures of that round: the stretch of `n / 2` items that starts at the
/// number `round * (n / 2)`.
pub proof fn lemma_matches_of_round(schedule: Schedule, ids: Seq<u32>, start: int, round: int)
    requires
        2 <= ids.len(),
        schedule@ == single_round_robin(ids, start),
        0 <= round < rounds(ids.len() as int),
    ensures
        0 <= round * pairs_per_round(ids.len() as int),
        (round + 1) * pairs_per_round(ids.len() as int) <= schedule.items@.len(),
        schedule.items@.filter(on_date(start + DAYS_BETWEEN_ROUNDS * round))
            == schedule.items@.subrange(
            round * pairs_per_round(ids.len() as int),
            (round + 1) * pairs_per_round(ids.len() as int),
        ),
{
    let n = ids.len() as int;
    let h = pairs_per_round(n);
    let items = schedule.items@;
    let low = round * h;
    let high = (round + 1) * h;
    let day = start + DAYS_BETWEEN_ROUNDS * round;
    lemma_fixture_count(ids, start);
    assert(items.len() == schedule@.len());
    assert(high == low + h) by (nonlinear_arith)
        requires
            low == round * h,
            high == (round + 1) * h,
    ;
    lemma_number_of_place(n, round, 0);
    lemma_number_of_place(n, round, h - 1);
    assert forall|k: int| 0 <= k < items.len() implies on_date(day)(#[trigger] items[k]) == (low
        <= k < high) by {
        assert(schedule@[k] == items[k]@);
        lemma_single_fixture(ids, start, k);
        lemma_round_and_place(n, k);
        if low <= k < high {
            lemma_fundamental_div_mod_converse(k, h, round, k - low);
        } else if round_of(n, k) == round {
            assert(k == low + place_of(n, k));
        }
    }
    lemma_filter_stretch(items, on_date(day), low, high);
}

} // verus!
