//! The circle method: who meets whom in which round.
//!
//! The clubs stand on the positions of a circle. The club on position 0
//! stays there for the whole season; before each further round all the
//! others move on by one position, the last of them to position 1. In every
//! round the club on position `slot` meets the club on the position that
//! lies across, `size - 1 - slot`.
//!
//! The circle has an even number of positions. An odd number of clubs leaves
//! the last position to a bye: whoever stands across from it sits the round
//! out, and that slot gives no fixture.
//!
//! A half season of `n` clubs has `n - 1` rounds. For an even `n` these are
//! all the rounds of the circle, and every club has met every other. For an
//! odd `n` the circle would have one round more.
//!
//! Clubs are named here by their place in the list that the season was made
//! from, so everything in this file is arithmetic on integers.

use vstd::prelude::*;

verus! {

/// Positions on the circle for `n` clubs: `n` itself, or one more where `n`
/// is odd.
pub open spec fn circle_size(n: int) -> int {
    if n % 2 == 0 {
        n
    } else {
        n + 1
    }
}

/// Rounds in one half of the season.
pub open spec fn rounds(n: int) -> int {
    n - 1
}

/// Fixtures in a round.
pub open spec fn pairs_per_round(n: int) -> int {
    n / 2
}

/// Who stands on `position` of a circle of `size` positions in `round`.
pub open spec fn club_at(size: int, round: int, position: int) -> int {
    if position == 0 {
        0
    } else if position > round {
        position - round
    } else {
        position - round + (size - 1)
    }
}

/// The position on which `club` stands in `round`.
pub open spec fn position_of(size: int, round: int, club: int) -> int {
    if club == 0 {
        0
    } else if club + round <= size - 1 {
        club + round
    } else {
        club + round - (size - 1)
    }
}

/// The two sides of one fixture, each a place in the list of clubs.
pub struct Pairing {
    pub home: int,
    pub guest: int,
}

/// Who meets on `slot` of `round`. The club from the lower position is at
/// home in rounds of even number and away in the others.
pub open spec fn pairing(size: int, round: int, slot: int) -> Pairing {
    let low = club_at(size, round, slot);
    let high = club_at(size, round, size - 1 - slot);
    if round % 2 == 0 {
        Pairing { home: low, guest: high }
    } else {
        Pairing { home: high, guest: low }
    }
}

/// Whether `round` and `slot` name a slot of a circle of `size` positions.
pub open spec fn is_slot(size: int, round: int, slot: int) -> bool {
    0 <= round < size - 1 && 0 <= slot < size / 2
}

/// Whether the clubs `a` and `b` meet on `slot` of `round`, whichever of them
/// is at home.
pub open spec fn meet_on(size: int, round: int, slot: int, a: int, b: int) -> bool {
    let sides = pairing(size, round, slot);
    (sides.home == a && sides.guest == b) || (sides.home == b && sides.guest == a)
}

/// The round in which the clubs `a < b` meet.
pub open spec fn meeting_round(size: int, a: int, b: int) -> int {
    let last = size - 1;
    if a == 0 {
        last - b
    } else if (a + b) % 2 == 0 {
        (2 * last - (a + b)) / 2
    } else if a + b <= last {
        (last - (a + b)) / 2
    } else {
        (3 * last - (a + b)) / 2
    }
}

/// The slot of that round on which the clubs `a < b` meet.
pub open spec fn meeting_slot(size: int, a: int, b: int) -> int {
    let round = meeting_round(size, a, b);
    let first = position_of(size, round, a);
    let second = position_of(size, round, b);
    if first <= second {
        first
    } else {
        second
    }
}

/// The slot of `round` that the bye takes in a season of `n` clubs. With an
/// even `n` there is no bye, and the answer lies behind the last slot.
pub open spec fn bye_slot(n: int, round: int) -> int {
    if n % 2 == 0 {
        n / 2
    } else if round == 0 {
        0
    } else if round < (n + 1) / 2 {
        round
    } else {
        n - round
    }
}

/// The slot of the fixture with number `j` of `round`: the slots give the
/// fixtures in their order, the slot of the bye left out.
pub open spec fn slot_at(n: int, round: int, j: int) -> int {
    if j < bye_slot(n, round) {
        j
    } else {
        j + 1
    }
}

/// Whether `round` and `j` name a fixture of a half season of `n` clubs.
pub open spec fn is_fixture(n: int, round: int, j: int) -> bool {
    0 <= round < rounds(n) && 0 <= j < pairs_per_round(n)
}

/// The two sides of the fixture with number `j` of `round`.
pub open spec fn sides_of(n: int, round: int, j: int) -> Pairing {
    pairing(circle_size(n), round, slot_at(n, round, j))
}

/// In every round each club stands on one position only, and each position
/// holds one club.
pub proof fn lemma_round_is_permutation(size: int, round: int, p: int, q: int)
    requires
        2 <= size,
        0 <= round < size - 1,
        0 <= p < size,
        0 <= q < size,
    ensures
        0 <= club_at(size, round, p) < size,
        0 <= position_of(size, round, p) < size,
        position_of(size, round, club_at(size, round, p)) == p,
        club_at(size, round, position_of(size, round, p)) == p,
        p != q ==> club_at(size, round, p) != club_at(size, round, q),
{
}

/// Two different slots of one round have no club in common, and no club
/// meets itself.
pub proof fn lemma_slots_share_no_club(size: int, round: int, slot: int, other: int)
    requires
        2 <= size,
        is_slot(size, round, slot),
        is_slot(size, round, other),
    ensures
        pairing(size, round, slot).home != pairing(size, round, slot).guest,
        slot != other ==> {
            &&& pairing(size, round, slot).home != pairing(size, round, other).home
            &&& pairing(size, round, slot).home != pairing(size, round, other).guest
            &&& pairing(size, round, slot).guest != pairing(size, round, other).home
            &&& pairing(size, round, slot).guest != pairing(size, round, other).guest
        },
{
    lemma_round_is_permutation(size, round, slot, size - 1 - slot);
    lemma_round_is_permutation(size, round, slot, other);
    lemma_round_is_permutation(size, round, slot, size - 1 - other);
    lemma_round_is_permutation(size, round, size - 1 - slot, other);
    lemma_round_is_permutation(size, round, size - 1 - slot, size - 1 - other);
}

/// On a circle of even size any two clubs meet: in the round and on the slot
/// that `meeting_round` and `meeting_slot` give.
pub proof fn lemma_pair_meets(size: int, a: int, b: int)
    requires
        2 <= size,
        size % 2 == 0,
        0 <= a < b < size,
    ensures
        is_slot(size, meeting_round(size, a, b), meeting_slot(size, a, b)),
        meet_on(size, meeting_round(size, a, b), meeting_slot(size, a, b), a, b),
{
    let round = meeting_round(size, a, b);
    lemma_round_is_permutation(size, round, a, b);
}

/// On a circle of even size two clubs meet nowhere else.
pub proof fn lemma_pair_meets_once(size: int, a: int, b: int, round: int, slot: int)
    requires
        2 <= size,
        size % 2 == 0,
        0 <= a < b < size,
        is_slot(size, round, slot),
        meet_on(size, round, slot, a, b),
    ensures
        round == meeting_round(size, a, b),
        slot == meeting_slot(size, a, b),
{
}

/// The fixtures of a round come from slots of the circle, a different slot
/// for each, and none of them from the slot of the bye: both sides are clubs
/// of the list, and they are two.
pub proof fn lemma_sides(n: int, round: int, j: int)
    requires
        2 <= n,
        is_fixture(n, round, j),
    ensures
        is_slot(circle_size(n), round, slot_at(n, round, j)),
        slot_at(n, round, j) != bye_slot(n, round),
        0 <= sides_of(n, round, j).home < n,
        0 <= sides_of(n, round, j).guest < n,
        sides_of(n, round, j).home != sides_of(n, round, j).guest,
{
    let size = circle_size(n);
    let slot = slot_at(n, round, j);
    lemma_slots_share_no_club(size, round, slot, slot);
    lemma_round_is_permutation(size, round, slot, size - 1 - slot);
    if n % 2 == 1 {
        let bye = position_of(size, round, n);
        lemma_round_is_permutation(size, round, n, bye);
        lemma_round_is_permutation(size, round, slot, bye);
        lemma_round_is_permutation(size, round, size - 1 - slot, bye);
    }
}

/// A slot gives a fixture unless it is the slot of the bye: there, and only
/// there, one of the two positions holds no club of the list.
pub proof fn lemma_bye(n: int, round: int, slot: int)
    requires
        2 <= n,
        0 <= round < rounds(n),
        0 <= slot < circle_size(n) / 2,
    ensures
        (slot != bye_slot(n, round)) == (club_at(circle_size(n), round, slot) < n && club_at(
            circle_size(n),
            round,
            circle_size(n) - 1 - slot,
        ) < n),
{
    let size = circle_size(n);
    lemma_round_is_permutation(size, round, slot, size - 1 - slot);
    if n % 2 == 1 {
        let bye = position_of(size, round, n);
        lemma_round_is_permutation(size, round, n, bye);
        lemma_round_is_permutation(size, round, slot, bye);
        lemma_round_is_permutation(size, round, size - 1 - slot, bye);
    }
}

/// Two different fixtures of one round have no club in common.
pub proof fn lemma_round_has_no_club_twice(n: int, round: int, j: int, other: int)
    requires
        2 <= n,
        is_fixture(n, round, j),
        is_fixture(n, round, other),
        j != other,
    ensures
        sides_of(n, round, j).home != sides_of(n, round, other).home,
        sides_of(n, round, j).home != sides_of(n, round, other).guest,
        sides_of(n, round, j).guest != sides_of(n, round, other).home,
        sides_of(n, round, j).guest != sides_of(n, round, other).guest,
{
    lemma_sides(n, round, j);
    lemma_sides(n, round, other);
    lemma_slots_share_no_club(
        circle_size(n),
        round,
        slot_at(n, round, j),
        slot_at(n, round, other),
    );
}

/// No two fixtures of a half season are the meeting of the same two clubs.
pub proof fn lemma_no_pair_meets_twice(n: int, round: int, j: int, later: int, other: int)
    requires
        2 <= n,
        is_fixture(n, round, j),
        is_fixture(n, later, other),
        meet_on(
            circle_size(n),
            later,
            slot_at(n, later, other),
            sides_of(n, round, j).home,
            sides_of(n, round, j).guest,
        ),
    ensures
        round == later,
        j == other,
{
    let size = circle_size(n);
    let sides = sides_of(n, round, j);
    let a = if sides.home < sides.guest { sides.home } else { sides.guest };
    let b = if sides.home < sides.guest { sides.guest } else { sides.home };
    lemma_sides(n, round, j);
    lemma_sides(n, later, other);
    lemma_pair_meets_once(size, a, b, round, slot_at(n, round, j));
    lemma_pair_meets_once(size, a, b, later, slot_at(n, later, other));
}

/// With an even number of clubs any two of them meet in the half season: in
/// the round `meeting_round`, as the fixture with the number `meeting_slot`
/// of that round.
pub proof fn lemma_pair_has_fixture(n: int, a: int, b: int)
    requires
        2 <= n,
        n % 2 == 0,
        0 <= a < b < n,
    ensures
        is_fixture(n, meeting_round(n, a, b), meeting_slot(n, a, b)),
        meet_on(n, meeting_round(n, a, b), meeting_slot(n, a, b), a, b),
        sides_of(n, meeting_round(n, a, b), meeting_slot(n, a, b)) == pairing(
            n,
            meeting_round(n, a, b),
            meeting_slot(n, a, b),
        ),
{
    lemma_pair_meets(n, a, b);
}

} // verus!
