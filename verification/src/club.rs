//! The club aggregate.
//!
//! A club owns its roster, its staff directory and its board. Its tick runs
//! the ticks of what it owns and hands back the events they reported. What
//! follows from an event is not decided here: whoever runs the club's tick
//! passes the events on.

use crate::context::SimulationContext;
use crate::date::Date;
use crate::player::{PlayerCollection, PlayerEvent, Squad};
use crate::staff::StaffEvent;
use crate::staff_collection::StaffCollection;
use vstd::prelude::*;

verus! {

/// How a team lines up.
#[derive(Debug, Clone, Copy, PartialEq, Eq, Structural)]
pub enum TacticsPositioning {
    T442,
    T433,
    T451,
    T352,
}

/// A club's tactics.
#[derive(Debug, Clone, Copy, PartialEq, Eq, Structural)]
pub struct Tactics {
    pub positioning: TacticsPositioning,
}

/// A club's board.
#[derive(Debug, Clone, Copy)]
pub struct ClubBoard {
    /// The day of the board's last tick.
    pub last_meeting: Option<Date>,
}

impl ClubBoard {
    /// A board that has not met yet.
    pub fn new() -> (r: ClubBoard)
        ensures
            r.last_meeting.is_none(),
    {
        ClubBoard { last_meeting: None }
    }

    /// The tick of one day: the board notes the day.
    pub fn simulate(&mut self, context: &SimulationContext)
        ensures
            final(self).last_meeting == Some(context.date),
    {
        self.last_meeting = Some(context.date);
    }
}

/// What a club's tick reports: the events of its players, then those of its
/// staff, each in the order in which the ticks reported them.
#[derive(Debug)]
pub struct ClubResult {
    pub player_events: Vec<PlayerEvent>,
    pub staff_events: Vec<StaffEvent>,
}

/// A club of the league.
#[derive(Debug)]
pub struct Club {
    pub id: u32,
    pub name: String,
    pub board: ClubBoard,
    pub players: PlayerCollection,
    pub staffs: StaffCollection,
    pub tactics: Option<Tactics>,
}

impl Club {
    /// A club with the identity `id`, a board that has not met yet and no
    /// tactics chosen.
    pub fn new(id: u32, name: String, players: PlayerCollection, staffs: StaffCollection) -> (r:
        Club)
        ensures
            r.id == id,
            r.name == name,
            r.players == players,
            r.staffs == staffs,
            r.board.last_meeting.is_none(),
            r.tactics.is_none(),
    {
        Club { id, board: ClubBoard::new(), name, players, staffs, tactics: None }
    }

    /// How many players the club has.
    pub fn items_count(&self) -> (r: usize)
        ensures
            r == self.players.players@.len(),
    {
        self.players.len()
    }

    /// The squad for a match: the roster under the club's manager, or under
    /// the stub where the club has no manager.
    pub fn get_match_squad(&self) -> (r: Squad)
        ensures
            r.coach_id == match self.staffs.manager {
                Some(manager) => manager.id,
                None => self.staffs.stub.id,
            },
            r.players@ == crate::player::player_ids(self.players.players@),
    {
        match self.staffs.get_main_coach() {
            Some(coach) => self.players.get_match_squad(coach),
            None => self.players.get_match_squad(&self.staffs.stub),
        }
    }

    /// The tick of one day: every player's tick, then every staff member's,
    /// then the board's. The club keeps its identity, its name and its
    /// tactics.
    pub fn simulate(&mut self, context: &SimulationContext) -> (r: ClubResult)
        ensures
            final(self).id == old(self).id,
            final(self).name == old(self).name,
            final(self).tactics == old(self).tactics,
            final(self).board.last_meeting == Some(context.date),
            final(self).players.players@.len() == old(self).players.players@.len(),
            forall|i: int|
                0 <= i < old(self).players.players@.len() ==> #[trigger] final(self).players.players@[i]
                    == old(self).players.players@[i].ticked(context.date@),
            final(self).staffs.staffs@.len() == old(self).staffs.staffs@.len(),
            forall|i: int|
                0 <= i < old(self).staffs.staffs@.len() ==> #[trigger] final(self).staffs.staffs@[i]
                    == old(self).staffs.staffs@[i].ticked(context.date@),
            final(self).staffs.manager == old(self).staffs.manager,
            final(self).staffs.responsibility == old(self).staffs.responsibility,
            final(self).staffs.stub == old(self).staffs.stub,
            r.player_events@ == crate::player::events_of(
                old(self).players.players@,
                context.date@,
            ),
            r.staff_events@ == crate::staff_collection::events_of(
                old(self).staffs.staffs@,
                context.date@,
            ),
    {
        let player_events = self.players.simulate(context);
        let staff_events = self.staffs.simulate(context);
        self.board.simulate(context);
        ClubResult { player_events, staff_events }
    }
}

} // verus!
