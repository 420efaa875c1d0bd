//! A club's youth academy.
//!
//! The academy keeps a pool of young players. When the pool has fewer players
//! than the settings ask for, the next tick takes in a new year of players.
//! How many they are is left to chance within fixed bounds, and who they are
//! is left to whoever generates players: both come to the academy as plain
//! values. A player of the pool counts as a graduate once somebody has
//! marked them as completed.

use crate::player::Player;
use crate::seq_facts::{lemma_filter_next, lemma_filter_nothing};
use std::ops::Range;
use vstd::prelude::*;

verus! {

/// The fewest players that one intake brings.
pub const MIN_INTAKE: i32 = 5;

/// The most players that one intake brings.
pub const MAX_INTAKE: i32 = 15;

/// What an academy aims for.
#[derive(Debug)]
pub struct AcademySettings {
    /// The size that the pool should have: below `start` the academy takes
    /// new players in.
    pub players_count_range: Range<u8>,
}

impl Default for AcademySettings {
    /// A pool of 30 to 50 players.
    fn default() -> (r: AcademySettings)
        ensures
            r.players_count_range.start == 30,
            r.players_count_range.end == 50,
    {
        AcademySettings { players_count_range: 30..50 }
    }
}

/// A player of the pool.
#[derive(Debug, Clone)]
pub struct AcademyPlayer {
    pub player: Player,
    /// Whether the player has completed the academy.
    pub completed: bool,
}

impl AcademyPlayer {
    /// `player` on the first day in the academy.
    pub open spec fn joining(player: Player) -> AcademyPlayer {
        AcademyPlayer { player, completed: false }
    }

    /// Takes `player` into the academy, not yet completed.
    pub fn from_player(player: Player) -> (r: AcademyPlayer)
        ensures
            r == AcademyPlayer::joining(player),
    {
        AcademyPlayer { player, completed: false }
    }
}

/// What a tick of the academy reports.
#[derive(Debug, Clone)]
pub struct ClubAcademyResult {
    /// The identities of the players who have completed the academy, in the
    /// order of the pool.
    pub completed_player_ids: Vec<u32>,
}

impl ClubAcademyResult {
    /// A report of nothing.
    pub fn new() -> (r: ClubAcademyResult)
        ensures
            r.completed_player_ids@ == Seq::<u32>::empty(),
    {
        ClubAcademyResult { completed_player_ids: Vec::new() }
    }
}

/// The youth academy of a club.
#[derive(Debug)]
pub struct ClubAcademy {
    pub settings: AcademySettings,
    pub players: Vec<AcademyPlayer>,
    pub level: u8,
}

/// The test "has completed the academy".
pub open spec fn has_completed() -> spec_fn(AcademyPlayer) -> bool {
    |member: AcademyPlayer| member.completed
}

/// The identities of those of `pool` who have completed the academy, in the
/// order of the pool.
pub open spec fn completed_ids(pool: Seq<AcademyPlayer>) -> Seq<u32> {
    pool.filter(has_completed()).map_values(|member: AcademyPlayer| member.player.id)
}

/// `players` as they join the academy.
pub open spec fn joining_all(players: Seq<Player>) -> Seq<AcademyPlayer> {
    players.map_values(|player: Player| AcademyPlayer::joining(player))
}

/// The number of players of an intake for which chance drew `draw`: the draw
/// itself where it lies within the bounds, else the nearer bound.
pub open spec fn intake_for(draw: int) -> int {
    if draw < MIN_INTAKE {
        MIN_INTAKE as int
    } else if draw > MAX_INTAKE {
        MAX_INTAKE as int
    } else {
        draw
    }
}

impl ClubAcademy {
    /// Whether the pool has fewer players than the settings ask for.
    pub open spec fn below_minimum(&self) -> bool {
        self.players@.len() < self.settings.players_count_range.start
    }

    /// An academy of the given level with an empty pool.
    pub fn new(level: u8) -> (r: ClubAcademy)
        ensures
            r.level == level,
            r.players@ == Seq::<AcademyPlayer>::empty(),
            r.settings.players_count_range.start == 30,
            r.settings.players_count_range.end == 50,
    {
        ClubAcademy { settings: AcademySettings::default(), players: Vec::new(), level }
    }

    /// Whether the next tick takes new players in.
    pub fn needs_intake(&self) -> (r: bool)
        ensures
            r == self.below_minimum(),
    {
        self.players.len() < self.settings.players_count_range.start as usize
    }

    /// How many players are to be generated for the next tick, `draw` being
    /// what chance gave: none while the pool is large enough, else between
    /// `MIN_INTAKE` and `MAX_INTAKE`.
    pub fn intake_size(&self, draw: i32) -> (r: usize)
        ensures
            r == if self.below_minimum() {
                intake_for(draw as int)
            } else {
                0
            },
    {
        if !self.needs_intake() {
            0
        } else if draw < MIN_INTAKE {
            MIN_INTAKE as usize
        } else if draw > MAX_INTAKE {
            MAX_INTAKE as usize
        } else {
            draw as usize
        }
    }

    /// Takes the players `generated` into the pool, behind those who are in
    /// it, each of them not yet completed.
    pub fn produce_youth_players(&mut self, generated: Vec<Player>)
        ensures
            final(self).players@ == old(self).players@ + joining_all(generated@),
            final(self).settings == old(self).settings,
            final(self).level == old(self).level,
    {
        let ghost before = self.players@;
        let ghost all = generated@;
        for player in iter: generated
            invariant
                iter.seq() == all,
                self.settings == old(self).settings,
                self.level == old(self).level,
                self.players@ == before + joining_all(all.take(iter.index() as int)),
        {
            self.players.push(AcademyPlayer::from_player(player));
            assert(self.players@ =~= before + joining_all(all.take(iter.index() + 1)));
        }
        assert(all.take(all.len() as int) =~= all);
    }

    /// The identities of the players of the pool who have completed the
    /// academy.
    pub fn graduates(&self) -> (r: Vec<u32>)
        ensures
            r@ == completed_ids(self.players@),
    {
        let mut ids: Vec<u32> = Vec::new();
        let mut i: usize = 0;
        proof {
            lemma_filter_nothing(self.players@, has_completed());
        }
        while i < self.players.len()
            invariant
                i <= self.players.len(),
                ids@ == completed_ids(self.players@.take(i as int)),
            decreases self.players.len() - i,
        {
            proof {
                lemma_filter_next(self.players@, i as int, has_completed());
            }
            if self.players[i].completed {
                ids.push(self.players[i].player.id);
            }
            assert(ids@ =~= completed_ids(self.players@.take(i + 1)));
            i += 1;
        }
        assert(self.players@.take(i as int) =~= self.players@);
        ids
    }

    /// The tick of one day. Where the pool has fewer players than the
    /// settings ask for, the players `generated` join it; else they are
    /// dropped. The report names the players who have completed the academy.
    pub fn simulate(&mut self, generated: Vec<Player>) -> (r: ClubAcademyResult)
        ensures
            final(self).players@ == if old(self).below_minimum() {
                old(self).players@ + joining_all(generated@)
            } else {
                old(self).players@
            },
            final(self).settings == old(self).settings,
            final(self).level == old(self).level,
            r.completed_player_ids@ == completed_ids(final(self).players@),
    {
        if self.needs_intake() {
            self.produce_youth_players(generated);
        }
        ClubAcademyResult { completed_player_ids: self.graduates() }
    }
}

} // verus!
