//! Players, the roster of a club, and their daily tick.

use crate::context::SimulationContext;
use crate::date::{is_anniversary, Date};
use crate::person::{FullName, Person, PersonAttributes, PersonBehaviour, Relations};
use crate::staff::Staff;
use vstd::prelude::*;

verus! {

/// A player's employment with a club.
#[derive(Debug, Clone, Copy)]
pub struct PlayerClubContract {
    pub club_id: u32,
    /// The contract's last day.
    pub expiration: Date,
}

/// What a player's tick can report. Each event carries the identity of the
/// player it is about.
#[derive(Debug, Clone, Copy, PartialEq, Eq, Structural)]
pub enum PlayerEvent {
    Birthday(u32),
    ContractExpired(u32),
}

/// A player.
#[derive(Debug, Clone)]
pub struct Player {
    pub id: u32,
    pub full_name: FullName,
    pub country_id: u32,
    pub birth_date: Date,
    pub attributes: PersonAttributes,
    pub behaviour: PersonBehaviour,
    pub contract: Option<PlayerClubContract>,
    pub relations: Relations,
}

impl Player {
    /// Whether the player's contract has run out by the day `date`.
    pub open spec fn contract_ended(&self, date: int) -> bool {
        self.contract.is_some() && self.contract.unwrap().expiration@ <= date
    }

    /// What a tick of the day `date` reports, `birthday` saying whether that
    /// day is the player's birthday: the birthday, then the end of the
    /// contract, where it has been reached.
    pub open spec fn events_on(&self, birthday: bool, date: int) -> Seq<PlayerEvent> {
        let first = if birthday {
            seq![PlayerEvent::Birthday(self.id)]
        } else {
            Seq::<PlayerEvent>::empty()
        };
        let second = if self.contract_ended(date) {
            seq![PlayerEvent::ContractExpired(self.id)]
        } else {
            Seq::<PlayerEvent>::empty()
        };
        first + second
    }

    /// The player after a tick of the day `date`: on a birthday the behaviour
    /// is one step better, and a contract that has run out is gone.
    pub open spec fn changed_on(self, birthday: bool, date: int) -> Player {
        Player {
            behaviour: if birthday {
                self.behaviour.increased()
            } else {
                self.behaviour
            },
            contract: if self.contract_ended(date) {
                None
            } else {
                self.contract
            },
            ..self
        }
    }

    /// What the tick of the day `date` reports.
    pub open spec fn tick_events(&self, date: int) -> Seq<PlayerEvent> {
        self.events_on(is_anniversary(self.birth_date@, date), date)
    }

    /// The player after the tick of the day `date`.
    pub open spec fn ticked(self, date: int) -> Player {
        self.changed_on(is_anniversary(self.birth_date@, date), date)
    }

    /// A player with normal behaviour and no relations yet.
    pub fn new(
        id: u32,
        full_name: FullName,
        country_id: u32,
        birth_date: Date,
        attributes: PersonAttributes,
        contract: Option<PlayerClubContract>,
    ) -> (r: Player)
        ensures
            r.id == id,
            r.full_name == full_name,
            r.country_id == country_id,
            r.birth_date == birth_date,
            r.attributes == attributes,
            r.contract == contract,
            r.behaviour.state == crate::person::PersonBehaviourState::Normal,
            r.relations@ == Seq::<crate::person::Relation>::empty(),
    {
        Player {
            id,
            full_name,
            country_id,
            birth_date,
            attributes,
            behaviour: PersonBehaviour::default(),
            contract,
            relations: Relations::new(),
        }
    }

    /// The tick of one day, `birthday` saying whether that day is the
    /// player's birthday. A birthday is reported and improves the behaviour by
    /// one step; a contract whose last day has been reached is reported as
    /// expired and cleared. Nothing else changes.
    pub fn tick(&mut self, birthday: bool, date: Date) -> (r: Vec<PlayerEvent>)
        ensures
            *final(self) == old(self).changed_on(birthday, date@),
            r@ == old(self).events_on(birthday, date@),
    {
        let mut events: Vec<PlayerEvent> = Vec::new();
        if birthday {
            self.behaviour.try_increase();
            events.push(PlayerEvent::Birthday(self.id));
        }
        let today: i32 = date.day_number();
        let ended = match &self.contract {
            Some(contract) => contract.expiration.day_number() <= today,
            None => false,
        };
        if ended {
            self.contract = None;
            events.push(PlayerEvent::ContractExpired(self.id));
        }
        assert(events@ =~= old(self).events_on(birthday, date@));
        events
    }

    /// The tick of the day of `context`: the birthday is the day with the
    /// month and the day of the month of the birth date.
    pub fn simulate(&mut self, context: &SimulationContext) -> (r: Vec<PlayerEvent>)
        ensures
            *final(self) == old(self).ticked(context.date@),
            r@ == old(self).tick_events(context.date@),
    {
        let birthday = self.birth_date.is_birthday(context.date);
        self.tick(birthday, context.date)
    }
}

impl Person for Player {
    fn id(&self) -> (r: u32)
        ensures
            r == self.id,
    {
        self.id
    }

    fn fullname(&self) -> (r: &FullName)
        ensures
            *r == self.full_name,
    {
        &self.full_name
    }

    fn birthday(&self) -> (r: Date)
        ensures
            r == self.birth_date,
    {
        self.birth_date
    }

    fn behaviour(&self) -> (r: &PersonBehaviour)
        ensures
            *r == self.behaviour,
    {
        &self.behaviour
    }

    fn attributes(&self) -> (r: &PersonAttributes)
        ensures
            *r == self.attributes,
    {
        &self.attributes
    }

    fn relations(&self) -> (r: &Relations)
        ensures
            *r == self.relations,
    {
        &self.relations
    }
}

/// Who takes the field for a club, and under whom.
#[derive(Debug, Clone)]
pub struct Squad {
    pub coach_id: u32,
    pub players: Vec<u32>,
}

/// The roster of a club.
#[derive(Debug, Clone)]
pub struct PlayerCollection {
    pub players: Vec<Player>,
}

/// The identities of `players`, in their order.
pub open spec fn player_ids(players: Seq<Player>) -> Seq<u32> {
    players.map_values(|player: Player| player.id)
}

/// The sequence of events that the ticks of `players` report on the day
/// `date`, player after player in the order of the roster.
pub open spec fn events_of(players: Seq<Player>, date: int) -> Seq<PlayerEvent>
    decreases players.len(),
{
    if players.len() == 0 {
        Seq::<PlayerEvent>::empty()
    } else {
        events_of(players.drop_last(), date) + players.last().tick_events(date)
    }
}

impl PlayerCollection {
    /// The roster of `players`.
    pub fn new(players: Vec<Player>) -> (r: PlayerCollection)
        ensures
            r.players == players,
    {
        PlayerCollection { players }
    }

    /// How many players the roster has.
    pub fn len(&self) -> (r: usize)
        ensures
            r == self.players@.len(),
    {
        self.players.len()
    }

    /// The squad for a match under `coach`: the whole roster, in its order.
    pub fn get_match_squad(&self, coach: &Staff) -> (r: Squad)
        ensures
            r.coach_id == coach.id,
            r.players@ == player_ids(self.players@),
    {
        let mut chosen: Vec<u32> = Vec::new();
        let mut i: usize = 0;
        while i < self.players.len()
            invariant
                i <= self.players.len(),
                chosen@ == player_ids(self.players@.take(i as int)),
            decreases self.players.len() - i,
        {
            chosen.push(self.players[i].id);
            assert(chosen@ =~= player_ids(self.players@.take(i + 1)));
            i += 1;
        }
        assert(self.players@.take(i as int) =~= self.players@);
        Squad { coach_id: coach.id, players: chosen }
    }

    /// The tick of one day for every player of the roster, in its order. The
    /// events come back in that order.
    pub fn simulate(&mut self, context: &SimulationContext) -> (r: Vec<PlayerEvent>)
        ensures
            final(self).players@.len() == old(self).players@.len(),
            forall|i: int|
                0 <= i < old(self).players@.len() ==> #[trigger] final(self).players@[i] == old(
                    self,
                ).players@[i].ticked(context.date@),
            r@ == events_of(old(self).players@, context.date@),
    {
        let mut events: Vec<PlayerEvent> = Vec::new();
        let mut i: usize = 0;
        while i < self.players.len()
            invariant
                i <= self.players.len(),
                self.players@.len() == old(self).players@.len(),
                forall|j: int|
                    0 <= j < i ==> #[trigger] self.players@[j] == old(self).players@[j].ticked(
                        context.date@,
                    ),
                forall|j: int|
                    i <= j < self.players@.len() ==> #[trigger] self.players@[j] == old(
                        self,
                    ).players@[j],
                events@ == events_of(old(self).players@.take(i as int), context.date@),
            decreases self.players.len() - i,
        {
            let mut reported = self.players[i].simulate(context);
            proof {
                let before = old(self).players@;
                assert(before.take(i + 1).drop_last() =~= before.take(i as int));
                assert(before.take(i + 1).last() == before[i as int]);
            }
            events.append(&mut reported);
            i += 1;
        }
        assert(old(self).players@.take(i as int) =~= old(self).players@);
        events
    }
}

} // verus!
