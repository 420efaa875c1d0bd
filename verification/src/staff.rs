//! Staff members and their daily tick.

use crate::date::{is_anniversary, Date};
use crate::context::SimulationContext;
use crate::person::{FullName, Person, PersonAttributes, PersonBehaviour, Relations};
use vstd::prelude::*;

verus! {

/// Day number of 1 January 2019, the birth date of the stub.
pub const STUB_BIRTH_DAY: i32 = 737_060;

/// The coaching licence a staff member holds.
#[derive(Debug, Clone, Copy, PartialEq, Eq, Structural)]
pub enum StaffLicenseType {
    ContinentalPro,
    ContinentalA,
    ContinentalB,
    ContinentalC,
    NationalA,
    NationalB,
    NationalC,
}

/// The post a staff member is employed in.
#[derive(Debug, Clone, Copy, PartialEq, Eq, Structural)]
pub enum StaffPosition {
    Chairman,
    Director,
    DirectorOfFootball,
    Manager,
    AssistantManager,
    Coach,
    GoalkeeperCoach,
    FitnessCoach,
    ChiefScout,
    Scout,
    Physio,
}

/// A staff member's employment with a club.
#[derive(Debug, Clone, Copy)]
pub struct StaffClubContract {
    pub club_id: u32,
    pub position: StaffPosition,
    /// The contract's last day.
    pub expiration: Date,
}

/// Coaching ratings.
#[derive(Debug, Clone, Copy, PartialEq, Eq, Structural)]
pub struct StaffCoaching {
    pub attacking: u8,
    pub defending: u8,
    pub fitness: u8,
    pub mental: u8,
    pub tactical: u8,
    pub technical: u8,
    pub working_with_youngsters: u8,
}

/// Goalkeeper coaching ratings.
#[derive(Debug, Clone, Copy, PartialEq, Eq, Structural)]
pub struct StaffGoalkeeperCoaching {
    pub distribution: u8,
    pub handling: u8,
    pub shot_stopping: u8,
}

/// Mental ratings.
#[derive(Debug, Clone, Copy, PartialEq, Eq, Structural)]
pub struct StaffMental {
    pub adaptability: u8,
    pub determination: u8,
    pub discipline: u8,
    pub man_management: u8,
    pub motivating: u8,
}

/// Knowledge ratings.
#[derive(Debug, Clone, Copy, PartialEq, Eq, Structural)]
pub struct StaffKnowledge {
    pub judging_player_ability: u8,
    pub judging_player_potential: u8,
    pub tactical_knowledge: u8,
}

/// Data analysis ratings.
#[derive(Debug, Clone, Copy, PartialEq, Eq, Structural)]
pub struct StaffDataAnalysis {
    pub judging_player_data: u8,
    pub judging_team_data: u8,
    pub presenting_data: u8,
}

/// Medical ratings.
#[derive(Debug, Clone, Copy, PartialEq, Eq, Structural)]
pub struct StaffMedical {
    pub physiotherapy: u8,
    pub sports_science: u8,
    pub non_player_tendencies: u8,
}

/// All the ratings of a staff member's skills.
#[derive(Debug, Clone, Copy, PartialEq, Eq, Structural)]
pub struct StaffAttributes {
    pub coaching: StaffCoaching,
    pub goalkeeping: StaffGoalkeeperCoaching,
    pub mental: StaffMental,
    pub knowledge: StaffKnowledge,
    pub data_analysis: StaffDataAnalysis,
    pub medical: StaffMedical,
}

impl StaffAttributes {
    /// The skills with every rating at `level`.
    pub open spec fn uniform(level: u8) -> StaffAttributes {
        StaffAttributes {
            coaching: StaffCoaching {
                attacking: level,
                defending: level,
                fitness: level,
                mental: level,
                tactical: level,
                technical: level,
                working_with_youngsters: level,
            },
            goalkeeping: StaffGoalkeeperCoaching {
                distribution: level,
                handling: level,
                shot_stopping: level,
            },
            mental: StaffMental {
                adaptability: level,
                determination: level,
                discipline: level,
                man_management: level,
                motivating: level,
            },
            knowledge: StaffKnowledge {
                judging_player_ability: level,
                judging_player_potential: level,
                tactical_knowledge: level,
            },
            data_analysis: StaffDataAnalysis {
                judging_player_data: level,
                judging_team_data: level,
                presenting_data: level,
            },
            medical: StaffMedical {
                physiotherapy: level,
                sports_science: level,
                non_player_tendencies: level,
            },
        }
    }
}

/// What a staff member's tick can report. Each event carries the identity of
/// the staff member it is about.
#[derive(Debug, Clone, Copy, PartialEq, Eq, Structural)]
pub enum StaffEvent {
    Birthday(u32),
    ContractExpired(u32),
}

/// A member of a club's staff.
#[derive(Debug, Clone)]
pub struct Staff {
    pub id: u32,
    pub full_name: FullName,
    pub country_id: u32,
    pub birth_date: Date,
    pub attributes: PersonAttributes,
    pub behaviour: PersonBehaviour,
    pub staff_attributes: StaffAttributes,
    pub contract: Option<StaffClubContract>,
    pub relations: Relations,
    pub license: StaffLicenseType,
}

impl Staff {
    /// Whether this is the stub: the placeholder with the identity 0 that
    /// stands in where no staff member could be found. It has no contract,
    /// the name "stub" in every part, the lowest licence and every rating
    /// at 1.
    pub open spec fn is_stub(&self) -> bool {
        &&& self.id == 0
        &&& self.full_name.first_name@ == "stub"@
        &&& self.full_name.last_name@ == "stub"@
        &&& self.full_name.middle_name@ == "stub"@
        &&& self.country_id == 0
        &&& self.birth_date@ == STUB_BIRTH_DAY
        &&& self.attributes == PersonAttributes::uniform(1)
        &&& self.behaviour.state == crate::person::PersonBehaviourState::Normal
        &&& self.staff_attributes == StaffAttributes::uniform(1)
        &&& self.contract.is_none()
        &&& self.relations@ == Seq::<crate::person::Relation>::empty()
        &&& self.license == StaffLicenseType::NationalC
    }

    /// Whether the staff member is employed in `position`. Without a contract
    /// a staff member holds no position.
    pub open spec fn holds(&self, position: StaffPosition) -> bool {
        self.contract.is_some() && self.contract.unwrap().position == position
    }

    /// Whether the staff member's contract has run out by the day `date`.
    pub open spec fn contract_ended(&self, date: int) -> bool {
        self.contract.is_some() && self.contract.unwrap().expiration@ <= date
    }

    /// What a tick of the day `date` reports, `birthday` saying whether that
    /// day is the staff member's birthday: the birthday, then the end of the
    /// contract, where it has been reached.
    pub open spec fn events_on(&self, birthday: bool, date: int) -> Seq<StaffEvent> {
        let first = if birthday {
            seq![StaffEvent::Birthday(self.id)]
        } else {
            Seq::<StaffEvent>::empty()
        };
        let second = if self.contract_ended(date) {
            seq![StaffEvent::ContractExpired(self.id)]
        } else {
            Seq::<StaffEvent>::empty()
        };
        first + second
    }

    /// The staff member after a tick of the day `date`: on a birthday the
    /// behaviour is one step better, and a contract that has run out is gone.
    pub open spec fn changed_on(self, birthday: bool, date: int) -> Staff {
        Staff {
            behaviour: if birthday {
                self.behaviour.increased()
            } else {
                self.behaviour
            },
            contract: if self.contract_ended(date) {
                None
            } else {
                self.contract
            },
            ..self
        }
    }

    /// What the tick of the day `date` reports.
    pub open spec fn tick_events(&self, date: int) -> Seq<StaffEvent> {
        self.events_on(is_anniversary(self.birth_date@, date), date)
    }

    /// The staff member after the tick of the day `date`.
    pub open spec fn ticked(self, date: int) -> Staff {
        self.changed_on(is_anniversary(self.birth_date@, date), date)
    }

    /// A staff member with normal behaviour and no relations yet.
    pub fn new(
        id: u32,
        full_name: FullName,
        country_id: u32,
        birth_date: Date,
        staff_attributes: StaffAttributes,
        contract: Option<StaffClubContract>,
        attributes: PersonAttributes,
        license: StaffLicenseType,
    ) -> (r: Staff)
        ensures
            r.id == id,
            r.full_name == full_name,
            r.country_id == country_id,
            r.birth_date == birth_date,
            r.staff_attributes == staff_attributes,
            r.contract == contract,
            r.attributes == attributes,
            r.license == license,
            r.behaviour.state == crate::person::PersonBehaviourState::Normal,
            r.relations@ == Seq::<crate::person::Relation>::empty(),
    {
        Staff {
            id,
            full_name,
            country_id,
            birth_date,
            staff_attributes,
            contract,
            behaviour: PersonBehaviour::default(),
            relations: Relations::new(),
            attributes,
            license,
        }
    }

    /// The stub.
    pub fn stub() -> (r: Staff)
        ensures
            r.is_stub(),
    {
        Staff {
            id: 0,
            full_name: FullName {
                first_name: "stub".to_string(),
                last_name: "stub".to_string(),
                middle_name: "stub".to_string(),
            },
            contract: None,
            country_id: 0,
            behaviour: PersonBehaviour::default(),
            birth_date: Date::from_day_number(STUB_BIRTH_DAY).unwrap(),
            relations: Relations::new(),
            license: StaffLicenseType::NationalC,
            attributes: PersonAttributes {
                adaptability: 1,
                ambition: 1,
                controversy: 1,
                loyalty: 1,
                pressure: 1,
                professionalism: 1,
                sportsmanship: 1,
                temperament: 1,
            },
            staff_attributes: StaffAttributes {
                coaching: StaffCoaching {
                    attacking: 1,
                    defending: 1,
                    fitness: 1,
                    mental: 1,
                    tactical: 1,
                    technical: 1,
                    working_with_youngsters: 1,
                },
                goalkeeping: StaffGoalkeeperCoaching {
                    distribution: 1,
                    handling: 1,
                    shot_stopping: 1,
                },
                mental: StaffMental {
                    adaptability: 1,
                    determination: 1,
                    discipline: 1,
                    man_management: 1,
                    motivating: 1,
                },
                knowledge: StaffKnowledge {
                    judging_player_ability: 1,
                    judging_player_potential: 1,
                    tactical_knowledge: 1,
                },
                data_analysis: StaffDataAnalysis {
                    judging_player_data: 1,
                    judging_team_data: 1,
                    presenting_data: 1,
                },
                medical: StaffMedical {
                    physiotherapy: 1,
                    sports_science: 1,
                    non_player_tendencies: 1,
                },
            },
        }
    }

    /// The tick of one day, `birthday` saying whether that day is the staff
    /// member's birthday. A birthday is reported and improves the behaviour
    /// by one step; a contract whose last day has been reached is reported as
    /// expired and cleared. Nothing else changes.
    pub fn tick(&mut self, birthday: bool, date: Date) -> (r: Vec<StaffEvent>)
        ensures
            *final(self) == old(self).changed_on(birthday, date@),
            r@ == old(self).events_on(birthday, date@),
    {
        let mut events: Vec<StaffEvent> = Vec::new();
        if birthday {
            self.behaviour.try_increase();
            events.push(StaffEvent::Birthday(self.id));
        }
        let today: i32 = date.day_number();
        let ended = match &self.contract {
            Some(contract) => contract.expiration.day_number() <= today,
            None => false,
        };
        if ended {
            self.contract = None;
            events.push(StaffEvent::ContractExpired(self.id));
        }
        assert(events@ =~= old(self).events_on(birthday, date@));
        events
    }

    /// The tick of the day of `context`: the birthday is the day with the
    /// month and the day of the month of the birth date.
    pub fn simulate(&mut self, context: &SimulationContext) -> (r: Vec<StaffEvent>)
        ensures
            *final(self) == old(self).ticked(context.date@),
            r@ == old(self).tick_events(context.date@),
    {
        let birthday = self.birth_date.is_birthday(context.date);
        self.tick(birthday, context.date)
    }
}

impl Person for Staff {
    fn id(&self) -> (r: u32)
        ensures
            r == self.id,
    {
        self.id
    }

    fn fullname(&self) -> (r: &FullName)
        ensures
            *r == self.full_name,
    {
        &self.full_name
    }

    fn birthday(&self) -> (r: Date)
        ensures
            r == self.birth_date,
    {
        self.birth_date
    }

    fn behaviour(&self) -> (r: &PersonBehaviour)
        ensures
            *r == self.behaviour,
    {
        &self.behaviour
    }

    fn attributes(&self) -> (r: &PersonAttributes)
        ensures
            *r == self.attributes,
    {
        &self.attributes
    }

    fn relations(&self) -> (r: &Relations)
        ensures
            *r == self.relations,
    {
        &self.relations
    }
}

} // verus!
