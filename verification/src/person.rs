//! What players and staff have in common as persons.

use crate::date::Date;
use vstd::prelude::*;

verus! {

/// A person's name.
#[derive(Debug, Clone)]
pub struct FullName {
    pub first_name: String,
    pub last_name: String,
    pub middle_name: String,
}

/// Personality ratings.
#[derive(Debug, Clone, Copy, PartialEq, Eq, Structural)]
pub struct PersonAttributes {
    pub adaptability: u8,
    pub ambition: u8,
    pub controversy: u8,
    pub loyalty: u8,
    pub pressure: u8,
    pub professionalism: u8,
    pub sportsmanship: u8,
    pub temperament: u8,
}

impl PersonAttributes {
    /// The attributes with every rating at `level`.
    pub open spec fn uniform(level: u8) -> PersonAttributes {
        PersonAttributes {
            adaptability: level,
            ambition: level,
            controversy: level,
            loyalty: level,
            pressure: level,
            professionalism: level,
            sportsmanship: level,
            temperament: level,
        }
    }
}

/// How a person currently conducts themself.
#[derive(Debug, Clone, Copy, PartialEq, Eq, Structural)]
pub enum PersonBehaviourState {
    Poor,
    Normal,
    Good,
}

/// A person's behaviour.
#[derive(Debug, Clone, Copy, PartialEq, Eq, Structural)]
pub struct PersonBehaviour {
    pub state: PersonBehaviourState,
}

impl PersonBehaviour {
    /// The behaviour one step better, where there is a better one.
    pub open spec fn increased(self) -> PersonBehaviour {
        match self.state {
            PersonBehaviourState::Poor => PersonBehaviour { state: PersonBehaviourState::Normal },
            PersonBehaviourState::Normal => PersonBehaviour { state: PersonBehaviourState::Good },
            PersonBehaviourState::Good => self,
        }
    }

    /// Improves the behaviour by one step; the best behaviour stays as it is.
    pub fn try_increase(&mut self)
        ensures
            *final(self) == old(self).increased(),
    {
        match self.state {
            PersonBehaviourState::Poor => {
                self.state = PersonBehaviourState::Normal;
            },
            PersonBehaviourState::Normal => {
                self.state = PersonBehaviourState::Good;
            },
            PersonBehaviourState::Good => {},
        }
    }
}

impl Default for PersonBehaviour {
    /// Normal behaviour.
    fn default() -> (r: PersonBehaviour)
        ensures
            r.state == PersonBehaviourState::Normal,
    {
        PersonBehaviour { state: PersonBehaviourState::Normal }
    }
}

/// How one person stands with another.
#[derive(Debug, Clone, Copy, PartialEq, Eq, Structural)]
pub struct Relation {
    pub person_id: u32,
    pub level: i8,
}

/// A person's ledger of relations to other persons.
#[derive(Debug, Clone)]
pub struct Relations {
    pub items: Vec<Relation>,
}

impl View for Relations {
    type V = Seq<Relation>;

    open spec fn view(&self) -> Seq<Relation> {
        self.items@
    }
}

impl Relations {
    /// The empty ledger.
    pub fn new() -> (r: Relations)
        ensures
            r@ == Seq::<Relation>::empty(),
    {
        Relations { items: Vec::new() }
    }
}

/// What can be asked of every person, player or staff.
pub trait Person {
    /// The person's identity.
    fn id(&self) -> u32;

    /// The person's name.
    fn fullname(&self) -> &FullName;

    /// The day the person was born.
    fn birthday(&self) -> Date;

    /// How the person currently conducts themself.
    fn behaviour(&self) -> &PersonBehaviour;

    /// The person's personality.
    fn attributes(&self) -> &PersonAttributes;

    /// The person's relations to others.
    fn relations(&self) -> &Relations;
}

} // verus!
