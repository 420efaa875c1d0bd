//! A club's staff directory, and who is in charge of what.
//!
//! A question "who looks after this matter?" always has an answer. The
//! directory asks the role registry first; a name found there counts only if
//! that person is on the staff. Failing that, the first staff member in the
//! order of the directory who holds the post that goes with the matter is in
//! charge. Failing that too, the answer is the stub: a placeholder with the
//! identity 0, so that nobody who asks has to deal with an absent answer.

use crate::context::SimulationContext;
use crate::responsibility::{ResponsibilityCategory, StaffResponsibility};
use crate::staff::{Staff, StaffEvent, StaffPosition};
use crate::team::TeamType;
use vstd::prelude::*;

verus! {

/// The staff of a club.
#[derive(Debug)]
pub struct StaffCollection {
    pub staffs: Vec<Staff>,
    pub manager: Option<Staff>,
    pub responsibility: StaffResponsibility,
    /// The placeholder that is handed out where nobody could be found.
    pub stub: Staff,
}

/// How a question to the directory was answered; a number is a place in the
/// directory.
#[derive(Debug, Clone, Copy, PartialEq, Eq, Structural)]
pub enum Resolution {
    /// By the staff member whom the registry names.
    Assigned(usize),
    /// By the first holder of the post that goes with the matter.
    ByPosition(usize),
    /// By nobody: the stub stands in.
    Stub,
}

/// The test "has the identity `id`".
pub open spec fn with_id(id: u32) -> spec_fn(Staff) -> bool {
    |staff: Staff| staff.id == id
}

/// The test "is employed in `position`".
pub open spec fn in_position(position: StaffPosition) -> spec_fn(Staff) -> bool {
    |staff: Staff| staff.holds(position)
}

/// The place of the first staff member who passes the test `wanted`.
pub open spec fn first_index(staffs: Seq<Staff>, wanted: spec_fn(Staff) -> bool) -> Option<int>
    decreases staffs.len(),
{
    if staffs.len() == 0 {
        None
    } else {
        match first_index(staffs.drop_last(), wanted) {
            Some(i) => Some(i),
            None => if wanted(staffs.last()) {
                Some(staffs.len() - 1)
            } else {
                None
            },
        }
    }
}

/// `first_index` gives a place whose staff member passes the test, with nobody
/// before who does; it gives none only where nobody passes.
pub proof fn lemma_first_index(staffs: Seq<Staff>, wanted: spec_fn(Staff) -> bool)
    ensures
        match first_index(staffs, wanted) {
            Some(i) => {
                &&& 0 <= i < staffs.len()
                &&& wanted(staffs[i])
                &&& forall|j: int| 0 <= j < i ==> !wanted(#[trigger] staffs[j])
            },
            None => forall|j: int| 0 <= j < staffs.len() ==> !wanted(#[trigger] staffs[j]),
        },
    decreases staffs.len(),
{
    if staffs.len() > 0 {
        lemma_first_index(staffs.drop_last(), wanted);
        assert forall|j: int| 0 <= j < staffs.len() - 1 implies staffs.drop_last()[j]
            == staffs[j] by {}
        match first_index(staffs.drop_last(), wanted) {
            Some(i) => {
                assert(staffs.drop_last()[i] == staffs[i]);
                assert forall|j: int| 0 <= j < i implies !wanted(#[trigger] staffs[j]) by {
                    assert(staffs.drop_last()[j] == staffs[j]);
                }
            },
            None => {
                assert forall|j: int| 0 <= j < staffs.len() - 1 implies !wanted(
                    #[trigger] staffs[j],
                ) by {
                    assert(staffs.drop_last()[j] == staffs[j]);
                }
            },
        }
    }
}

/// The sequence of events that the ticks of `staffs` report on the day `date`,
/// staff member after staff member in the order of the directory.
pub open spec fn events_of(staffs: Seq<Staff>, date: int) -> Seq<StaffEvent>
    decreases staffs.len(),
{
    if staffs.len() == 0 {
        Seq::<StaffEvent>::empty()
    } else {
        events_of(staffs.drop_last(), date) + staffs.last().tick_events(date)
    }
}

impl StaffCollection {
    /// The directory is sound: what it hands out as the stub is the stub.
    /// Every directory that `new` made is sound and stays so.
    pub open spec fn wf(&self) -> bool {
        self.stub.is_stub()
    }

    /// The place of the staff member whom the registry names for `category`,
    /// where it names one who is on the staff.
    pub open spec fn assignee(&self, category: ResponsibilityCategory) -> Option<int> {
        match self.responsibility.assigned(category) {
            Some(id) => first_index(self.staffs@, with_id(id)),
            None => None,
        }
    }

    /// How the question "who looks after `category`?" is answered.
    pub open spec fn resolved(&self, category: ResponsibilityCategory) -> Resolution {
        match self.assignee(category) {
            Some(i) => Resolution::Assigned(i as usize),
            None => match first_index(self.staffs@, in_position(category.fallback())) {
                Some(i) => Resolution::ByPosition(i as usize),
                None => Resolution::Stub,
            },
        }
    }

    /// The staff member that an answer names: the one at its place, or the
    /// stub.
    pub open spec fn staff_at(&self, resolution: Resolution) -> Staff {
        match resolution {
            Resolution::Assigned(i) => if i < self.staffs@.len() {
                self.staffs@[i as int]
            } else {
                self.stub
            },
            Resolution::ByPosition(i) => if i < self.staffs@.len() {
                self.staffs@[i as int]
            } else {
                self.stub
            },
            Resolution::Stub => self.stub,
        }
    }

    /// The first holder of `position`, or the stub.
    pub open spec fn holder(&self, position: StaffPosition) -> Staff {
        match first_index(self.staffs@, in_position(position)) {
            Some(i) => self.staffs@[i],
            None => self.stub,
        }
    }

    /// The matter that the training of the team `team_type` is.
    pub open spec fn training_category(team_type: TeamType) -> ResponsibilityCategory {
        match team_type {
            TeamType::Main => ResponsibilityCategory::TrainingFirstTeam,
            _ => ResponsibilityCategory::TrainingYouthTeam,
        }
    }

    /// The matter that the contracts of the team `team_type` are.
    pub open spec fn contract_category(team_type: TeamType) -> ResponsibilityCategory {
        match team_type {
            TeamType::Main => ResponsibilityCategory::FirstTeamContracts,
            TeamType::B => ResponsibilityCategory::OtherStaffContracts,
            _ => ResponsibilityCategory::YouthTeamContracts,
        }
    }

    /// A directory of `staffs` under `manager`, with an empty registry.
    pub fn new(staffs: Vec<Staff>, manager: Option<Staff>) -> (r: StaffCollection)
        ensures
            r.wf(),
            r.staffs == staffs,
            r.manager == manager,
            forall|category: ResponsibilityCategory|
                r.responsibility.assigned(category).is_none(),
    {
        StaffCollection {
            staffs,
            manager,
            responsibility: StaffResponsibility::default(),
            stub: Staff::stub(),
        }
    }

    /// The place of the first staff member with the identity `id`.
    pub fn find_by_id(&self, id: u32) -> (r: Option<usize>)
        ensures
            match r {
                Some(i) => i < self.staffs@.len() && first_index(self.staffs@, with_id(id)) == Some(
                    i as int,
                ),
                None => first_index(self.staffs@, with_id(id)).is_none(),
            },
    {
        let mut i: usize = 0;
        while i < self.staffs.len()
            invariant
                i <= self.staffs.len(),
                forall|j: int| 0 <= j < i ==> !with_id(id)(#[trigger] self.staffs@[j]),
            decreases self.staffs.len() - i,
        {
            if self.staffs[i].id == id {
                proof {
                    lemma_first_index(self.staffs@, with_id(id));
                }
                return Some(i);
            }
            i += 1;
        }
        proof {
            lemma_first_index(self.staffs@, with_id(id));
        }
        None
    }

    /// The place of the first staff member who is employed in `position`.
    pub fn find_by_position(&self, position: StaffPosition) -> (r: Option<usize>)
        ensures
            match r {
                Some(i) => i < self.staffs@.len() && first_index(self.staffs@, in_position(position)) == Some(
                    i as int,
                ),
                None => first_index(self.staffs@, in_position(position)).is_none(),
            },
    {
        let mut i: usize = 0;
        while i < self.staffs.len()
            invariant
                i <= self.staffs.len(),
                forall|j: int| 0 <= j < i ==> !in_position(position)(#[trigger] self.staffs@[j]),
            decreases self.staffs.len() - i,
        {
            let employed = match &self.staffs[i].contract {
                Some(contract) => contract.position == position,
                None => false,
            };
            if employed {
                proof {
                    lemma_first_index(self.staffs@, in_position(position));
                }
                return Some(i);
            }
            i += 1;
        }
        proof {
            lemma_first_index(self.staffs@, in_position(position));
        }
        None
    }

    /// The first staff member with the identity `id`, if there is one.
    pub fn get_by_id(&self, id: u32) -> (r: Option<&Staff>)
        ensures
            match first_index(self.staffs@, with_id(id)) {
                Some(i) => r == Some(&self.staffs@[i]),
                None => r.is_none(),
            },
    {
        match self.find_by_id(id) {
            Some(i) => Some(&self.staffs[i]),
            None => None,
        }
    }

    /// The first staff member who is employed in `position`, or the stub
    /// where nobody is.
    pub fn get_by_position(&self, position: StaffPosition) -> (r: &Staff)
        ensures
            *r == self.holder(position),
    {
        match self.find_by_position(position) {
            Some(i) => &self.staffs[i],
            None => &self.stub,
        }
    }

    /// Decides who looks after `category`: the staff member whom the
    /// registry names, if on the staff; else the first holder of the post
    /// that goes with the matter; else the stub.
    pub fn resolution(&self, category: ResponsibilityCategory) -> (r: Resolution)
        ensures
            r == self.resolved(category),
            match r {
                Resolution::Assigned(i) => i < self.staffs@.len(),
                Resolution::ByPosition(i) => i < self.staffs@.len(),
                Resolution::Stub => true,
            },
    {
        let named = match self.responsibility.assignment(category) {
            Some(id) => self.find_by_id(id),
            None => None,
        };
        proof {
            lemma_first_index(self.staffs@, in_position(category.fallback()));
            if self.responsibility.assigned(category).is_some() {
                lemma_first_index(
                    self.staffs@,
                    with_id(self.responsibility.assigned(category).unwrap()),
                );
            }
        }
        match named {
            Some(i) => Resolution::Assigned(i),
            None => match self.find_by_position(category.fallback_position()) {
                Some(i) => Resolution::ByPosition(i),
                None => Resolution::Stub,
            },
        }
    }

    /// The staff member that an answer names; the stub for an answer that
    /// names a place outside the directory.
    pub fn staff(&self, resolution: Resolution) -> (r: &Staff)
        ensures
            *r == self.staff_at(resolution),
    {
        match resolution {
            Resolution::Assigned(i) => if i < self.staffs.len() {
                &self.staffs[i]
            } else {
                &self.stub
            },
            Resolution::ByPosition(i) => if i < self.staffs.len() {
                &self.staffs[i]
            } else {
                &self.stub
            },
            Resolution::Stub => &self.stub,
        }
    }

    /// Who looks after `category`. There is always an answer.
    pub fn resolve(&self, category: ResponsibilityCategory) -> (r: &Staff)
        ensures
            *r == self.staff_at(self.resolved(category)),
    {
        self.staff(self.resolution(category))
    }

    /// Who trains the team `team_type`: the first team has its own entry in
    /// the registry, all other teams share the one for youth training.
    pub fn training_coach(&self, team_type: &TeamType) -> (r: &Staff)
        ensures
            *r == self.staff_at(self.resolved(Self::training_category(*team_type))),
    {
        let category = match team_type {
            TeamType::Main => ResponsibilityCategory::TrainingFirstTeam,
            _ => ResponsibilityCategory::TrainingYouthTeam,
        };
        self.resolve(category)
    }

    /// The manager, as far as the club has named one.
    pub fn get_main_coach(&self) -> (r: Option<&Staff>)
        ensures
            match self.manager {
                Some(manager) => r == Some(&manager),
                None => r.is_none(),
            },
    {
        self.manager.as_ref()
    }

    /// The head of the club: the manager, or without one the first assistant
    /// manager, or without one the stub.
    pub fn head_coach(&self) -> (r: &Staff)
        ensures
            *r == match self.manager {
                Some(manager) => manager,
                None => self.holder(StaffPosition::AssistantManager),
            },
    {
        match &self.manager {
            Some(head_coach) => head_coach,
            None => self.get_by_position(StaffPosition::AssistantManager),
        }
    }

    /// Who renews the contracts of the team `team_type`: the first team and
    /// the B team have entries of their own in the registry, all other teams
    /// share the one for youth contracts.
    pub fn contract_resolver(&self, team_type: TeamType) -> (r: &Staff)
        ensures
            *r == self.staff_at(self.resolved(Self::contract_category(team_type))),
    {
        let category = match team_type {
            TeamType::Main => ResponsibilityCategory::FirstTeamContracts,
            TeamType::B => ResponsibilityCategory::OtherStaffContracts,
            _ => ResponsibilityCategory::YouthTeamContracts,
        };
        self.resolve(category)
    }

    /// The tick of one day for every staff member of the directory, in its
    /// order. The events come back in that order; the manager, the registry
    /// and the stub stay as they are.
    pub fn simulate(&mut self, context: &SimulationContext) -> (r: Vec<StaffEvent>)
        ensures
            final(self).staffs@.len() == old(self).staffs@.len(),
            forall|i: int|
                0 <= i < old(self).staffs@.len() ==> #[trigger] final(self).staffs@[i] == old(
                    self,
                ).staffs@[i].ticked(context.date@),
            final(self).manager == old(self).manager,
            final(self).responsibility == old(self).responsibility,
            final(self).stub == old(self).stub,
            r@ == events_of(old(self).staffs@, context.date@),
    {
        let mut events: Vec<StaffEvent> = Vec::new();
        let mut i: usize = 0;
        while i < self.staffs.len()
            invariant
                i <= self.staffs.len(),
                self.staffs@.len() == old(self).staffs@.len(),
                self.manager == old(self).manager,
                self.responsibility == old(self).responsibility,
                self.stub == old(self).stub,
                forall|j: int|
                    0 <= j < i ==> #[trigger] self.staffs@[j] == old(self).staffs@[j].ticked(
                        context.date@,
                    ),
                forall|j: int|
                    i <= j < self.staffs@.len() ==> #[trigger] self.staffs@[j] == old(
                        self,
                    ).staffs@[j],
                events@ == events_of(old(self).staffs@.take(i as int), context.date@),
            decreases self.staffs.len() - i,
        {
            let mut reported = self.staffs[i].simulate(context);
            proof {
                let before = old(self).staffs@;
                assert(before.take(i + 1).drop_last() =~= before.take(i as int));
                assert(before.take(i + 1).last() == before[i as int]);
            }
            events.append(&mut reported);
            i += 1;
        }
        assert(old(self).staffs@.take(i as int) =~= old(self).staffs@);
        events
    }
}

/// Where the registry names nobody for a matter and nobody on the staff
/// holds the post that goes with it, the answer is the stub, whose identity
/// is 0.
pub proof fn lemma_unresolved_is_stub(directory: StaffCollection, category: ResponsibilityCategory)
    requires
        directory.wf(),
        directory.responsibility.assigned(category).is_none(),
        forall|i: int|
            0 <= i < directory.staffs@.len() ==> !(#[trigger] directory.staffs@[i]).holds(
                category.fallback(),
            ),
    ensures
        directory.resolved(category) == Resolution::Stub,
        directory.staff_at(directory.resolved(category)).is_stub(),
        directory.staff_at(directory.resolved(category)).id == 0,
{
    lemma_first_index(directory.staffs@, in_position(category.fallback()));
}

/// The answer to a question rests on the registry and on the identities and
/// posts of the staff, in the order of the directory, and on nothing else:
/// two directories that agree in these give the same answer. So asking twice
/// with nothing changed in between gives the same staff member twice.
pub proof fn lemma_resolution_is_stable(
    first: StaffCollection,
    second: StaffCollection,
    category: ResponsibilityCategory,
)
    requires
        first.responsibility == second.responsibility,
        first.staffs@.len() == second.staffs@.len(),
        forall|i: int|
            #![trigger first.staffs@[i]]
            #![trigger second.staffs@[i]]
            0 <= i < first.staffs@.len() ==> first.staffs@[i].id == second.staffs@[i].id && (
            forall|position: StaffPosition|
                first.staffs@[i].holds(position) == second.staffs@[i].holds(position)),
    ensures
        first.resolved(category) == second.resolved(category),
        first.wf() && second.wf() ==> first.staff_at(first.resolved(category)).id
            == second.staff_at(second.resolved(category)).id,
{
    let position = category.fallback();
    lemma_first_index(first.staffs@, in_position(position));
    lemma_first_index(second.staffs@, in_position(position));
    if first.responsibility.assigned(category).is_some() {
        let id = first.responsibility.assigned(category).unwrap();
        lemma_first_index(first.staffs@, with_id(id));
        lemma_first_index(second.staffs@, with_id(id));
    }
}

} // verus!
