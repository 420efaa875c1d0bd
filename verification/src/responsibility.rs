//! The role registry: which staff member a club has put in charge of what.
//!
//! Every entry is optional. An entry that is not set, or that names someone
//! who is not on the staff, is no error: whoever asks falls back on the post
//! that goes with the matter.

use crate::staff::StaffPosition;
use vstd::prelude::*;

verus! {

/// Who deals with the board.
#[derive(Debug, Clone, Copy, PartialEq, Eq, Structural)]
pub struct BoardResponsibility {
    pub board_matters: Option<u32>,
}

/// Who hires.
#[derive(Debug, Clone, Copy, PartialEq, Eq, Structural)]
pub struct RecruitmentResponsibility {
    pub recruitment: Option<u32>,
}

/// Who decides on players coming in.
#[derive(Debug, Clone, Copy, PartialEq, Eq, Structural)]
pub struct IncomingTransfersResponsibility {
    pub incoming_transfers: Option<u32>,
}

/// Who decides on players going out.
#[derive(Debug, Clone, Copy, PartialEq, Eq, Structural)]
pub struct OutgoingTransfersResponsibility {
    pub outgoing_transfers: Option<u32>,
}

/// Who renews which contracts.
#[derive(Debug, Clone, Copy, PartialEq, Eq, Structural)]
pub struct ContractRenewalResponsibility {
    pub handle_first_team_contracts: Option<u32>,
    pub handle_youth_team_contracts: Option<u32>,
    pub handle_director_of_football_contract: Option<u32>,
    pub handle_other_staff_contracts: Option<u32>,
}

/// Who runs the scouting.
#[derive(Debug, Clone, Copy, PartialEq, Eq, Structural)]
pub struct ScoutingResponsibility {
    pub scouting: Option<u32>,
}

/// Who trains which team.
#[derive(Debug, Clone, Copy, PartialEq, Eq, Structural)]
pub struct TrainingResponsibility {
    pub training_first_team: Option<u32>,
    pub training_youth_team: Option<u32>,
}

/// A club's role registry.
#[derive(Debug, Clone, Copy, PartialEq, Eq, Structural)]
pub struct StaffResponsibility {
    pub board: BoardResponsibility,
    pub recruitment: RecruitmentResponsibility,
    pub incoming_transfers: IncomingTransfersResponsibility,
    pub outgoing_transfers: OutgoingTransfersResponsibility,
    pub contract_renewal: ContractRenewalResponsibility,
    pub scouting: ScoutingResponsibility,
    pub training: TrainingResponsibility,
}

/// The matters that the registry has an entry for.
#[derive(Debug, Clone, Copy, PartialEq, Eq, Structural)]
pub enum ResponsibilityCategory {
    TrainingFirstTeam,
    TrainingYouthTeam,
    FirstTeamContracts,
    YouthTeamContracts,
    OtherStaffContracts,
    DirectorOfFootballContract,
    Scouting,
    Recruitment,
    IncomingTransfers,
    OutgoingTransfers,
    Board,
}

impl Default for BoardResponsibility {
    fn default() -> (r: BoardResponsibility)
        ensures
            r.board_matters.is_none(),
    {
        BoardResponsibility { board_matters: None }
    }
}

impl Default for RecruitmentResponsibility {
    fn default() -> (r: RecruitmentResponsibility)
        ensures
            r.recruitment.is_none(),
    {
        RecruitmentResponsibility { recruitment: None }
    }
}

impl Default for IncomingTransfersResponsibility {
    fn default() -> (r: IncomingTransfersResponsibility)
        ensures
            r.incoming_transfers.is_none(),
    {
        IncomingTransfersResponsibility { incoming_transfers: None }
    }
}

impl Default for OutgoingTransfersResponsibility {
    fn default() -> (r: OutgoingTransfersResponsibility)
        ensures
            r.outgoing_transfers.is_none(),
    {
        OutgoingTransfersResponsibility { outgoing_transfers: None }
    }
}

impl Default for ContractRenewalResponsibility {
    fn default() -> (r: ContractRenewalResponsibility)
        ensures
            r.handle_first_team_contracts.is_none(),
            r.handle_youth_team_contracts.is_none(),
            r.handle_director_of_football_contract.is_none(),
            r.handle_other_staff_contracts.is_none(),
    {
        ContractRenewalResponsibility {
            handle_first_team_contracts: None,
            handle_youth_team_contracts: None,
            handle_director_of_football_contract: None,
            handle_other_staff_contracts: None,
        }
    }
}

impl Default for ScoutingResponsibility {
    fn default() -> (r: ScoutingResponsibility)
        ensures
            r.scouting.is_none(),
    {
        ScoutingResponsibility { scouting: None }
    }
}

impl Default for TrainingResponsibility {
    fn default() -> (r: TrainingResponsibility)
        ensures
            r.training_first_team.is_none(),
            r.training_youth_team.is_none(),
    {
        TrainingResponsibility { training_first_team: None, training_youth_team: None }
    }
}

impl Default for StaffResponsibility {
    /// The registry with no entry set.
    fn default() -> (r: StaffResponsibility)
        ensures
            forall|category: ResponsibilityCategory| r.assigned(category).is_none(),
    {
        StaffResponsibility {
            board: BoardResponsibility::default(),
            recruitment: RecruitmentResponsibility::default(),
            incoming_transfers: IncomingTransfersResponsibility::default(),
            outgoing_transfers: OutgoingTransfersResponsibility::default(),
            contract_renewal: ContractRenewalResponsibility::default(),
            scouting: ScoutingResponsibility::default(),
            training: TrainingResponsibility::default(),
        }
    }
}

impl ResponsibilityCategory {
    /// The post whose holder looks after the matter where the registry names
    /// nobody who is on the staff.
    pub open spec fn fallback(self) -> StaffPosition {
        match self {
            ResponsibilityCategory::TrainingFirstTeam => StaffPosition::Coach,
            ResponsibilityCategory::TrainingYouthTeam => StaffPosition::Coach,
            ResponsibilityCategory::FirstTeamContracts => StaffPosition::DirectorOfFootball,
            ResponsibilityCategory::YouthTeamContracts => StaffPosition::DirectorOfFootball,
            ResponsibilityCategory::OtherStaffContracts => StaffPosition::DirectorOfFootball,
            ResponsibilityCategory::DirectorOfFootballContract => StaffPosition::Chairman,
            ResponsibilityCategory::Scouting => StaffPosition::ChiefScout,
            ResponsibilityCategory::Recruitment => StaffPosition::DirectorOfFootball,
            ResponsibilityCategory::IncomingTransfers => StaffPosition::DirectorOfFootball,
            ResponsibilityCategory::OutgoingTransfers => StaffPosition::DirectorOfFootball,
            ResponsibilityCategory::Board => StaffPosition::Chairman,
        }
    }

    /// The post that goes with the matter.
    pub fn fallback_position(self) -> (r: StaffPosition)
        ensures
            r == self.fallback(),
    {
        match self {
            ResponsibilityCategory::TrainingFirstTeam => StaffPosition::Coach,
            ResponsibilityCategory::TrainingYouthTeam => StaffPosition::Coach,
            ResponsibilityCategory::FirstTeamContracts => StaffPosition::DirectorOfFootball,
            ResponsibilityCategory::YouthTeamContracts => StaffPosition::DirectorOfFootball,
            ResponsibilityCategory::OtherStaffContracts => StaffPosition::DirectorOfFootball,
            ResponsibilityCategory::DirectorOfFootballContract => StaffPosition::Chairman,
            ResponsibilityCategory::Scouting => StaffPosition::ChiefScout,
            ResponsibilityCategory::Recruitment => StaffPosition::DirectorOfFootball,
            ResponsibilityCategory::IncomingTransfers => StaffPosition::DirectorOfFootball,
            ResponsibilityCategory::OutgoingTransfers => StaffPosition::DirectorOfFootball,
            ResponsibilityCategory::Board => StaffPosition::Chairman,
        }
    }
}

impl StaffResponsibility {
    /// The identity that the registry names for `category`, if it names one.
    pub open spec fn assigned(&self, category: ResponsibilityCategory) -> Option<u32> {
        match category {
            ResponsibilityCategory::TrainingFirstTeam => self.training.training_first_team,
            ResponsibilityCategory::TrainingYouthTeam => self.training.training_youth_team,
            ResponsibilityCategory::FirstTeamContracts => {
                self.contract_renewal.handle_first_team_contracts
            },
            ResponsibilityCategory::YouthTeamContracts => {
                self.contract_renewal.handle_youth_team_contracts
            },
            ResponsibilityCategory::OtherStaffContracts => {
                self.contract_renewal.handle_other_staff_contracts
            },
            ResponsibilityCategory::DirectorOfFootballContract => {
                self.contract_renewal.handle_director_of_football_contract
            },
            ResponsibilityCategory::Scouting => self.scouting.scouting,
            ResponsibilityCategory::Recruitment => self.recruitment.recruitment,
            ResponsibilityCategory::IncomingTransfers => self.incoming_transfers.incoming_transfers,
            ResponsibilityCategory::OutgoingTransfers => self.outgoing_transfers.outgoing_transfers,
            ResponsibilityCategory::Board => self.board.board_matters,
        }
    }

    /// Looks `category` up.
    pub fn assignment(&self, category: ResponsibilityCategory) -> (r: Option<u32>)
        ensures
            r == self.assigned(category),
    {
        match category {
            ResponsibilityCategory::TrainingFirstTeam => self.training.training_first_team,
            ResponsibilityCategory::TrainingYouthTeam => self.training.training_youth_team,
            ResponsibilityCategory::FirstTeamContracts => {
                self.contract_renewal.handle_first_team_contracts
            },
            ResponsibilityCategory::YouthTeamContracts => {
                self.contract_renewal.handle_youth_team_contracts
            },
            ResponsibilityCategory::OtherStaffContracts => {
                self.contract_renewal.handle_other_staff_contracts
            },
            ResponsibilityCategory::DirectorOfFootballContract => {
                self.contract_renewal.handle_director_of_football_contract
            },
            ResponsibilityCategory::Scouting => self.scouting.scouting,
            ResponsibilityCategory::Recruitment => self.recruitment.recruitment,
            ResponsibilityCategory::IncomingTransfers => self.incoming_transfers.incoming_transfers,
            ResponsibilityCategory::OutgoingTransfers => self.outgoing_transfers.outgoing_transfers,
            ResponsibilityCategory::Board => self.board.board_matters,
        }
    }
}

} // verus!
