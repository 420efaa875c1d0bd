use football_sim::context::SimulationContext;
use football_sim::date::Date;
use football_sim::person::{FullName, PersonAttributes, PersonBehaviourState};
use football_sim::responsibility::{
    BoardResponsibility, ContractRenewalResponsibility, IncomingTransfersResponsibility,
    OutgoingTransfersResponsibility, RecruitmentResponsibility, ResponsibilityCategory,
    ScoutingResponsibility, StaffResponsibility, TrainingResponsibility,
};
use football_sim::staff::{
    Staff, StaffClubContract, StaffEvent, StaffLicenseType, StaffPosition,
};
use football_sim::staff_collection::{Resolution, StaffCollection};
use football_sim::team::TeamType;

fn create_staff_collection(id: u32) -> StaffCollection {
    let mut staff = Staff::stub();

    staff.id = id;

    let mut collection = StaffCollection::new(vec![staff], Option::None);
    collection.responsibility = StaffResponsibility {
        board: BoardResponsibility::default(),
        recruitment: RecruitmentResponsibility::default(),
        incoming_transfers: IncomingTransfersResponsibility::default(),
        outgoing_transfers: OutgoingTransfersResponsibility::default(),
        contract_renewal: ContractRenewalResponsibility {
            handle_first_team_contracts: Some(1),
            handle_youth_team_contracts: Some(2),
            handle_director_of_football_contract: Some(3),
            handle_other_staff_contracts: Some(4),
        },
        scouting: ScoutingResponsibility::default(),
        training: TrainingResponsibility::default(),
    };
    collection
}

fn day(year: i32, month: u32, day: u32) -> Date {
    Date::from_ymd(year, month, day).unwrap()
}

fn member(id: u32, position: Option<StaffPosition>) -> Staff {
    let mut staff = Staff::stub();
    staff.id = id;
    staff.birth_date = day(1980, 3, 9);
    staff.contract = position.map(|position| StaffClubContract {
        club_id: 7,
        position,
        expiration: day(2030, 6, 30),
    });
    staff
}

#[test]
fn staff_get_contract_resolver_first_team_is_correct() {
    let staff_collection = create_staff_collection(1);

    let contract_resolver = staff_collection.contract_resolver(TeamType::Main);

    assert_eq!(1, contract_resolver.id);
}

#[test]
fn staff_get_contract_resolver_b_team_is_correct() {
    let staff_collection = create_staff_collection(4);

    let contract_resolver = staff_collection.contract_resolver(TeamType::B);

    assert_eq!(4, contract_resolver.id);
}

#[test]
fn staff_get_contract_resolver_youth_team_is_correct() {
    let staff_collection = create_staff_collection(2);

    let contract_resolver = staff_collection.contract_resolver(TeamType::U18);

    assert_eq!(2, contract_resolver.id);
}

#[test]
fn three_assigned_members_resolve_each_their_own_contracts() {
    let mut collection = create_staff_collection(1);
    collection.staffs.push(member(2, None));
    collection.staffs.push(member(4, None));
    assert_eq!(collection.contract_resolver(TeamType::Main).id, 1);
    assert_eq!(collection.contract_resolver(TeamType::U18).id, 2);
    assert_eq!(collection.contract_resolver(TeamType::U19).id, 2);
    assert_eq!(collection.contract_resolver(TeamType::U21).id, 2);
    assert_eq!(collection.contract_resolver(TeamType::U23).id, 2);
    assert_eq!(collection.contract_resolver(TeamType::B).id, 4);
    assert_eq!(
        collection.resolution(ResponsibilityCategory::FirstTeamContracts),
        Resolution::Assigned(0)
    );
    assert_eq!(
        collection.resolution(ResponsibilityCategory::OtherStaffContracts),
        Resolution::Assigned(2)
    );
}

#[test]
fn the_stub_is_the_placeholder() {
    let stub = Staff::stub();
    assert_eq!(stub.id, 0);
    assert_eq!(stub.full_name.first_name, "stub");
    assert_eq!(stub.full_name.last_name, "stub");
    assert_eq!(stub.full_name.middle_name, "stub");
    assert_eq!(stub.country_id, 0);
    assert!(stub.contract.is_none());
    assert_eq!(stub.license, StaffLicenseType::NationalC);
    assert_eq!(stub.behaviour.state, PersonBehaviourState::Normal);
    assert!(stub.relations.items.is_empty());
    assert_eq!(stub.attributes.adaptability, 1);
    assert_eq!(stub.attributes.temperament, 1);
    assert_eq!(stub.staff_attributes.coaching.working_with_youngsters, 1);
    assert_eq!(stub.staff_attributes.goalkeeping.shot_stopping, 1);
    assert_eq!(stub.staff_attributes.mental.motivating, 1);
    assert_eq!(stub.staff_attributes.knowledge.tactical_knowledge, 1);
    assert_eq!(stub.staff_attributes.data_analysis.presenting_data, 1);
    assert_eq!(stub.staff_attributes.medical.non_player_tendencies, 1);
}

#[test]
fn a_new_staff_member_keeps_what_was_given() {
    let name = FullName {
        first_name: "Ada".to_string(),
        last_name: "Byron".to_string(),
        middle_name: "King".to_string(),
    };
    let attributes = PersonAttributes {
        adaptability: 1,
        ambition: 2,
        controversy: 3,
        loyalty: 4,
        pressure: 5,
        professionalism: 6,
        sportsmanship: 7,
        temperament: 8,
    };
    let contract =
        StaffClubContract { club_id: 3, position: StaffPosition::Coach, expiration: day(2026, 6, 30) };
    let skills = Staff::stub().staff_attributes;
    let staff = Staff::new(
        12,
        name,
        44,
        day(1975, 12, 10),
        skills,
        Some(contract),
        attributes,
        StaffLicenseType::ContinentalA,
    );
    assert_eq!(staff.id, 12);
    assert_eq!(staff.full_name.first_name, "Ada");
    assert_eq!(staff.full_name.last_name, "Byron");
    assert_eq!(staff.full_name.middle_name, "King");
    assert_eq!(staff.country_id, 44);
    assert_eq!(staff.birth_date, day(1975, 12, 10));
    assert_eq!(staff.attributes, attributes);
    assert_eq!(staff.staff_attributes, skills);
    assert_eq!(staff.contract.unwrap().position, StaffPosition::Coach);
    assert_eq!(staff.license, StaffLicenseType::ContinentalA);
    assert_eq!(staff.behaviour.state, PersonBehaviourState::Normal);
    assert!(staff.relations.items.is_empty());
}

#[test]
fn an_unassigned_matter_without_a_holder_of_its_post_goes_to_the_stub() {
    let collection = StaffCollection::new(
        vec![member(5, Some(StaffPosition::Physio)), member(6, None)],
        None,
    );
    for category in [
        ResponsibilityCategory::TrainingFirstTeam,
        ResponsibilityCategory::TrainingYouthTeam,
        ResponsibilityCategory::FirstTeamContracts,
        ResponsibilityCategory::YouthTeamContracts,
        ResponsibilityCategory::OtherStaffContracts,
        ResponsibilityCategory::DirectorOfFootballContract,
        ResponsibilityCategory::Scouting,
        ResponsibilityCategory::Recruitment,
        ResponsibilityCategory::IncomingTransfers,
        ResponsibilityCategory::OutgoingTransfers,
        ResponsibilityCategory::Board,
    ] {
        assert_eq!(collection.resolution(category), Resolution::Stub);
        assert_eq!(collection.resolve(category).id, 0);
    }
    assert_eq!(collection.training_coach(&TeamType::Main).id, 0);
    assert_eq!(collection.contract_resolver(TeamType::B).id, 0);
    let empty = StaffCollection::new(vec![], None);
    assert_eq!(empty.resolve(ResponsibilityCategory::Scouting).id, 0);
    assert_eq!(empty.head_coach().id, 0);
}

#[test]
fn the_registry_wins_over_the_post() {
    let mut collection = StaffCollection::new(
        vec![
            member(5, Some(StaffPosition::Coach)),
            member(6, Some(StaffPosition::Coach)),
            member(7, None),
        ],
        None,
    );
    collection.responsibility.training.training_first_team = Some(7);
    assert_eq!(
        collection.resolution(ResponsibilityCategory::TrainingFirstTeam),
        Resolution::Assigned(2)
    );
    assert_eq!(collection.training_coach(&TeamType::Main).id, 7);
    assert_eq!(
        collection.resolution(ResponsibilityCategory::TrainingYouthTeam),
        Resolution::ByPosition(0)
    );
    assert_eq!(collection.training_coach(&TeamType::U18).id, 5);
    assert_eq!(collection.training_coach(&TeamType::B).id, 5);
}

#[test]
fn a_name_that_is_not_on_the_staff_falls_back_on_the_post() {
    let mut collection = StaffCollection::new(
        vec![member(5, Some(StaffPosition::Scout)), member(6, Some(StaffPosition::ChiefScout))],
        None,
    );
    collection.responsibility.scouting.scouting = Some(99);
    assert_eq!(collection.resolution(ResponsibilityCategory::Scouting), Resolution::ByPosition(1));
    assert_eq!(collection.resolve(ResponsibilityCategory::Scouting).id, 6);
    collection.responsibility.board.board_matters = Some(99);
    assert_eq!(collection.resolution(ResponsibilityCategory::Board), Resolution::Stub);
    assert_eq!(collection.resolve(ResponsibilityCategory::Board).id, 0);
}

#[test]
fn each_matter_falls_back_on_its_post() {
    let posts = [
        (ResponsibilityCategory::TrainingFirstTeam, StaffPosition::Coach),
        (ResponsibilityCategory::TrainingYouthTeam, StaffPosition::Coach),
        (ResponsibilityCategory::FirstTeamContracts, StaffPosition::DirectorOfFootball),
        (ResponsibilityCategory::YouthTeamContracts, StaffPosition::DirectorOfFootball),
        (ResponsibilityCategory::OtherStaffContracts, StaffPosition::DirectorOfFootball),
        (ResponsibilityCategory::DirectorOfFootballContract, StaffPosition::Chairman),
        (ResponsibilityCategory::Scouting, StaffPosition::ChiefScout),
        (ResponsibilityCategory::Recruitment, StaffPosition::DirectorOfFootball),
        (ResponsibilityCategory::IncomingTransfers, StaffPosition::DirectorOfFootball),
        (ResponsibilityCategory::OutgoingTransfers, StaffPosition::DirectorOfFootball),
        (ResponsibilityCategory::Board, StaffPosition::Chairman),
    ];
    for (category, position) in posts {
        assert_eq!(category.fallback_position(), position);
        let collection = StaffCollection::new(vec![member(3, None), member(8, Some(position))], None);
        assert_eq!(collection.resolution(category), Resolution::ByPosition(1));
        assert_eq!(collection.resolve(category).id, 8);
    }
}

#[test]
fn every_entry_of_the_registry_is_looked_up_under_its_matter() {
    let registry = StaffResponsibility {
        board: BoardResponsibility { board_matters: Some(11) },
        recruitment: RecruitmentResponsibility { recruitment: Some(10) },
        incoming_transfers: IncomingTransfersResponsibility { incoming_transfers: Some(9) },
        outgoing_transfers: OutgoingTransfersResponsibility { outgoing_transfers: Some(8) },
        contract_renewal: ContractRenewalResponsibility {
            handle_first_team_contracts: Some(1),
            handle_youth_team_contracts: Some(2),
            handle_director_of_football_contract: Some(3),
            handle_other_staff_contracts: Some(4),
        },
        scouting: ScoutingResponsibility { scouting: Some(7) },
        training: TrainingResponsibility {
            training_first_team: Some(5),
            training_youth_team: Some(6),
        },
    };
    assert_eq!(registry.assignment(ResponsibilityCategory::FirstTeamContracts), Some(1));
    assert_eq!(registry.assignment(ResponsibilityCategory::YouthTeamContracts), Some(2));
    assert_eq!(registry.assignment(ResponsibilityCategory::DirectorOfFootballContract), Some(3));
    assert_eq!(registry.assignment(ResponsibilityCategory::OtherStaffContracts), Some(4));
    assert_eq!(registry.assignment(ResponsibilityCategory::TrainingFirstTeam), Some(5));
    assert_eq!(registry.assignment(ResponsibilityCategory::TrainingYouthTeam), Some(6));
    assert_eq!(registry.assignment(ResponsibilityCategory::Scouting), Some(7));
    assert_eq!(registry.assignment(ResponsibilityCategory::OutgoingTransfers), Some(8));
    assert_eq!(registry.assignment(ResponsibilityCategory::IncomingTransfers), Some(9));
    assert_eq!(registry.assignment(ResponsibilityCategory::Recruitment), Some(10));
    assert_eq!(registry.assignment(ResponsibilityCategory::Board), Some(11));
    assert_eq!(
        StaffResponsibility::default().assignment(ResponsibilityCategory::Scouting),
        None
    );
}

#[test]
fn asking_twice_gives_the_same_answer() {
    let mut collection = StaffCollection::new(
        vec![member(5, Some(StaffPosition::Coach)), member(6, Some(StaffPosition::Chairman))],
        None,
    );
    collection.responsibility.recruitment.recruitment = Some(6);
    for category in [
        ResponsibilityCategory::TrainingFirstTeam,
        ResponsibilityCategory::Recruitment,
        ResponsibilityCategory::Scouting,
        ResponsibilityCategory::Board,
    ] {
        let first = collection.resolve(category).id;
        let second = collection.resolve(category).id;
        assert_eq!(first, second);
        assert_eq!(collection.resolution(category), collection.resolution(category));
    }
}

#[test]
fn the_first_of_several_with_one_identity_or_post_is_found() {
    let collection = StaffCollection::new(
        vec![
            member(5, Some(StaffPosition::Coach)),
            member(6, Some(StaffPosition::Coach)),
            member(5, Some(StaffPosition::Scout)),
        ],
        None,
    );
    assert_eq!(collection.find_by_id(5), Some(0));
    assert_eq!(collection.find_by_id(6), Some(1));
    assert_eq!(collection.find_by_id(7), None);
    assert_eq!(collection.find_by_position(StaffPosition::Coach), Some(0));
    assert_eq!(collection.find_by_position(StaffPosition::Scout), Some(2));
    assert_eq!(collection.find_by_position(StaffPosition::Manager), None);
    assert_eq!(collection.get_by_id(6).unwrap().id, 6);
    assert!(collection.get_by_id(0).is_none());
    assert_eq!(collection.get_by_position(StaffPosition::Scout).id, 5);
    assert_eq!(collection.get_by_position(StaffPosition::Manager).id, 0);
    assert_eq!(collection.staff(Resolution::Assigned(1)).id, 6);
    assert_eq!(collection.staff(Resolution::ByPosition(2)).id, 5);
    assert_eq!(collection.staff(Resolution::Assigned(3)).id, 0);
    assert_eq!(collection.staff(Resolution::ByPosition(9)).id, 0);
    assert_eq!(collection.staff(Resolution::Stub).id, 0);
}

#[test]
fn the_head_of_the_club_is_the_manager_or_an_assistant() {
    let assistants = vec![
        member(5, Some(StaffPosition::Coach)),
        member(6, Some(StaffPosition::AssistantManager)),
    ];
    let with_manager = StaffCollection::new(assistants, Some(member(9, Some(StaffPosition::Manager))));
    assert_eq!(with_manager.head_coach().id, 9);
    assert_eq!(with_manager.get_main_coach().unwrap().id, 9);
    let without = StaffCollection::new(
        vec![member(5, Some(StaffPosition::Coach)), member(6, Some(StaffPosition::AssistantManager))],
        None,
    );
    assert_eq!(without.head_coach().id, 6);
    assert!(without.get_main_coach().is_none());
    let nobody = StaffCollection::new(vec![member(5, Some(StaffPosition::Coach))], None);
    assert_eq!(nobody.head_coach().id, 0);
}

#[test]
fn a_birthday_gives_one_event_and_better_behaviour() {
    let mut staff = member(3, None);
    staff.behaviour.state = PersonBehaviourState::Poor;
    let events = staff.simulate(&SimulationContext::new(day(2024, 3, 9)));
    assert_eq!(events, vec![StaffEvent::Birthday(3)]);
    assert_eq!(staff.behaviour.state, PersonBehaviourState::Normal);
    let events = staff.simulate(&SimulationContext::new(day(2025, 3, 9)));
    assert_eq!(events, vec![StaffEvent::Birthday(3)]);
    assert_eq!(staff.behaviour.state, PersonBehaviourState::Good);
    let events = staff.simulate(&SimulationContext::new(day(2026, 3, 9)));
    assert_eq!(events, vec![StaffEvent::Birthday(3)]);
    assert_eq!(staff.behaviour.state, PersonBehaviourState::Good);
}

#[test]
fn other_days_give_no_birthday_event() {
    let mut staff = member(3, None);
    for date in [day(2024, 3, 8), day(2024, 3, 10), day(2024, 4, 9), day(2024, 9, 3)] {
        let events = staff.simulate(&SimulationContext::new(date));
        assert!(events.is_empty());
        assert_eq!(staff.behaviour.state, PersonBehaviourState::Normal);
    }
}

#[test]
fn a_contract_expires_on_its_last_day() {
    let mut staff = member(3, Some(StaffPosition::Coach));
    let events = staff.simulate(&SimulationContext::new(day(2030, 6, 29)));
    assert!(events.is_empty());
    assert!(staff.contract.is_some());
    let events = staff.simulate(&SimulationContext::new(day(2030, 6, 30)));
    assert_eq!(events, vec![StaffEvent::ContractExpired(3)]);
    assert!(staff.contract.is_none());
    let events = staff.simulate(&SimulationContext::new(day(2030, 7, 1)));
    assert!(events.is_empty());
}

#[test]
fn a_birthday_is_reported_before_the_end_of_the_contract() {
    let mut staff = member(3, Some(StaffPosition::Coach));
    let events = staff.simulate(&SimulationContext::new(day(2031, 3, 9)));
    assert_eq!(events, vec![StaffEvent::Birthday(3), StaffEvent::ContractExpired(3)]);
    assert!(staff.contract.is_none());
    assert_eq!(staff.behaviour.state, PersonBehaviourState::Good);
    assert_eq!(staff.id, 3);
    assert_eq!(staff.birth_date, day(1980, 3, 9));
}

#[test]
fn a_tick_takes_the_birthday_as_it_is_told() {
    let mut staff = member(3, Some(StaffPosition::Coach));
    let events = staff.tick(true, day(2024, 1, 1));
    assert_eq!(events, vec![StaffEvent::Birthday(3)]);
    let events = staff.tick(false, day(2024, 3, 9));
    assert!(events.is_empty());
    let events = staff.tick(false, day(2030, 6, 30));
    assert_eq!(events, vec![StaffEvent::ContractExpired(3)]);
}

#[test]
fn the_directory_ticks_every_member_in_order() {
    let mut first = member(1, Some(StaffPosition::Coach));
    first.birth_date = day(1970, 6, 30);
    let second = member(2, None);
    let mut third = member(3, Some(StaffPosition::Scout));
    third.birth_date = day(1990, 6, 30);
    third.contract = Some(StaffClubContract {
        club_id: 7,
        position: StaffPosition::Scout,
        expiration: day(2024, 6, 30),
    });
    let mut collection =
        StaffCollection::new(vec![first, second, third], Some(member(9, Some(StaffPosition::Manager))));
    collection.responsibility.scouting.scouting = Some(3);
    let events = collection.simulate(&SimulationContext::new(day(2024, 6, 30)));
    assert_eq!(
        events,
        vec![StaffEvent::Birthday(1), StaffEvent::Birthday(3), StaffEvent::ContractExpired(3)]
    );
    assert_eq!(collection.staffs.len(), 3);
    assert_eq!(collection.staffs[0].behaviour.state, PersonBehaviourState::Good);
    assert_eq!(collection.staffs[1].behaviour.state, PersonBehaviourState::Normal);
    assert!(collection.staffs[0].contract.is_some());
    assert!(collection.staffs[2].contract.is_none());
    assert_eq!(collection.manager.as_ref().unwrap().id, 9);
    assert_eq!(collection.responsibility.scouting.scouting, Some(3));
    assert_eq!(collection.stub.id, 0);
    assert!(collection.simulate(&SimulationContext::new(day(2024, 7, 1))).is_empty());
}
