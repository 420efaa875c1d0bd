use football_sim::club::Club;
use football_sim::date::Date;
use football_sim::person::Person;
use football_sim::player::{Player, PlayerCollection};
use football_sim::schedule::{Schedule, ScheduleItem};
use football_sim::season::SeasonDriver;
use football_sim::staff::Staff;
use football_sim::staff_collection::StaffCollection;

fn day(year: i32, month: u32, day: u32) -> Date {
    Date::from_ymd(year, month, day).unwrap()
}

fn clubs(count: u32) -> Vec<Club> {
    (1..=count)
        .map(|id| {
            Club::new(
                id,
                id.to_string(),
                PlayerCollection::new(vec![]),
                StaffCollection::new(vec![], None),
            )
        })
        .collect()
}

fn item(date: Date, home: u32, guest: u32) -> ScheduleItem {
    ScheduleItem { date, home_club_id: home, guest_club_id: guest }
}

#[test]
fn the_driver_walks_a_season_week_by_week() {
    let clubs = clubs(4);
    let start = day(2024, 1, 6);
    let schedule = Schedule::generate(clubs.iter().collect(), start).unwrap();
    let mut driver = SeasonDriver::new(schedule);
    assert!(driver.current.is_none());
    assert!(driver.matches_today().is_empty());

    assert_eq!(driver.advance(), Some(day(2024, 1, 6)));
    assert_eq!(driver.current, Some(day(2024, 1, 6)));
    let today = driver.matches_today();
    assert_eq!(today.len(), 2);
    assert_eq!((today[0].home_club_id, today[0].guest_club_id), (1, 4));
    assert_eq!((today[1].home_club_id, today[1].guest_club_id), (2, 3));

    assert_eq!(driver.advance(), Some(day(2024, 1, 13)));
    assert_eq!(driver.matches_today().len(), 2);
    assert_eq!(driver.advance(), Some(day(2024, 1, 20)));
    assert_eq!(driver.advance(), None);
    assert_eq!(driver.current, Some(day(2024, 1, 20)));
    assert_eq!(driver.advance(), None);
    assert_eq!(driver.schedule.items.len(), 6);
}

#[test]
fn the_driver_never_goes_back_whatever_the_order_of_the_schedule() {
    let schedule = Schedule {
        items: vec![
            item(day(2024, 3, 2), 1, 2),
            item(day(2024, 1, 6), 3, 4),
            item(day(2024, 3, 2), 3, 4),
            item(day(2024, 2, 3), 1, 3),
            item(day(2024, 1, 6), 1, 2),
        ],
    };
    let mut driver = SeasonDriver::new(schedule);
    assert_eq!(driver.advance(), Some(day(2024, 1, 6)));
    let today = driver.matches_today();
    assert_eq!(today.len(), 2);
    assert_eq!((today[0].home_club_id, today[0].guest_club_id), (3, 4));
    assert_eq!((today[1].home_club_id, today[1].guest_club_id), (1, 2));
    assert_eq!(driver.advance(), Some(day(2024, 2, 3)));
    assert_eq!(driver.matches_today().len(), 1);
    assert_eq!(driver.advance(), Some(day(2024, 3, 2)));
    assert_eq!(driver.matches_today().len(), 2);
    assert_eq!(driver.advance(), None);
}

#[test]
fn a_season_without_fixtures_is_over_at_once() {
    let mut driver = SeasonDriver::new(Schedule { items: vec![] });
    assert_eq!(driver.advance(), None);
    assert!(driver.current.is_none());
    assert!(driver.matches_today().is_empty());
}

#[test]
fn a_person_answers_for_what_it_holds() {
    let mut staff = Staff::stub();
    staff.id = 31;
    let person: &dyn Person = &staff;
    assert_eq!(person.id(), 31);
    assert_eq!(person.fullname().first_name, "stub");
    assert_eq!(person.birthday(), day(2019, 1, 1));
    assert_eq!(*person.behaviour(), staff.behaviour);
    assert_eq!(*person.attributes(), staff.attributes);
    assert!(person.relations().items.is_empty());

    let player = Player::new(
        8,
        staff.full_name.clone(),
        2,
        day(2004, 4, 4),
        staff.attributes,
        None,
    );
    assert_eq!(Person::id(&player), 8);
    assert_eq!(Person::birthday(&player), day(2004, 4, 4));
    assert_eq!(Person::fullname(&player).last_name, "stub");
    assert_eq!(*Person::behaviour(&player), player.behaviour);
    assert_eq!(*Person::attributes(&player), staff.attributes);
    assert!(Person::relations(&player).items.is_empty());
}
