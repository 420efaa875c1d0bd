use football_sim::club::Club;
use football_sim::date::{Date, MAX_DAY_NUMBER};
use football_sim::player::PlayerCollection;
use football_sim::schedule::{Schedule, ScheduleError, ScheduleItem};
use football_sim::staff_collection::StaffCollection;

fn club(id: u32) -> Club {
    Club::new(id, id.to_string(), PlayerCollection::new(vec![]), StaffCollection::new(vec![], None))
}

fn clubs(count: u32) -> Vec<Club> {
    (1..=count).map(club).collect()
}

fn day(year: i32, month: u32, day: u32) -> Date {
    Date::from_ymd(year, month, day).unwrap()
}

fn fixture(item: &ScheduleItem) -> (i32, u32, u32) {
    (item.date.day_number(), item.home_club_id, item.guest_club_id)
}

fn fixtures(schedule: &Schedule) -> Vec<(i32, u32, u32)> {
    schedule.items.iter().map(fixture).collect()
}

#[test]
fn generate_is_correct() {
    let mut clubs = Vec::new();

    clubs.push(club(1));
    clubs.push(club(2));
    clubs.push(club(3));

    let schedule = Schedule::generate(clubs.iter().collect(), day(2024, 1, 6)).unwrap();

    assert_eq!(2, schedule.items.len());
}

#[test]
fn three_clubs_play_two_rounds_a_week_apart() {
    let clubs = clubs(3);
    let start = day(2024, 1, 6);
    let schedule = Schedule::generate(clubs.iter().collect(), start).unwrap();
    let first = start.day_number();
    assert_eq!(fixtures(&schedule), vec![(first, 2, 3), (first + 7, 3, 1)]);
    assert_eq!(schedule.items[1].date, day(2024, 1, 13));
}

#[test]
fn fewer_than_two_clubs_are_rejected() {
    let start = day(2024, 1, 6);
    let nobody: Vec<&Club> = Vec::new();
    assert_eq!(Schedule::generate(nobody, start).unwrap_err(), ScheduleError::InvalidInput);
    let lonely = clubs(1);
    assert_eq!(
        Schedule::generate(lonely.iter().collect(), start).unwrap_err(),
        ScheduleError::InvalidInput
    );
    assert_eq!(
        Schedule::generate_double(lonely.iter().collect(), start).unwrap_err(),
        ScheduleError::InvalidInput
    );
}

#[test]
fn two_clubs_meet_once_in_a_single_round_robin() {
    let clubs = clubs(2);
    let start = day(2024, 1, 6);
    let schedule = Schedule::generate(clubs.iter().collect(), start).unwrap();
    assert_eq!(fixtures(&schedule), vec![(start.day_number(), 1, 2)]);
}

#[test]
fn two_clubs_alternate_the_ground_in_a_double_round_robin() {
    let clubs = clubs(2);
    let start = day(2024, 1, 6);
    let schedule = Schedule::generate_double(clubs.iter().collect(), start).unwrap();
    let first = start.day_number();
    assert_eq!(fixtures(&schedule), vec![(first, 1, 2), (first + 7, 2, 1)]);
}

#[test]
fn four_clubs_single_round_robin_is_the_circle_method() {
    let clubs = clubs(4);
    let start = day(2024, 1, 6);
    let schedule = Schedule::generate(clubs.iter().collect(), start).unwrap();
    let d = start.day_number();
    assert_eq!(
        fixtures(&schedule),
        vec![
            (d, 1, 4),
            (d, 2, 3),
            (d + 7, 3, 1),
            (d + 7, 2, 4),
            (d + 14, 1, 2),
            (d + 14, 3, 4),
        ]
    );
}

#[test]
fn even_sizes_give_the_full_single_round_robin() {
    for n in [2u32, 4, 6, 8, 10, 16] {
        let clubs = clubs(n);
        let schedule = Schedule::generate(clubs.iter().collect(), day(2024, 1, 6)).unwrap();
        assert_eq!(schedule.items.len() as u32, (n - 1) * (n / 2));
        for a in 1..=n {
            for b in (a + 1)..=n {
                let meetings = schedule
                    .items
                    .iter()
                    .filter(|i| {
                        (i.home_club_id == a && i.guest_club_id == b)
                            || (i.home_club_id == b && i.guest_club_id == a)
                    })
                    .count();
                assert_eq!(meetings, 1);
            }
        }
    }
}

#[test]
fn even_sizes_give_the_full_double_round_robin() {
    for n in [2u32, 4, 6, 10] {
        let clubs = clubs(n);
        let schedule = Schedule::generate_double(clubs.iter().collect(), day(2024, 1, 6)).unwrap();
        let half = ((n - 1) * (n / 2)) as usize;
        assert_eq!(schedule.items.len(), 2 * half);
        for a in 1..=n {
            for b in 1..=n {
                if a != b {
                    let at_home = schedule
                        .items
                        .iter()
                        .filter(|i| i.home_club_id == a && i.guest_club_id == b)
                        .count();
                    assert_eq!(at_home, 1);
                }
            }
        }
        for k in 0..half {
            let first = &schedule.items[k];
            let second = &schedule.items[half + k];
            assert_eq!(second.home_club_id, first.guest_club_id);
            assert_eq!(second.guest_club_id, first.home_club_id);
            assert_eq!(second.date.day_number(), first.date.day_number() + 7 * (n as i32 - 1));
        }
    }
}

#[test]
fn no_club_plays_twice_on_one_date() {
    for n in [2u32, 3, 4, 5, 7, 8, 11, 12] {
        let clubs = clubs(n);
        let schedule = Schedule::generate_double(clubs.iter().collect(), day(2024, 1, 6)).unwrap();
        for (j, first) in schedule.items.iter().enumerate() {
            assert_ne!(first.home_club_id, first.guest_club_id);
            for second in schedule.items.iter().skip(j + 1) {
                if first.date == second.date {
                    assert_ne!(first.home_club_id, second.home_club_id);
                    assert_ne!(first.home_club_id, second.guest_club_id);
                    assert_ne!(first.guest_club_id, second.home_club_id);
                    assert_ne!(first.guest_club_id, second.guest_club_id);
                }
            }
        }
    }
}

#[test]
fn odd_sizes_leave_one_club_out_in_every_round() {
    let clubs = clubs(5);
    let start = day(2024, 1, 6);
    let schedule = Schedule::generate(clubs.iter().collect(), start).unwrap();
    let d = start.day_number();
    assert_eq!(schedule.items.len(), 8);
    assert_eq!(
        fixtures(&schedule),
        vec![
            (d, 2, 5),
            (d, 3, 4),
            (d + 7, 5, 1),
            (d + 7, 3, 2),
            (d + 14, 1, 4),
            (d + 14, 5, 3),
            (d + 21, 3, 1),
            (d + 21, 2, 4),
        ]
    );
}

#[test]
fn no_two_clubs_meet_twice_in_a_single_round_robin() {
    for n in 2u32..=13 {
        let clubs = clubs(n);
        let schedule = Schedule::generate(clubs.iter().collect(), day(2024, 1, 6)).unwrap();
        assert_eq!(schedule.items.len() as u32, (n - 1) * (n / 2));
        for (j, first) in schedule.items.iter().enumerate() {
            for second in schedule.items.iter().skip(j + 1) {
                let same = (first.home_club_id == second.home_club_id
                    && first.guest_club_id == second.guest_club_id)
                    || (first.home_club_id == second.guest_club_id
                        && first.guest_club_id == second.home_club_id);
                assert!(!same);
            }
        }
    }
}

#[test]
fn rounds_are_played_in_the_order_of_the_schedule() {
    for n in [2u32, 3, 6, 9] {
        let clubs = clubs(n);
        let start = day(2024, 1, 6);
        let schedule = Schedule::generate_double(clubs.iter().collect(), start).unwrap();
        let per_round = (n / 2) as usize;
        for (k, item) in schedule.items.iter().enumerate() {
            assert_eq!(item.date.day_number(), start.day_number() + 7 * (k / per_round) as i32);
        }
    }
}

#[test]
fn get_matches_gives_the_fixtures_of_the_date() {
    let clubs = clubs(4);
    let start = day(2024, 1, 6);
    let schedule = Schedule::generate(clubs.iter().collect(), start).unwrap();
    let second_round = schedule.get_matches(day(2024, 1, 13));
    assert_eq!(second_round.len(), 2);
    assert_eq!(fixture(second_round[0]), (start.day_number() + 7, 3, 1));
    assert_eq!(fixture(second_round[1]), (start.day_number() + 7, 2, 4));
    let first_round = schedule.get_matches(start);
    assert_eq!(first_round.len(), 2);
    assert_eq!(fixture(first_round[0]), (start.day_number(), 1, 4));
}

#[test]
fn get_matches_gives_nothing_off_the_round_days() {
    let clubs = clubs(4);
    let start = day(2024, 1, 6);
    let schedule = Schedule::generate(clubs.iter().collect(), start).unwrap();
    assert!(schedule.get_matches(day(2024, 1, 5)).is_empty());
    assert!(schedule.get_matches(day(2024, 1, 7)).is_empty());
    assert!(schedule.get_matches(day(2024, 1, 21)).is_empty());
    assert!(schedule.get_matches(day(2024, 1, 27)).is_empty());
    assert!(schedule.get_matches(day(1999, 9, 3)).is_empty());
    assert_eq!(schedule.get_matches(day(2024, 1, 20)).len(), 2);
}

#[test]
fn a_season_may_end_on_the_last_day_of_the_calendar() {
    let clubs = clubs(3);
    let start = Date::from_day_number(MAX_DAY_NUMBER - 7).unwrap();
    let schedule = Schedule::generate(clubs.iter().collect(), start).unwrap();
    assert_eq!(schedule.items[1].date.day_number(), MAX_DAY_NUMBER);
}
