//! A day-by-day simulation core for a league of football clubs: calendar
//! dates, the season's fixture list, staff and their responsibilities,
//! youth academies and the club aggregate that ties them together.

pub mod academy;
pub mod club;
pub mod context;
pub mod date;
pub mod fixture_laws;
pub mod person;
pub mod player;
pub mod responsibility;
pub mod round_robin;
pub mod schedule;
pub mod season;
pub mod seq_facts;
pub mod staff;
pub mod staff_collection;
pub mod team;
