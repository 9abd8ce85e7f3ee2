//! The four operations: what each asks of the store, and what it answers
//! once the store has replied.

pub mod count_persons;
pub mod create_person;
pub mod get_person;
pub mod search_persons;
