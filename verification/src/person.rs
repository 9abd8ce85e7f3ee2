//! A person as the store keeps it, and the identifier the store assigns.

use crate::text::digit;
use vstd::prelude::*;

verus! {

/// The calendar date of `chrono`. Nothing here looks inside one: a date is
/// taken from whoever read it and handed on as it came.
#[verifier::external_type_specification]
#[verifier::external_body]
pub struct ExNaiveDate(chrono::NaiveDate);

/// `NaiveDate` is `Copy`, and its `clone` is the derived one: the copy is the
/// date itself.
pub assume_specification[ <chrono::NaiveDate as Clone>::clone ](
    date: &chrono::NaiveDate,
) -> (copy: chrono::NaiveDate)
    ensures
        copy == *date,
;

/// The views of the strings of `items`, in their order.
pub open spec fn texts(items: Seq<String>) -> Seq<Seq<char>> {
    items.map_values(|item: String| item@)
}

/// One record of the store.
#[derive(Debug, Clone, PartialEq, Eq)]
pub struct Person {
    pub id: u128,
    pub name: String,
    pub nickname: String,
    pub birthdate: chrono::NaiveDate,
    pub stack: Vec<String>,
}

/// What a [`Person`] holds, as mathematical values.
pub ghost struct PersonView {
    pub id: u128,
    pub name: Seq<char>,
    pub nickname: Seq<char>,
    pub birthdate: chrono::NaiveDate,
    pub stack: Seq<Seq<char>>,
}

impl View for Person {
    type V = PersonView;

    open spec fn view(&self) -> PersonView {
        PersonView {
            id: self.id,
            name: self.name@,
            nickname: self.nickname@,
            birthdate: self.birthdate,
            stack: texts(self.stack@),
        }
    }
}

/// The views of the persons of `rows`, in their order.
pub open spec fn persons(rows: Seq<Person>) -> Seq<PersonView> {
    rows.map_values(|row: Person| row@)
}

/// The lower-case character of the hexadecimal digit `n`.
pub open spec fn hex_digit(n: int) -> char {
    if n < 10 {
        digit(n)
    } else if n == 10 {
        'a'
    } else if n == 11 {
        'b'
    } else if n == 12 {
        'c'
    } else if n == 13 {
        'd'
    } else if n == 14 {
        'e'
    } else {
        'f'
    }
}

/// The hexadecimal digit of `id` at place `k`, where place 0 is the most
/// significant of the 32.
pub open spec fn hex_place(id: u128, k: int) -> int {
    (id as int / vstd::arithmetic::power::pow(16, (31 - k) as nat)) % 16
}

/// An identifier as it is written: its 32 hexadecimal digits in lower case,
/// most significant first, in groups of 8, 4, 4, 4 and 12 with a hyphen
/// between one group and the next.
pub open spec fn hyphenated(id: u128) -> Seq<char> {
    Seq::new(
        36,
        |i: int|
            if i == 8 || i == 13 || i == 18 || i == 23 {
                '-'
            } else if i < 8 {
                hex_digit(hex_place(id, i))
            } else if i < 13 {
                hex_digit(hex_place(id, i - 1))
            } else if i < 18 {
                hex_digit(hex_place(id, i - 2))
            } else if i < 23 {
                hex_digit(hex_place(id, i - 3))
            } else {
                hex_digit(hex_place(id, i - 4))
            },
    )
}

/// Writes an identifier with `uuid`: `Uuid::from_u128` takes the number with
/// its most significant byte first, and the `Display` of the result is the
/// hyphenated lower-case form, which is what the contract spells out.
#[verifier::external_body]
pub(crate) fn identifier_text(id: u128) -> (text: String)
    ensures
        text@ == hyphenated(id),
{
    uuid::Uuid::from_u128(id).to_string()
}

} // verus!
