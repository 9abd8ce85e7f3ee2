//! Recording a person.

use crate::error::{HttpError, Message, ToHttpStatus};
use crate::person::{hyphenated, identifier_text, texts};
use crate::response::{Body, BodyView, Response, ResponseView, StatusCode};
use crate::store::StoreError;
use crate::text::same_text;
use crate::utils::{LengthError, LengthRestrictedString};
use vstd::prelude::*;
use vstd::string::*;

verus! {

/// The code by which the database says that a value that must be unique is
/// there already.
pub const POSTGRES_UNIQUE_VALIDATION_ERROR_CODE: &'static str = "23505";

pub const MIN_NICKNAME_SIZE: usize = 1;

pub const MAX_NICKNAME_SIZE: usize = 32;

pub const MIN_NAME_SIZE: usize = 1;

pub const MAX_NAME_SIZE: usize = 100;

pub const MIN_STACK_NAME_SIZE: usize = 1;

pub const MAX_STACK_NAME_SIZE: usize = 32;

/// A nickname: 1 to 32 characters.
pub type Nickname = LengthRestrictedString<MIN_NICKNAME_SIZE, MAX_NICKNAME_SIZE>;

/// A name: 1 to 100 characters.
pub type Name = LengthRestrictedString<MIN_NAME_SIZE, MAX_NAME_SIZE>;

/// One entry of a stack: 1 to 32 characters.
pub type StackName = LengthRestrictedString<MIN_STACK_NAME_SIZE, MAX_STACK_NAME_SIZE>;

/// The views of the entries of a stack, in their order.
pub open spec fn stack_texts(items: Seq<StackName>) -> Seq<Seq<char>> {
    items.map_values(|item: StackName| item@)
}

/// The body of a request to record a person, with every bound met.
#[derive(Debug, Clone, PartialEq, Eq)]
pub struct CreatePersonDto {
    pub nickname: Nickname,
    pub name: Name,
    pub birthdate: chrono::NaiveDate,
    pub stack: Option<Vec<StackName>>,
}

/// What a [`CreatePersonDto`] holds, as mathematical values.
pub ghost struct CreatePersonDtoView {
    pub nickname: Seq<char>,
    pub name: Seq<char>,
    pub birthdate: chrono::NaiveDate,
    pub stack: Option<Seq<Seq<char>>>,
}

impl View for CreatePersonDto {
    type V = CreatePersonDtoView;

    open spec fn view(&self) -> CreatePersonDtoView {
        CreatePersonDtoView {
            nickname: self.nickname@,
            name: self.name@,
            birthdate: self.birthdate,
            stack: match self.stack {
                Some(items) => Some(stack_texts(items@)),
                None => None,
            },
        }
    }
}

/// The fields of the body of a request to record a person.
#[derive(Debug, Clone, Copy, PartialEq, Eq)]
pub enum Field {
    Nickname,
    Name,
    Birthdate,
    Stack,
}

/// Why the body of a request to record a person was refused.
#[derive(Debug, Clone, PartialEq, Eq)]
pub enum ValidationError {
    /// A field that must be there is not.
    Missing(Field),
    /// A text of the field is too short or too long.
    Length(Field, LengthError),
}

/// What the store is asked to record.
#[derive(Debug, Clone, PartialEq, Eq)]
pub struct NewPerson {
    pub name: String,
    pub nickname: String,
    pub birthdate: chrono::NaiveDate,
    pub stack: Vec<String>,
}

/// What a [`NewPerson`] holds, as mathematical values.
pub ghost struct NewPersonView {
    pub name: Seq<char>,
    pub nickname: Seq<char>,
    pub birthdate: chrono::NaiveDate,
    pub stack: Seq<Seq<char>>,
}

impl View for NewPerson {
    type V = NewPersonView;

    open spec fn view(&self) -> NewPersonView {
        NewPersonView {
            name: self.name@,
            nickname: self.nickname@,
            birthdate: self.birthdate,
            stack: texts(self.stack@),
        }
    }
}

/// What the store answers when it has recorded a person.
#[derive(Debug, Clone, Copy, PartialEq, Eq)]
pub struct CreatePersonDbResponse {
    pub id: u128,
}

/// How recording a person fails.
#[derive(Debug, Clone, Copy, PartialEq, Eq)]
pub enum CreatePersonError {
    NicknameAlreadyExists,
    UnknownError,
}

impl ToHttpStatus for CreatePersonError {
    open spec fn status(&self) -> StatusCode {
        match self {
            CreatePersonError::NicknameAlreadyExists => StatusCode::UnprocessableEntity,
            CreatePersonError::UnknownError => StatusCode::InternalServerError,
        }
    }

    fn status_code(&self) -> (code: StatusCode) {
        match self {
            CreatePersonError::NicknameAlreadyExists => StatusCode::UnprocessableEntity,
            CreatePersonError::UnknownError => StatusCode::InternalServerError,
        }
    }
}

impl Message for CreatePersonError {
    open spec fn message(&self) -> Seq<char> {
        match self {
            CreatePersonError::NicknameAlreadyExists => "there is already a person with that nickname"@,
            CreatePersonError::UnknownError => "unknown error"@,
        }
    }

    fn to_string(&self) -> (text: String) {
        match self {
            CreatePersonError::NicknameAlreadyExists => String::from_str(
                "there is already a person with that nickname",
            ),
            CreatePersonError::UnknownError => String::from_str("unknown error"),
        }
    }
}

/// Whether `refusal` is what is reported of `text` where it does not lie
/// within `min..=max`.
pub open spec fn refuses(refusal: LengthError, text: Seq<char>, min: usize, max: usize) -> bool {
    &&& !(min <= text.len() <= max)
    &&& refusal.value@ == text
    &&& refusal.length == text.len()
    &&& refusal.min == min
    &&& refusal.max == max
}

/// Whether the entry at `at` is the first of `items` that is no stack name.
pub open spec fn first_refused(items: Seq<Seq<char>>, at: int) -> bool {
    &&& 0 <= at < items.len()
    &&& !StackName::accepts(items[at])
    &&& forall|k: int| 0 <= k < at ==> StackName::accepts(#[trigger] items[k])
}

/// Whether every entry of `items` is a stack name.
pub open spec fn all_accepted(items: Seq<Seq<char>>) -> bool {
    forall|k: int| 0 <= k < items.len() ==> StackName::accepts(#[trigger] items[k])
}

/// What `from_fields` answers. The fields are looked at in the order
/// nickname, name, birthdate, stack, and the first that is missing or out of
/// its bounds is the one reported; a stack may be left out.
pub open spec fn validated(
    nickname: Option<Seq<char>>,
    name: Option<Seq<char>>,
    birthdate: Option<chrono::NaiveDate>,
    stack: Option<Seq<Seq<char>>>,
    answer: Result<CreatePersonDto, ValidationError>,
) -> bool {
    let nickname_fits = nickname is Some && Nickname::accepts(nickname->0);
    let name_fits = name is Some && Name::accepts(name->0);
    match answer {
        Ok(body) => {
            &&& nickname_fits
            &&& name_fits
            &&& birthdate is Some
            &&& stack is Some ==> all_accepted(stack->0)
            &&& body@ == CreatePersonDtoView {
                nickname: nickname->0,
                name: name->0,
                birthdate: birthdate->0,
                stack,
            }
        },
        Err(ValidationError::Missing(Field::Nickname)) => nickname is None,
        Err(ValidationError::Length(Field::Nickname, refusal)) => {
            &&& nickname is Some
            &&& refuses(refusal, nickname->0, MIN_NICKNAME_SIZE, MAX_NICKNAME_SIZE)
        },
        Err(ValidationError::Missing(Field::Name)) => nickname_fits && name is None,
        Err(ValidationError::Length(Field::Name, refusal)) => {
            &&& nickname_fits
            &&& name is Some
            &&& refuses(refusal, name->0, MIN_NAME_SIZE, MAX_NAME_SIZE)
        },
        Err(ValidationError::Missing(Field::Birthdate)) => nickname_fits && name_fits
            && birthdate is None,
        Err(ValidationError::Length(Field::Stack, refusal)) => {
            &&& nickname_fits
            &&& name_fits
            &&& birthdate is Some
            &&& stack is Some
            &&& exists|at: int|
                first_refused(stack->0, at) && refuses(
                    refusal,
                    #[trigger] stack->0[at],
                    MIN_STACK_NAME_SIZE,
                    MAX_STACK_NAME_SIZE,
                )
        },
        Err(_) => false,
    }
}

/// Checks each entry of a stack and keeps them all, or reports the first
/// that is too short or too long.
pub fn stack_names(items: &Vec<String>) -> (answer: Result<Vec<StackName>, LengthError>)
    ensures
        match answer {
            Ok(names) => all_accepted(texts(items@)) && stack_texts(names@) == texts(items@),
            Err(refusal) => exists|at: int|
                first_refused(texts(items@), at) && refuses(
                    refusal,
                    #[trigger] texts(items@)[at],
                    MIN_STACK_NAME_SIZE,
                    MAX_STACK_NAME_SIZE,
                ),
        },
{
    let mut names: Vec<StackName> = Vec::new();
    let mut i: usize = 0;
    while i < items.len()
        invariant
            i <= items.len(),
            names.len() == i,
            forall|k: int| 0 <= k < i ==> StackName::accepts(#[trigger] texts(items@)[k]),
            forall|k: int| 0 <= k < i ==> (#[trigger] names[k])@ == items[k]@,
        decreases items.len() - i,
    {
        match StackName::new(items[i].as_str()) {
            Ok(name) => {
                names.push(name);
            },
            Err(refusal) => {
                assert(first_refused(texts(items@), i as int));
                assert(refuses(
                    refusal,
                    texts(items@)[i as int],
                    MIN_STACK_NAME_SIZE,
                    MAX_STACK_NAME_SIZE,
                ));
                return Err(refusal);
            },
        }
        i = i + 1;
    }
    assert(stack_texts(names@) =~= texts(items@));
    Ok(names)
}

impl CreatePersonDto {
    /// Builds the body from the fields as they were read, each of which may
    /// be absent.
    pub fn from_fields(
        nickname: Option<String>,
        name: Option<String>,
        birthdate: Option<chrono::NaiveDate>,
        stack: Option<Vec<String>>,
    ) -> (answer: Result<CreatePersonDto, ValidationError>)
        ensures
            validated(
                match nickname {
                    Some(text) => Some(text@),
                    None => None,
                },
                match name {
                    Some(text) => Some(text@),
                    None => None,
                },
                birthdate,
                match stack {
                    Some(items) => Some(texts(items@)),
                    None => None,
                },
                answer,
            ),
    {
        let nickname = match nickname {
            None => {
                return Err(ValidationError::Missing(Field::Nickname));
            },
            Some(text) => match Nickname::new(text.as_str()) {
                Err(refusal) => {
                    return Err(ValidationError::Length(Field::Nickname, refusal));
                },
                Ok(kept) => kept,
            },
        };
        let name = match name {
            None => {
                return Err(ValidationError::Missing(Field::Name));
            },
            Some(text) => match Name::new(text.as_str()) {
                Err(refusal) => {
                    return Err(ValidationError::Length(Field::Name, refusal));
                },
                Ok(kept) => kept,
            },
        };
        let birthdate = match birthdate {
            None => {
                return Err(ValidationError::Missing(Field::Birthdate));
            },
            Some(date) => date,
        };
        let stack = match stack {
            None => None,
            Some(items) => match stack_names(&items) {
                Err(refusal) => {
                    proof {
                        let entries = texts(items@);
                        let at = choose|at: int|
                            first_refused(entries, at) && refuses(
                                refusal,
                                #[trigger] entries[at],
                                MIN_STACK_NAME_SIZE,
                                MAX_STACK_NAME_SIZE,
                            );
                        assert(Some(entries)->0[at] == entries[at]);
                    }
                    return Err(ValidationError::Length(Field::Stack, refusal));
                },
                Ok(names) => Some(names),
            },
        };
        Ok(CreatePersonDto { nickname, name, birthdate, stack })
    }

    /// What the store is asked to record for this body: its name, nickname
    /// and birthdate, and its stack, which is empty where the body has none.
    pub open spec fn insert(self) -> NewPersonView {
        NewPersonView {
            name: self@.name,
            nickname: self@.nickname,
            birthdate: self.birthdate,
            stack: match self@.stack {
                Some(items) => items,
                None => Seq::empty(),
            },
        }
    }

    /// What the store is asked to record for this body.
    pub fn into_insert(self) -> (record: NewPerson)
        ensures
            record@ == self.insert(),
    {
        let mut stack: Vec<String> = Vec::new();
        match &self.stack {
            None => {
                assert(texts(stack@) =~= Seq::<Seq<char>>::empty());
            },
            Some(items) => {
                let mut i: usize = 0;
                while i < items.len()
                    invariant
                        i <= items.len(),
                        stack.len() == i,
                        forall|k: int| 0 <= k < i ==> (#[trigger] stack[k])@ == items[k]@,
                    decreases items.len() - i,
                {
                    stack.push(items[i].as_ref().to_owned());
                    i = i + 1;
                }
                assert(texts(stack@) =~= stack_texts(items@));
            },
        }
        NewPerson {
            name: self.name.as_ref().to_owned(),
            nickname: self.nickname.as_ref().to_owned(),
            birthdate: self.birthdate,
            stack,
        }
    }
}

/// Where a person is to be found: the path of the persons, a slash, and the
/// identifier as it is written.
pub open spec fn person_location(id: u128) -> Seq<char> {
    "/pessoas/"@ + hyphenated(id)
}

/// Where the person with the identifier `id` is to be found.
pub fn location(id: u128) -> (place: String)
    ensures
        place@ == person_location(id),
{
    let mut place = String::from_str("/pessoas/");
    let written = identifier_text(id);
    place.append(written.as_str());
    place
}

/// The failure that a failure of the store becomes: a nickname that is there
/// already where the database reports a value that must be unique, and an
/// unknown error for everything else.
pub open spec fn failure_of(error: StoreError) -> CreatePersonError {
    if error.has_code(POSTGRES_UNIQUE_VALIDATION_ERROR_CODE@) {
        CreatePersonError::NicknameAlreadyExists
    } else {
        CreatePersonError::UnknownError
    }
}

/// Whatever the store reports, recording fails with 422 where the database
/// gave the code of a value that must be unique, and with 500 in every other
/// case; the text for the client depends on that alone.
pub proof fn lemma_store_failure_status(error: StoreError)
    ensures
        error.has_code("23505"@) ==> failure_of(error).status().number() == 422 && failure_of(
            error,
        ).message() == "there is already a person with that nickname"@,
        !error.has_code("23505"@) ==> failure_of(error).status().number() == 500 && failure_of(
            error,
        ).message() == "unknown error"@,
{
}

/// Tells a nickname that is there already from every other failure.
pub fn classify(error: &StoreError) -> (failure: CreatePersonError)
    ensures
        failure == failure_of(*error),
{
    match error {
        StoreError::Database { code: Some(code) } => {
            if same_text(code.as_str(), POSTGRES_UNIQUE_VALIDATION_ERROR_CODE) {
                CreatePersonError::NicknameAlreadyExists
            } else {
                CreatePersonError::UnknownError
            }
        },
        _ => CreatePersonError::UnknownError,
    }
}

/// What the store's answer to the insert becomes: the new identifier, or the
/// failure that the store's failure stands for.
pub fn run_query(outcome: Result<CreatePersonDbResponse, StoreError>) -> (answer: Result<
    CreatePersonDbResponse,
    HttpError<CreatePersonError>,
>)
    ensures
        match outcome {
            Ok(row) => answer == Ok::<CreatePersonDbResponse, HttpError<CreatePersonError>>(row),
            Err(error) => answer == Err::<CreatePersonDbResponse, HttpError<CreatePersonError>>(
                HttpError(failure_of(error)),
            ),
        },
{
    match outcome {
        Ok(row) => Ok(row),
        Err(error) => Err(HttpError::new(classify(&error))),
    }
}

/// The response to a request whose person was recorded under `id`: created,
/// with the place of the new person and no body.
pub open spec fn created(id: u128) -> ResponseView {
    ResponseView {
        status: StatusCode::Created,
        location: Some(person_location(id)),
        body: BodyView::Empty,
    }
}

/// Answers a request to record a person, given what the store said to the
/// insert.
pub fn create_person(outcome: Result<CreatePersonDbResponse, StoreError>) -> (answer: Result<
    Response,
    HttpError<CreatePersonError>,
>)
    ensures
        match outcome {
            Ok(row) => answer is Ok && answer->Ok_0@ == created(row.id),
            Err(error) => answer == Err::<Response, HttpError<CreatePersonError>>(
                HttpError(failure_of(error)),
            ),
        },
{
    match run_query(outcome) {
        Ok(row) => Ok(
            Response { status: StatusCode::Created, location: Some(location(row.id)), body: Body::Empty },
        ),
        Err(error) => Err(error),
    }
}

} // verus!
