//! The operations of the service and where each is bound.

use crate::controllers::create_person::person_location;
use crate::person::hyphenated;
use vstd::prelude::*;

verus! {

/// The methods the service answers to.
#[derive(Debug, Clone, Copy, PartialEq, Eq)]
pub enum Method {
    Get,
    Post,
}

/// The operations of the service.
#[derive(Debug, Clone, Copy, PartialEq, Eq)]
pub enum Operation {
    CountPersons,
    CreatePerson,
    GetPerson,
    SearchPersons,
}

impl Operation {
    /// The method an operation is bound to: only recording a person posts.
    pub open spec fn bound_method(self) -> Method {
        match self {
            Operation::CreatePerson => Method::Post,
            _ => Method::Get,
        }
    }

    /// The path an operation is bound to, relative to the root of the
    /// service; `{id}` stands for the identifier of a person.
    pub open spec fn bound_path(self) -> Seq<char> {
        match self {
            Operation::CountPersons => "/contagem-pessoas"@,
            Operation::CreatePerson => "/pessoas"@,
            Operation::GetPerson => "/pessoas/{id}"@,
            Operation::SearchPersons => "/pessoas"@,
        }
    }

    /// The method this operation is bound to.
    pub fn method(&self) -> (method: Method)
        ensures
            method == self.bound_method(),
    {
        match self {
            Operation::CreatePerson => Method::Post,
            _ => Method::Get,
        }
    }

    /// The path this operation is bound to.
    pub fn path(&self) -> (path: &'static str)
        ensures
            path@ == self.bound_path(),
    {
        match self {
            Operation::CountPersons => "/contagem-pessoas",
            Operation::CreatePerson => "/pessoas",
            Operation::GetPerson => "/pessoas/{id}",
            Operation::SearchPersons => "/pessoas",
        }
    }
}

/// The operations in the order in which the server registers them.
pub fn operations() -> (all: Vec<Operation>)
    ensures
        all@ == seq![
            Operation::CountPersons,
            Operation::CreatePerson,
            Operation::GetPerson,
            Operation::SearchPersons,
        ],
{
    let mut all: Vec<Operation> = Vec::new();
    all.push(Operation::CountPersons);
    all.push(Operation::CreatePerson);
    all.push(Operation::GetPerson);
    all.push(Operation::SearchPersons);
    assert(all@ =~= seq![
        Operation::CountPersons,
        Operation::CreatePerson,
        Operation::GetPerson,
        Operation::SearchPersons,
    ]);
    all
}

/// The place that is given for a new person is the path on which persons
/// are recorded, a slash, and the identifier as it is written: the path on
/// which that person is fetched.
pub proof fn lemma_location_lies_under_persons(id: u128)
    ensures
        person_location(id) == Operation::CreatePerson.bound_path() + "/"@ + hyphenated(id),
        person_location(id).len() == Operation::CreatePerson.bound_path().len() + 37,
{
    reveal_strlit("/pessoas/");
    reveal_strlit("/pessoas");
    reveal_strlit("/");
    assert("/pessoas/"@ =~= "/pessoas"@ + "/"@);
    assert(person_location(id) =~= "/pessoas"@ + "/"@ + hyphenated(id));
}

} // verus!
