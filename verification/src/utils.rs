//! Text whose length is checked once, when it is built.

use crate::text::{decimal, decimal_string};
use vstd::prelude::*;
use vstd::string::*;

verus! {

/// Why a text was refused: the text itself, how many characters it has, and
/// the bounds it had to meet.
#[derive(Debug, Clone, PartialEq, Eq)]
pub struct LengthError {
    pub value: String,
    pub length: usize,
    pub min: usize,
    pub max: usize,
}

/// Whether a text of `len` characters lies within `min..=max`.
pub open spec fn length_allowed(len: nat, min: usize, max: usize) -> bool {
    min <= len <= max
}

/// What is said of a text that was refused, for the bounds `min..=max`.
pub open spec fn expected_length(min: usize, max: usize) -> Seq<char> {
    "a string no shorter than "@ + decimal(min as nat) + " and no longer than "@ + decimal(
        max as nat,
    ) + " characters"@
}

/// A text of at least `MIN` and at most `MAX` characters.
///
/// The only way to obtain one is [`LengthRestrictedString::new`], and nothing
/// changes it afterwards, so the bound holds for as long as the value lives.
#[derive(Debug, PartialEq, Eq)]
pub struct LengthRestrictedString<const MIN: usize, const MAX: usize>(String);

impl<const MIN: usize, const MAX: usize> Clone for LengthRestrictedString<MIN, MAX> {
    fn clone(&self) -> (copy: Self)
        ensures
            copy@ == self@,
    {
        proof {
            use_type_invariant(self);
        }
        LengthRestrictedString(self.0.clone())
    }
}

impl<const MIN: usize, const MAX: usize> View for LengthRestrictedString<MIN, MAX> {
    type V = Seq<char>;

    open spec fn view(&self) -> Seq<char> {
        self.kept()@
    }
}

impl<const MIN: usize, const MAX: usize> LengthRestrictedString<MIN, MAX> {
    #[verifier::type_invariant]
    spec fn within_bounds(self) -> bool {
        length_allowed(self.0@.len(), MIN, MAX)
    }

    /// The string that was kept when the value was built.
    pub closed spec fn kept(self) -> String {
        self.0
    }

    /// Whether `new` accepts a text with these characters.
    pub open spec fn accepts(text: Seq<char>) -> bool {
        length_allowed(text.len(), MIN, MAX)
    }

    /// What `new` answers for `text`: the text itself where it is accepted,
    /// and otherwise the text, its length and both bounds.
    pub open spec fn checked(text: Seq<char>, answer: Result<Self, LengthError>) -> bool {
        match answer {
            Ok(kept) => Self::accepts(text) && kept@ == text,
            Err(refusal) => {
                &&& !Self::accepts(text)
                &&& refusal.value@ == text
                &&& refusal.length == text.len()
                &&& refusal.min == MIN
                &&& refusal.max == MAX
            },
        }
    }

    /// Checks the length of `v` and keeps a copy of it, or reports the
    /// length found together with both bounds.
    pub fn new(v: &str) -> (answer: Result<Self, LengthError>)
        ensures
            Self::checked(v@, answer),
    {
        let length: usize = v.unicode_len();
        if length < MIN || length > MAX {
            Err(LengthError { value: v.to_owned(), length, min: MIN, max: MAX })
        } else {
            Ok(LengthRestrictedString(v.to_owned()))
        }
    }

    /// The text, unchanged since it was accepted.
    pub fn as_ref(&self) -> (text: &str)
        ensures
            text@ == self@,
            Self::accepts(text@),
    {
        proof {
            use_type_invariant(self);
        }
        self.0.as_str()
    }

    /// Gives the text away as a plain string, without looking at it again.
    pub fn into_string(self) -> (text: String)
        ensures
            text == self.kept(),
            Self::accepts(text@),
    {
        proof {
            use_type_invariant(&self);
        }
        self.0
    }

    /// Names the bounds, for whoever reports a refusal.
    pub fn expecting() -> (message: String)
        ensures
            message@ == expected_length(MIN, MAX),
    {
        let mut message = String::from_str("a string no shorter than ");
        let least = decimal_string(MIN as u64);
        message.append(least.as_str());
        message.append(" and no longer than ");
        let most = decimal_string(MAX as u64);
        message.append(most.as_str());
        message.append(" characters");
        message
    }

    /// A text shorter than `MIN` or longer than `MAX` is refused, and the
    /// refusal carries the text, its length, `MIN` and `MAX`.
    pub proof fn lemma_out_of_bounds_is_refused(text: Seq<char>, answer: Result<Self, LengthError>)
        requires
            text.len() < MIN || text.len() > MAX,
            Self::checked(text, answer),
        ensures
            answer is Err,
            answer->Err_0.value@ == text,
            answer->Err_0.length == text.len(),
            answer->Err_0.min == MIN,
            answer->Err_0.max == MAX,
    {
    }

    /// A text of `MIN` to `MAX` characters is accepted, and what is read back
    /// from the accepted value is that text.
    pub proof fn lemma_within_bounds_is_kept(text: Seq<char>, answer: Result<Self, LengthError>)
        requires
            MIN <= text.len() <= MAX,
            Self::checked(text, answer),
        ensures
            answer is Ok,
            answer->Ok_0@ == text,
    {
    }
}

impl<const MIN: usize, const MAX: usize> From<LengthRestrictedString<MIN, MAX>> for String {
    fn from(value: LengthRestrictedString<MIN, MAX>) -> (text: String) {
        value.into_string()
    }
}

impl<const MIN: usize, const MAX: usize> vstd::std_specs::convert::FromSpecImpl<LengthRestrictedString<MIN, MAX>> for String {
    open spec fn obeys_from_spec() -> bool {
        true
    }

    open spec fn from_spec(value: LengthRestrictedString<MIN, MAX>) -> String {
        value.kept()
    }
}

} // verus!
