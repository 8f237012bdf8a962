//! The `Person` record and its two presentation operations, with the
//! exact output text stated over `Seq<char>` views.

use vstd::prelude::*;
use crate::decimal::decimal_digits;
use crate::decimal::u32_to_decimal;

verus! {

/// A person record: a display name and a non-negative age. The record is
/// immutable after construction; the operations below only read it.
pub struct Person {
    pub name: String,
    pub age: u32,
}

/// The exact greeting text for a given name: `Hello, <name>!`,
/// the name substituted verbatim.
pub open spec fn greeting_of(name: Seq<char>) -> Seq<char> {
    "Hello, "@ + name + "!"@
}

/// The exact description text for a given name and age:
/// `<name> is <age> years old`, the age in base-10 decimal.
pub open spec fn description_of(name: Seq<char>, age: nat) -> Seq<char> {
    name + " is "@ + decimal_digits(age) + " years old"@
}

impl Person {
    /// Constructs a record holding exactly the supplied name and age.
    /// The age type is unsigned, so every age a caller can supply is
    /// valid and construction never fails.
    pub fn new(name: String, age: u32) -> (person: Person)
        ensures
            person.name@ == name@,
            person.age == age,
    {
        Person { name, age }
    }

    /// Returns the greeting for this record.
    pub fn greet(&self) -> (text: String)
        ensures
            text@ == greeting_of(self.name@),
    {
        let mut text = String::from_str("Hello, ");
        text.append(self.name.as_str());
        text.append("!");
        text
    }
}

/// Returns the greeting for a record, as a free function.
pub fn greet(person: &Person) -> (text: String)
    ensures
        text@ == greeting_of(person.name@),
{
    person.greet()
}

/// Returns the description of a record.
pub fn display_person(person: &Person) -> (text: String)
    ensures
        text@ == description_of(person.name@, person.age as nat),
{
    let mut text = String::from_str(person.name.as_str());
    text.append(" is ");
    let age_text = u32_to_decimal(person.age);
    text.append(age_text.as_str());
    text.append(" years old");
    text
}

/// Law: the greeting text is a function of the record's name alone, so
/// two calls of `greet` on an unchanged record return identical text.
pub proof fn lemma_greet_repeatable(
    first: Person,
    second: Person,
    text1: Seq<char>,
    text2: Seq<char>,
)
    requires
        first.name@ == second.name@,
        text1 == greeting_of(first.name@),
        text2 == greeting_of(second.name@),
    ensures
        text1 == text2,
{
}

/// Law: the description text is a function of the record's name and age
/// alone, so two calls of `display_person` on an unchanged record return
/// identical text.
pub proof fn lemma_display_repeatable(
    first: Person,
    second: Person,
    text1: Seq<char>,
    text2: Seq<char>,
)
    requires
        first.name@ == second.name@,
        first.age == second.age,
        text1 == description_of(first.name@, first.age as nat),
        text2 == description_of(second.name@, second.age as nat),
    ensures
        text1 == text2,
{
}

} // verus!
