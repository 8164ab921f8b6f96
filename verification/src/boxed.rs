//! Rust values boxed into JavaScript objects, and strings shared through a
//! cell.

use crate::text::{concat2, concat3};
use vstd::prelude::*;
use vstd::string::*;

verus! {

/// A person with a name.
#[derive(Debug)]
pub struct Person {
    name: String,
}

impl View for Person {
    /// The name.
    type V = Seq<char>;

    closed spec fn view(&self) -> Seq<char> {
        self.name@
    }
}

impl Person {
    /// A person named `name`.
    pub fn new(name: String) -> (p: Person)
        ensures
            p@ == name@,
    {
        Person { name }
    }

    /// `Hello, <name>!`.
    pub fn greet(&self) -> (s: String)
        ensures
            s@ == "Hello, "@ + self@ + "!"@,
    {
        concat3("Hello, ", self.name.as_str(), "!")
    }

    /// Renames the person.
    pub fn set_name(&mut self, name: String)
        ensures
            final(self)@ == name@,
    {
        self.name = name;
    }
}

/// The person named by the first argument, to be boxed.
pub fn person_new(name: String) -> (p: Person)
    ensures
        p@ == name@,
{
    Person::new(name)
}

/// The greeting of a boxed person.
pub fn person_greet(person: &Person) -> (s: String)
    ensures
        s@ == "Hello, "@ + person@ + "!"@,
{
    person.greet()
}

/// The person named by the first argument, to be held in a shared cell.
pub fn ref_person_new(name: String) -> (p: Person)
    ensures
        p@ == name@,
{
    Person::new(name)
}

/// The greeting of a person held in a shared cell.
pub fn ref_person_greet(person: &Person) -> (s: String)
    ensures
        s@ == "Hello, "@ + person@ + "!"@,
{
    person.greet()
}

/// Renames a person held in a shared cell.
pub fn ref_person_set_name(person: &mut Person, name: String)
    ensures
        final(person)@ == name@,
{
    person.set_name(name);
}

/// The unit value, to be boxed.
pub fn external_unit() {
}

/// `s`, to be boxed.
pub fn create_boxed_string(s: String) -> (r: String)
    ensures
        r@ == s@,
{
    s
}

/// The boxed string followed by `rhs`.
pub fn boxed_string_concat(this: String, rhs: String) -> (r: String)
    ensures
        r@ == this@ + rhs@,
{
    concat2(this.as_str(), rhs.as_str())
}

/// `s`, to be held in a shared cell.
pub fn create_string_ref_cell(s: String) -> (r: String)
    ensures
        r@ == s@,
{
    s
}

/// A copy of the string in the cell.
pub fn read_string_ref_cell(s: &String) -> (r: String)
    ensures
        r@ == s@,
{
    s.clone()
}

/// Replaces the string in the cell with `value`.
pub fn write_string_ref_cell(s: &mut String, value: String)
    ensures
        final(s)@ == value@,
{
    *s = value;
}

/// The string in the cell followed by `rhs`.
pub fn string_ref_cell_concat(lhs: &String, rhs: String) -> (r: String)
    ensures
        r@ == lhs@ + rhs@,
{
    concat2(lhs.as_str(), rhs.as_str())
}

/// The borrowed string followed by `rhs`.
pub fn string_ref_concat(lhs: &String, rhs: String) -> (r: String)
    ensures
        r@ == lhs@ + rhs@,
{
    concat2(lhs.as_str(), rhs.as_str())
}

/// Replaces the mutably borrowed string with `value`.
pub fn write_string_ref(s: &mut String, value: String)
    ensures
        final(s)@ == value@,
{
    *s = value;
}

} // verus!
