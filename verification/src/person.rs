//! A person with a name and an age, and the sentence they introduce themselves with.

use vstd::prelude::*;

verus! {

/// A named person of a given age.
pub struct Person {
    pub name: String,
    pub age: u32,
}

/// What a `Person` stands for in specifications: the characters of the name and the age.
pub struct PersonView {
    pub name: Seq<char>,
    pub age: nat,
}

impl View for Person {
    type V = PersonView;

    open spec fn view(&self) -> PersonView {
        PersonView { name: self.name@, age: self.age as nat }
    }
}

/// The sentence with which a person called `name` introduces themselves.
pub open spec fn greeting_text(name: Seq<char>) -> Seq<char> {
    "Hello, my name is "@ + name
}

impl Person {
    /// Makes a person from a name and an age. Any name is accepted, the empty one too.
    pub fn new(name: String, age: u32) -> (person: Self)
        ensures
            person@ == (PersonView { name: name@, age: age as nat }),
    {
        Person { name, age }
    }

    /// The greeting of this person: a fixed opening followed by the name, unchanged.
    pub fn greeting(&self) -> (text: String)
        ensures
            text@ == greeting_text(self@.name),
    {
        let mut text = String::from_str("Hello, my name is ");
        text.append(self.name.as_str());
        text
    }
}

} // verus!
