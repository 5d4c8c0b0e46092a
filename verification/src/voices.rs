//! Things that make themselves heard, each in its own way.

use vstd::prelude::*;
use vstd::string::StringExecFns;
use crate::numerals::{signed_decimal, to_signed_decimal};

verus! {

/// What is heard of something that has no sound of its own: four dots.
pub open spec fn silence() -> Seq<char> {
    "...."@
}

/// Something that makes a sound. Without a sound of its own it makes the
/// sound of silence.
pub trait Communication {
    /// Makes the sound.
    fn sound(&self) -> (words: String)
        default_ensures
            words@ == silence(),
    {
        String::from_str("....")
    }
}

/// A person.
pub struct Human {
    pub name: String,
    pub age: i32,
}

/// An animal.
pub struct Animal {
    pub name: String,
    pub age: i32,
    pub danger: bool,
}

/// A car.
pub struct Car {
    pub label: String,
    pub weight: i64,
}

/// How a person of the given name and age introduces themself.
pub open spec fn greeting(name: Seq<char>, age: int) -> Seq<char> {
    "Hello! My name is "@ + name + ". I'm "@ + signed_decimal(age) + " y.o"@
}

impl Communication for Human {
    /// A person says who they are and how old.
    fn sound(&self) -> (words: String)
        ensures
            words@ == greeting(self.name@, self.age as int),
    {
        let mut words: String = String::from_str("Hello! My name is ");
        words.append(self.name.as_str());
        words.append(". I'm ");
        words.append(to_signed_decimal(self.age as i64).as_str());
        words.append(" y.o");
        words
    }
}

/// What is heard of an animal.
pub open spec fn hiss() -> Seq<char> {
    "shhhhh"@
}

impl Communication for Animal {
    /// An animal hisses, whatever its name, age and temper.
    fn sound(&self) -> (words: String)
        ensures
            words@ == hiss(),
    {
        String::from_str("shhhhh")
    }
}

/// A car has no sound of its own.
impl Communication for Car {

}

} // verus!
