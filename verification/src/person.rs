//! A person record: a name plus age, height and hunger level, with
//! verified constructors, getters and mutators.

use vstd::prelude::*;

verus! {

/// A person. Hunger runs from 0 (starving) to 100 (full); feeding stops
/// once the level has passed 90.
#[derive(Debug)]
pub struct Person {
    pub name: String,
    pub age: u8,
    pub height: u8,
    pub hunger_level: u8,
}

impl Person {
    /// A newborn: age zero, 50 units tall, completely full.
    pub fn from_birth(name: String) -> (baby: Self)
        ensures
            baby.name == name,
            baby.age == 0,
            baby.height == 50,
            baby.hunger_level == 100,
    {
        Self { age: 0, height: 50, hunger_level: 100, name }
    }

    /// A person from all four fields at once.
    pub fn from(age: u8, height: u8, hunger_level: u8, name: String) -> (person: Self)
        ensures
            person.age == age,
            person.height == height,
            person.hunger_level == hunger_level,
            person.name == name,
    {
        Self { age, height, hunger_level, name }
    }

    /// Feeds the person one meal: the hunger level rises by 10 unless it
    /// already stands above 90, in which case nothing changes. Returns
    /// whether the meal was eaten.
    pub fn eat_food(&mut self) -> (fed: bool)
        ensures
            fed == (old(self).hunger_level <= 90),
            fed ==> final(self).hunger_level == old(self).hunger_level + 10,
            !fed ==> final(self).hunger_level == old(self).hunger_level,
            final(self).name == old(self).name,
            final(self).age == old(self).age,
            final(self).height == old(self).height,
    {
        if self.hunger_level <= 90 {
            self.hunger_level += 10;
            true
        } else {
            false
        }
    }

    /// The person's age; the method mirrors the field of the same name.
    pub fn age(&self) -> (age: u8)
        ensures
            age == self.age,
    {
        self.age
    }

    /// Whether this person may date the other: the other may be at most
    /// 5 years older and at most 30 units taller. The other must not be
    /// younger or shorter, or the two gaps would be meaningless.
    pub fn can_date(&self, other: &Person) -> (compatible: bool)
        requires
            self.age <= other.age,
            self.height <= other.height,
        ensures
            compatible == (other.age - self.age <= 5 && other.height - self.height <= 30),
    {
        if other.age - self.age > 5 || other.height - self.height > 30 {
            false
        } else {
            true
        }
    }

    /// A reference to the person's name.
    pub fn name(&self) -> (name: &String)
        ensures
            *name == self.name,
    {
        &self.name
    }

    /// One year older. The age must not yet be at the top of its range.
    pub fn have_birthday(&mut self)
        requires
            old(self).age < u8::MAX,
        ensures
            final(self).age == old(self).age + 1,
            final(self).name == old(self).name,
            final(self).height == old(self).height,
            final(self).hunger_level == old(self).hunger_level,
    {
        self.age += 1;
    }

    /// A fight between two people: the taller one wins; on equal heights
    /// the other wins.
    pub fn fight(self, other: Person) -> (winner: Person)
        ensures
            winner == if self.height > other.height {
                self
            } else {
                other
            },
    {
        if self.height > other.height {
            self
        } else {
            other
        }
    }
}

} // verus!
