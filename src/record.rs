//! The item record and its two five-field attribute sets.

use vstd::prelude::*;

verus! {

/// One of the five attributes, in their fixed order.
#[derive(Clone, Copy, Debug, PartialEq, Eq, Structural)]
pub enum Stat {
    Strength,
    Dexterity,
    Intelligence,
    Faith,
    Arcane,
}

/// Minimum attribute values needed to use an item.
#[derive(Clone, Copy, Debug, PartialEq, Eq, Structural)]
pub struct Requirements {
    pub strength: u8,
    pub dexterity: u8,
    pub intelligence: u8,
    pub faith: u8,
    pub arcane: u8,
}

/// Scaling grade of an item for each attribute; `'z'` means not determined.
#[derive(Clone, Copy, Debug, PartialEq, Eq, Structural)]
pub struct Scalings {
    pub strength: char,
    pub dexterity: char,
    pub intelligence: char,
    pub faith: char,
    pub arcane: char,
}

/// One item: its category, its display name, and its two attribute sets.
#[derive(Clone, Debug, PartialEq, Eq)]
pub struct Weapon {
    pub category: String,
    pub name: String,
    pub requirements: Requirements,
    pub scalings: Scalings,
}

/// The mathematical value of a [`Weapon`].
pub struct WeaponModel {
    pub category: Seq<char>,
    pub name: Seq<char>,
    pub requirements: Requirements,
    pub scalings: Scalings,
}

impl View for Weapon {
    type V = WeaponModel;

    open spec fn view(&self) -> WeaponModel {
        WeaponModel {
            category: self.category@,
            name: self.name@,
            requirements: self.requirements,
            scalings: self.scalings,
        }
    }
}

/// The grade character that marks a scaling as not determined.
pub const UNDETERMINED: char = 'z';

impl Requirements {
    /// All five requirements at zero.
    pub open spec fn spec_zero() -> Requirements {
        Requirements { strength: 0, dexterity: 0, intelligence: 0, faith: 0, arcane: 0 }
    }

    /// All five requirements at zero.
    pub fn zero() -> (r: Requirements)
        ensures
            r == Requirements::spec_zero(),
    {
        Requirements { strength: 0, dexterity: 0, intelligence: 0, faith: 0, arcane: 0 }
    }

    /// The requirement of one attribute.
    pub open spec fn spec_get(self, s: Stat) -> u8 {
        match s {
            Stat::Strength => self.strength,
            Stat::Dexterity => self.dexterity,
            Stat::Intelligence => self.intelligence,
            Stat::Faith => self.faith,
            Stat::Arcane => self.arcane,
        }
    }

    /// `self` with the requirement of one attribute replaced by `v`.
    pub open spec fn with(self, s: Stat, v: u8) -> Requirements {
        match s {
            Stat::Strength => Requirements { strength: v, ..self },
            Stat::Dexterity => Requirements { dexterity: v, ..self },
            Stat::Intelligence => Requirements { intelligence: v, ..self },
            Stat::Faith => Requirements { faith: v, ..self },
            Stat::Arcane => Requirements { arcane: v, ..self },
        }
    }

    /// Sets the requirement of one attribute, leaving the others.
    pub fn set(&mut self, s: Stat, v: u8)
        ensures
            *final(self) == old(self).with(s, v),
    {
        match s {
            Stat::Strength => self.strength = v,
            Stat::Dexterity => self.dexterity = v,
            Stat::Intelligence => self.intelligence = v,
            Stat::Faith => self.faith = v,
            Stat::Arcane => self.arcane = v,
        }
    }
}

impl Scalings {
    /// All five grades not determined.
    pub open spec fn spec_undetermined() -> Scalings {
        Scalings {
            strength: UNDETERMINED,
            dexterity: UNDETERMINED,
            intelligence: UNDETERMINED,
            faith: UNDETERMINED,
            arcane: UNDETERMINED,
        }
    }

    /// All five grades not determined.
    pub fn undetermined() -> (r: Scalings)
        ensures
            r == Scalings::spec_undetermined(),
    {
        Scalings {
            strength: UNDETERMINED,
            dexterity: UNDETERMINED,
            intelligence: UNDETERMINED,
            faith: UNDETERMINED,
            arcane: UNDETERMINED,
        }
    }
}

/// Why a detail page gave no record.
#[derive(Clone, Debug, PartialEq, Eq)]
pub enum PageError {
    /// A three-letter token of the requirements text names no attribute.
    UnknownStat(String),
    /// The page has fewer than two attribute-text blocks.
    MissingRequirements,
    /// A structural selector of the site description does not parse.
    BadSelector(String),
}

} // verus!
