//! Condition flags of the machine.

use vstd::prelude::*;

verus! {

/// One of the six condition flags.
#[derive(Debug, Clone, Copy, PartialEq, Eq, Structural)]
pub enum Flag {
    Equal,
    NotEqual,
    Greater,
    Smaller,
    Overflow,
    Stop,
}

/// The bank of condition flags. Every flag is independent of the others.
#[derive(Debug, Clone, Copy, PartialEq, Eq, Structural)]
pub struct FlagSet {
    pub equal: bool,
    pub not_equal: bool,
    pub greater: bool,
    pub smaller: bool,
    pub overflow: bool,
    pub stop: bool,
}

impl FlagSet {
    /// The value of `flag` in this bank.
    pub open spec fn value(self, flag: Flag) -> bool {
        match flag {
            Flag::Equal => self.equal,
            Flag::NotEqual => self.not_equal,
            Flag::Greater => self.greater,
            Flag::Smaller => self.smaller,
            Flag::Overflow => self.overflow,
            Flag::Stop => self.stop,
        }
    }

    /// This bank with `flag` replaced by `value` and every other flag kept.
    pub open spec fn with(self, flag: Flag, value: bool) -> FlagSet {
        match flag {
            Flag::Equal => FlagSet { equal: value, ..self },
            Flag::NotEqual => FlagSet { not_equal: value, ..self },
            Flag::Greater => FlagSet { greater: value, ..self },
            Flag::Smaller => FlagSet { smaller: value, ..self },
            Flag::Overflow => FlagSet { overflow: value, ..self },
            Flag::Stop => FlagSet { stop: value, ..self },
        }
    }

    /// A bank with every flag cleared.
    pub fn new() -> (flags: FlagSet)
        ensures
            forall|flag: Flag| !flags.value(flag),
    {
        FlagSet {
            equal: false,
            not_equal: false,
            greater: false,
            smaller: false,
            overflow: false,
            stop: false,
        }
    }

    /// Reads one flag.
    pub fn get(&self, flag: Flag) -> (value: bool)
        ensures
            value == self.value(flag),
    {
        match flag {
            Flag::Equal => self.equal,
            Flag::NotEqual => self.not_equal,
            Flag::Greater => self.greater,
            Flag::Smaller => self.smaller,
            Flag::Overflow => self.overflow,
            Flag::Stop => self.stop,
        }
    }

    /// Writes one flag and leaves the other five as they were.
    pub fn set(&mut self, flag: Flag, value: bool)
        ensures
            *final(self) == old(self).with(flag, value),
    {
        match flag {
            Flag::Equal => self.equal = value,
            Flag::NotEqual => self.not_equal = value,
            Flag::Greater => self.greater = value,
            Flag::Smaller => self.smaller = value,
            Flag::Overflow => self.overflow = value,
            Flag::Stop => self.stop = value,
        }
    }
}

impl Default for FlagSet {
    fn default() -> (flags: FlagSet)
        ensures
            forall|flag: Flag| !flags.value(flag),
    {
        FlagSet::new()
    }
}

} // verus!
