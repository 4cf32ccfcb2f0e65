use vstd::prelude::*;

verus! {

/// How much of a snippet a backend can run, from least to most capable.
/// `Selected` is a sentinel above every declared capability: the caller
/// picked the backend by name.
#[derive(Clone, Copy, Debug, PartialEq, Eq, Structural)]
pub enum SupportLevel {
    Unsupported,
    Line,
    Bloc,
    Import,
    File,
    Project,
    System,
    Selected,
}

/// The position of a level in the total order.
pub open spec fn level_rank(l: SupportLevel) -> nat {
    match l {
        SupportLevel::Unsupported => 0,
        SupportLevel::Line => 1,
        SupportLevel::Bloc => 2,
        SupportLevel::Import => 5,
        SupportLevel::File => 10,
        SupportLevel::Project => 20,
        SupportLevel::System => 30,
        SupportLevel::Selected => 255,
    }
}

/// `l`, brought down to `max` where it is above it.
pub open spec fn capped(l: SupportLevel, max: SupportLevel) -> SupportLevel {
    if level_rank(l) > level_rank(max) {
        max
    } else {
        l
    }
}

impl SupportLevel {
    /// This level, brought down to `max` where it is above it.
    pub fn capped_at(&self, max: SupportLevel) -> (r: SupportLevel)
        ensures
            r == capped(*self, max),
    {
        if self.exceeds(&max) {
            max
        } else {
            *self
        }
    }

    /// The numeric weight of this level; a higher weight is a more capable level.
    pub fn weight(&self) -> (r: u8)
        ensures
            r as nat == level_rank(*self),
    {
        match self {
            SupportLevel::Unsupported => 0,
            SupportLevel::Line => 1,
            SupportLevel::Bloc => 2,
            SupportLevel::Import => 5,
            SupportLevel::File => 10,
            SupportLevel::Project => 20,
            SupportLevel::System => 30,
            SupportLevel::Selected => 255,
        }
    }

    /// Whether this level is strictly above `other`.
    pub fn exceeds(&self, other: &SupportLevel) -> (r: bool)
        ensures
            r == (level_rank(*self) > level_rank(*other)),
    {
        self.weight() > other.weight()
    }

    /// Whether this level is `other` or above it.
    pub fn at_least(&self, other: &SupportLevel) -> (r: bool)
        ensures
            r == (level_rank(*self) >= level_rank(*other)),
    {
        self.weight() >= other.weight()
    }
}

} // verus!
