//! Memory locations: local variables and the locations derived from them.

use vstd::prelude::*;

verus! {

/// The step that leads from a base location to a location derived from it.
#[derive(Clone, Copy, Debug, PartialEq, Eq, Hash, Structural)]
pub enum Selector {
    /// Follows the pointer or reference stored at the base location.
    Deref,
    /// Selects the field with the given index.
    Field(u64),
    /// Selects the element whose index is the value of the local binding with the given ordinal.
    Index(u64),
    /// Selects the element at a fixed offset, counted from the end where `from_end` is set.
    ConstantIndex { offset: u64, from_end: bool },
    /// Selects the elements from `from` up to `to`, the latter counted from the end where
    /// `from_end` is set.
    Subslice { from: u64, to: u64, from_end: bool },
    /// Takes the base location as the variant with the given index.
    Downcast(u64),
}

/// A descriptor of a memory location.
#[derive(Debug, PartialEq, Eq, Hash)]
pub enum Location {
    /// The named local binding with the given ordinal.
    Local(u64),
    /// The location reached from `base` through `selector`.
    Qualified { base: Box<Location>, selector: Selector },
}

impl Location {
    /// A location is local when it names a local binding directly.
    pub open spec fn spec_is_local(&self) -> bool {
        self is Local
    }

    /// A location is reached via dereference when its outermost selector is `Deref`.
    pub open spec fn spec_is_deref(&self) -> bool {
        self matches Location::Qualified { selector, .. } && selector == Selector::Deref
    }

    /// Tells whether the location names a local binding directly.
    #[verifier::when_used_as_spec(spec_is_local)]
    pub fn is_local(&self) -> (local: bool)
        ensures
            local == self.spec_is_local(),
    {
        match self {
            Location::Local(_) => true,
            Location::Qualified { .. } => false,
        }
    }

    /// Tells whether the location is reached via dereference.
    #[verifier::when_used_as_spec(spec_is_deref)]
    pub fn is_deref(&self) -> (deref: bool)
        ensures
            deref == self.spec_is_deref(),
    {
        match self {
            Location::Qualified { selector: Selector::Deref, .. } => true,
            _ => false,
        }
    }

    /// The local binding with the given ordinal.
    pub fn local(ordinal: u64) -> (location: Location)
        ensures
            location == Location::Local(ordinal),
    {
        Location::Local(ordinal)
    }

    /// The location that `selector` reaches from `base`.
    pub fn qualified(base: Location, selector: Selector) -> (location: Location)
        ensures
            location == (Location::Qualified { base: Box::new(base), selector }),
    {
        Location::Qualified { base: Box::new(base), selector }
    }

    /// The location that the pointer stored at `base` leads to.
    pub fn deref(base: Location) -> (location: Location)
        ensures
            location == (Location::Qualified { base: Box::new(base), selector: Selector::Deref }),
            location.is_deref(),
    {
        Location::Qualified { base: Box::new(base), selector: Selector::Deref }
    }

    /// Tells whether two descriptors are the same.
    pub fn same(&self, other: &Location) -> (equal: bool)
        ensures
            equal == (*self == *other),
        decreases *self,
    {
        match self {
            Location::Local(ordinal) => match other {
                Location::Local(other_ordinal) => *ordinal == *other_ordinal,
                Location::Qualified { .. } => false,
            },
            Location::Qualified { base, selector } => match other {
                Location::Local(_) => false,
                Location::Qualified { base: other_base, selector: other_selector } => {
                    *selector == *other_selector && base.same(other_base)
                },
            },
        }
    }
}

impl Clone for Location {
    fn clone(&self) -> (copy: Location)
        ensures
            copy == *self,
        decreases *self,
    {
        match self {
            Location::Local(ordinal) => Location::Local(*ordinal),
            Location::Qualified { base, selector } => Location::Qualified {
                base: Box::new((**base).clone()),
                selector: *selector,
            },
        }
    }
}

} // verus!
