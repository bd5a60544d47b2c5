//! The shapes of an assignment statement that the checker tells apart.

use crate::location::Location;
use vstd::prelude::*;

verus! {

/// A value read by an assignment.
#[derive(Debug, PartialEq, Eq)]
pub enum Operand {
    /// The value stored at a place, copied.
    Copy(Location),
    /// The value stored at a place, moved out.
    Move(Location),
    /// A value that is read from no place.
    Constant,
}

/// The right-hand side of an assignment.
#[derive(Debug, PartialEq, Eq)]
pub enum Rvalue {
    /// An operand used as it is.
    Use(Operand),
    /// A reference to a place.
    Ref(Location),
    /// The raw address of a place.
    AddressOf(Location),
    /// Any other expression; it neither creates nor uses a reference to a place.
    Other,
}

/// What the checker needs to know of the declared type of a place.
#[derive(Clone, Copy, Debug, PartialEq, Eq, Hash, Structural)]
pub enum TypeKind {
    /// A reference through which the referent can be written.
    MutableReference,
    /// A reference through which the referent can only be read.
    SharedReference,
    /// Any other type.
    Other,
}

impl Clone for Operand {
    fn clone(&self) -> (copy: Operand)
        ensures
            copy == *self,
    {
        match self {
            Operand::Copy(place) => Operand::Copy(place.clone()),
            Operand::Move(place) => Operand::Move(place.clone()),
            Operand::Constant => Operand::Constant,
        }
    }
}

impl Clone for Rvalue {
    fn clone(&self) -> (copy: Rvalue)
        ensures
            copy == *self,
    {
        match self {
            Rvalue::Use(operand) => Rvalue::Use(operand.clone()),
            Rvalue::Ref(place) => Rvalue::Ref(place.clone()),
            Rvalue::AddressOf(place) => Rvalue::AddressOf(place.clone()),
            Rvalue::Other => Rvalue::Other,
        }
    }
}

impl Rvalue {
    /// The place whose value the right-hand side copies or moves, if it does so.
    pub open spec fn used_place(self) -> Option<Location> {
        match self {
            Rvalue::Use(Operand::Copy(place)) => Some(place),
            Rvalue::Use(Operand::Move(place)) => Some(place),
            _ => None,
        }
    }

    /// The place that the right-hand side takes a reference to or the address of, if it does so.
    pub open spec fn referenced_place(self) -> Option<Location> {
        match self {
            Rvalue::Ref(place) => Some(place),
            Rvalue::AddressOf(place) => Some(place),
            _ => None,
        }
    }
}

} // verus!
