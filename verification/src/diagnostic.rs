//! The findings of the checker.

use crate::location::Location;
use vstd::prelude::*;

verus! {

/// The rule that an assignment breaks.
#[derive(Clone, Copy, Debug, PartialEq, Eq, Hash, Structural)]
pub enum Violation {
    /// A write through a dereference of a location with no mutable reference on record.
    NotMutable,
    /// A write through a dereference of a location with more than one status on record.
    NotExclusive,
    /// A read of a local binding that has been written through an alias.
    MutatedThenAccessed,
}

impl Violation {
    /// The text of the message of a violation.
    pub open spec fn message_text(self) -> Seq<char> {
        match self {
            Violation::NotMutable => "not mutable"@,
            Violation::NotExclusive => "not exclusive but being assigned"@,
            Violation::MutatedThenAccessed => "mutated then accessed"@,
        }
    }

    /// What a diagnostic says of the location at which the violation was found.
    pub fn message(&self) -> (text: &'static str)
        ensures
            text@ == self.message_text(),
    {
        match self {
            Violation::NotMutable => "not mutable",
            Violation::NotExclusive => "not exclusive but being assigned",
            Violation::MutatedThenAccessed => "mutated then accessed",
        }
    }
}

/// A finding: a violation and the canonical location at which it was found.
///
/// A finding is advisory. The analysis goes on after it and the environment is
/// updated as if the assignment had been legal.
#[derive(Debug, PartialEq, Eq)]
pub struct Diagnostic {
    pub violation: Violation,
    pub location: Location,
}

impl Clone for Diagnostic {
    fn clone(&self) -> (copy: Diagnostic)
        ensures
            copy == *self,
    {
        Diagnostic { violation: self.violation, location: self.location.clone() }
    }
}

} // verus!
