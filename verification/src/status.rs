//! The four-valued tag that says how a memory location is currently referenced.

use vstd::prelude::*;

verus! {

/// How a memory location is referenced at some point of the analysis.
///
/// The derived order follows the declaration order and is used only to keep
/// collections of statuses deterministic; statuses are never joined into a
/// single value.
#[derive(Clone, Copy, Debug, PartialEq, Eq, PartialOrd, Ord, Hash, Structural)]
pub enum Status {
    /// No reference relationship is known for the location.
    NoRef,
    /// A read-only reference to the location exists.
    Aliased,
    /// A unique mutable reference to the location exists and has not been written through yet.
    Mutable,
    /// The location has been written through a mutable reference or a dereference.
    Mutated,
}

impl Status {
    /// The text of the label of a status.
    pub open spec fn label_text(self) -> Seq<char> {
        match self {
            Status::NoRef => "NoRef"@,
            Status::Aliased => "Aliased"@,
            Status::Mutable => "Mutable"@,
            Status::Mutated => "Mutated"@,
        }
    }

    /// The human-readable label of a status, as it appears in diagnostics.
    pub fn label(&self) -> (text: &'static str)
        ensures
            text@ == self.label_text(),
    {
        match self {
            Status::NoRef => "NoRef",
            Status::Aliased => "Aliased",
            Status::Mutable => "Mutable",
            Status::Mutated => "Mutated",
        }
    }
}

/// Tells whether `status` occurs among `statuses`.
pub fn has_status(statuses: &Vec<Status>, status: Status) -> (found: bool)
    ensures
        found == statuses@.contains(status),
{
    let mut i: usize = 0;
    while i < statuses.len()
        invariant
            i <= statuses.len(),
            forall|j: int| 0 <= j < i ==> statuses@[j] != status,
        decreases statuses.len() - i,
    {
        if statuses[i] == status {
            return true;
        }
        i += 1;
    }
    false
}

} // verus!
