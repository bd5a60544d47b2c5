//! The transfer function of the analysis for one assignment statement.
//!
//! An assignment is checked in two phases. The first looks at the destination:
//! a write through a dereference must go through the only reference to its
//! target, and that reference must be mutable. The second looks at the source:
//! a local binding must not be read after it has been written through an
//! alias, and a reference taken to a local binding is recorded. The findings
//! are appended to a log; the environment is updated whatever was found.

use crate::diagnostic::{Diagnostic, Violation};
use crate::environment::{Environment, Snapshot};
use crate::location::Location;
use crate::location_map::LocationMap;
use crate::statement::{Operand, Rvalue, TypeKind};
use crate::status::{has_status, Status};
use vstd::prelude::*;

verus! {

/// What is wrong with a write through a dereference of a location with the given record.
pub open spec fn write_violation(record: Option<Seq<Status>>) -> Option<Violation> {
    match record {
        Some(statuses) => if !statuses.contains(Status::Mutable) {
            Some(Violation::NotMutable)
        } else if statuses.len() > 1 {
            Some(Violation::NotExclusive)
        } else {
            None
        },
        None => None,
    }
}

/// What is wrong with a read of a local binding with the given record.
pub open spec fn read_violation(record: Option<Seq<Status>>) -> Option<Violation> {
    match record {
        Some(statuses) => if statuses.contains(Status::Mutated) {
            Some(Violation::MutatedThenAccessed)
        } else {
            None
        },
        None => None,
    }
}

/// The status that a reference stored in a place of the given type gives its referent.
pub open spec fn reference_status(kind: TypeKind) -> Option<Status> {
    match kind {
        TypeKind::MutableReference => Some(Status::Mutable),
        TypeKind::SharedReference => Some(Status::Aliased),
        TypeKind::Other => None,
    }
}

/// The declared type of `place`; `Other` where none has been declared.
pub open spec fn declared_kind(types: Map<Location, TypeKind>, place: Location) -> TypeKind {
    if types.contains_key(place) {
        types[place]
    } else {
        TypeKind::Other
    }
}

/// The finding of the first phase: what is wrong with a write to `place`.
pub open spec fn destination_finding(environment: Snapshot, place: Location) -> Option<
    Diagnostic,
> {
    if place.is_deref() {
        let target = environment.canonical(place);
        match write_violation(environment.status_at(target)) {
            Some(violation) => Some(Diagnostic { violation, location: target }),
            None => None,
        }
    } else {
        None
    }
}

/// The environment after the first phase: a write through a dereference is
/// recorded at its canonical target.
pub open spec fn after_destination(environment: Snapshot, place: Location) -> Snapshot {
    if place.is_deref() {
        environment.record(environment.canonical(place), Status::Mutated)
    } else {
        environment
    }
}

/// The finding of the second phase: what is wrong with the read that `rvalue` makes.
pub open spec fn source_finding(environment: Snapshot, rvalue: Rvalue) -> Option<Diagnostic> {
    match rvalue.used_place() {
        Some(place) => {
            let source = environment.canonical(place);
            if source.is_local() {
                match read_violation(environment.status_at(source)) {
                    Some(violation) => Some(Diagnostic { violation, location: source }),
                    None => None,
                }
            } else {
                None
            }
        },
        None => None,
    }
}

/// The environment after the second phase: a reference taken to a local
/// binding is recorded there, as the type of the destination classifies it.
pub open spec fn after_source(environment: Snapshot, kind: TypeKind, rvalue: Rvalue) -> Snapshot {
    match rvalue.referenced_place() {
        Some(place) => {
            let referent = environment.canonical(place);
            match reference_status(kind) {
                Some(status) => if referent.is_local() {
                    environment.record(referent, status)
                } else {
                    environment
                },
                None => environment,
            }
        },
        None => environment,
    }
}

/// The findings of a phase as a list.
pub open spec fn listed(finding: Option<Diagnostic>) -> Seq<Diagnostic> {
    match finding {
        Some(diagnostic) => seq![diagnostic],
        None => Seq::empty(),
    }
}

/// The findings of the check of one assignment, in the order in which they are made.
pub open spec fn assign_findings(environment: Snapshot, place: Location, rvalue: Rvalue) -> Seq<
    Diagnostic,
> {
    listed(destination_finding(environment, place)) + listed(
        source_finding(after_destination(environment, place), rvalue),
    )
}

/// The environment after the check of one assignment to a place of the given type.
pub open spec fn after_assign(
    environment: Snapshot,
    kind: TypeKind,
    place: Location,
    rvalue: Rvalue,
) -> Snapshot {
    after_source(after_destination(environment, place), kind, rvalue)
}

/// Decides what is wrong with a write through a dereference of a location with the given record.
pub fn judge_write(record: Option<&Vec<Status>>) -> (verdict: Option<Violation>)
    ensures
        verdict == write_violation(
            match record {
                Some(statuses) => Some(statuses@),
                None => None,
            },
        ),
{
    match record {
        Some(statuses) => {
            if !has_status(statuses, Status::Mutable) {
                Some(Violation::NotMutable)
            } else if statuses.len() > 1 {
                Some(Violation::NotExclusive)
            } else {
                None
            }
        },
        None => None,
    }
}

/// Decides what is wrong with a read of a local binding with the given record.
pub fn judge_read(record: Option<&Vec<Status>>) -> (verdict: Option<Violation>)
    ensures
        verdict == read_violation(
            match record {
                Some(statuses) => Some(statuses@),
                None => None,
            },
        ),
{
    match record {
        Some(statuses) => {
            if has_status(statuses, Status::Mutated) {
                Some(Violation::MutatedThenAccessed)
            } else {
                None
            }
        },
        None => None,
    }
}

/// Classifies a reference by the declared type of the place that it is stored in.
pub fn classify_reference(kind: TypeKind) -> (status: Option<Status>)
    ensures
        status == reference_status(kind),
{
    match kind {
        TypeKind::MutableReference => Some(Status::Mutable),
        TypeKind::SharedReference => Some(Status::Aliased),
        TypeKind::Other => None,
    }
}

/// The state of the checker along one path through the program.
pub struct Checker {
    /// What is known of references and locations.
    pub environment: Environment,
    /// The declared types of places.
    pub types: LocationMap<TypeKind>,
    /// The findings so far, oldest first.
    pub diagnostics: Vec<Diagnostic>,
}

impl Checker {
    /// A checker that knows nothing and has found nothing.
    pub fn new() -> (checker: Checker)
        ensures
            checker.environment@ == Snapshot::empty(),
            checker.types@ == Map::<Location, TypeKind>::empty(),
            checker.diagnostics@ == Seq::<Diagnostic>::empty(),
    {
        Checker {
            environment: Environment::new(),
            types: LocationMap::new(),
            diagnostics: Vec::new(),
        }
    }

    /// Declares the type of `place`.
    pub fn declare(&mut self, place: Location, kind: TypeKind)
        ensures
            final(self).types@ == old(self).types@.insert(place, kind),
            final(self).environment == old(self).environment,
            final(self).diagnostics == old(self).diagnostics,
    {
        self.types.insert(place, kind);
    }

    /// The declared type of `place`; `Other` where none has been declared.
    pub fn declared_type_of(&self, place: &Location) -> (kind: TypeKind)
        ensures
            kind == declared_kind(self.types@, *place),
    {
        match self.types.get(place) {
            Some(kind) => *kind,
            None => TypeKind::Other,
        }
    }

    /// Appends a finding to the log.
    pub fn report(&mut self, violation: Violation, location: Location)
        ensures
            final(self).diagnostics@ == old(self).diagnostics@.push(
                Diagnostic { violation, location },
            ),
            final(self).environment == old(self).environment,
            final(self).types == old(self).types,
    {
        self.diagnostics.push(Diagnostic { violation, location });
    }
}

impl Clone for Checker {
    /// A checker of its own with the same content, for a path of the analysis
    /// that forks off.
    fn clone(&self) -> (copy: Checker)
        ensures
            copy.environment@ == self.environment@,
            copy.types@ == self.types@,
            copy.diagnostics@ == self.diagnostics@,
    {
        let copy = Checker {
            environment: self.environment.clone(),
            types: self.types.clone(),
            diagnostics: self.diagnostics.clone(),
        };
        assert(copy.types@ =~= self.types@);
        assert(copy.diagnostics@ =~= self.diagnostics@);
        copy
    }
}

/// The first phase of the check of an assignment to `place`.
///
/// Where `place` is reached via dereference, the write is judged by the record
/// of its canonical target and then recorded there as `Mutated`, whatever the
/// verdict. Any other destination is left alone.
pub fn check_destination(checker: &mut Checker, place: &Location)
    ensures
        final(checker).environment@ == after_destination(old(checker).environment@, *place),
        final(checker).diagnostics@ == old(checker).diagnostics@ + listed(
            destination_finding(old(checker).environment@, *place),
        ),
        final(checker).types == old(checker).types,
{
    if place.is_deref() {
        let target = checker.environment.canonicalize(place);
        match judge_write(checker.environment.status_at(&target)) {
            Some(violation) => {
                checker.report(violation, target.clone());
            },
            None => {},
        }
        checker.environment.update_status_at(target, Status::Mutated);
    }
}

/// The second phase of the check of an assignment of `rvalue` to `place`.
///
/// A copy or a move of a place is judged by the record of its canonical form
/// if that is a local binding. A reference to, or the address of, a place whose
/// canonical form is a local binding is recorded there as the declared type of
/// `place` classifies it. Any other right-hand side is left alone.
pub fn check_source(checker: &mut Checker, place: &Location, rvalue: &Rvalue)
    ensures
        final(checker).environment@ == after_source(
            old(checker).environment@,
            declared_kind(old(checker).types@, *place),
            *rvalue,
        ),
        final(checker).diagnostics@ == old(checker).diagnostics@ + listed(
            source_finding(old(checker).environment@, *rvalue),
        ),
        final(checker).types == old(checker).types,
{
    match rvalue {
        Rvalue::Use(Operand::Copy(used)) | Rvalue::Use(Operand::Move(used)) => {
            let source = checker.environment.canonicalize(used);
            if source.is_local() {
                match judge_read(checker.environment.status_at(&source)) {
                    Some(violation) => {
                        checker.report(violation, source);
                    },
                    None => {},
                }
            }
        },
        Rvalue::Ref(referenced) | Rvalue::AddressOf(referenced) => {
            let kind = checker.declared_type_of(place);
            let referent = checker.environment.canonicalize(referenced);
            if referent.is_local() {
                match classify_reference(kind) {
                    Some(status) => {
                        checker.environment.update_status_at(referent, status);
                    },
                    None => {},
                }
            }
        },
        _ => {},
    }
}

/// Checks the assignment of `rvalue` to `place` and updates the checker.
///
/// The findings are appended to the log in the order in which they are made:
/// that of the destination first, then that of the source, which is judged
/// against the environment as the first phase left it. The declared type that
/// classifies a reference is that of `place`.
pub fn check_assign(checker: &mut Checker, place: &Location, rvalue: &Rvalue)
    ensures
        final(checker).environment@ == after_assign(
            old(checker).environment@,
            declared_kind(old(checker).types@, *place),
            *place,
            *rvalue,
        ),
        final(checker).diagnostics@ == old(checker).diagnostics@ + assign_findings(
            old(checker).environment@,
            *place,
            *rvalue,
        ),
        final(checker).types == old(checker).types,
{
    check_destination(checker, place);
    check_source(checker, place, rvalue);
}

} // verus!
