//! What holds of every check of an assignment.
//!
//! Each law is stated over the model of the checker: the snapshot of the
//! environment before the check, and the functions that give the findings and
//! the snapshot after it.

use crate::checker::{
    after_assign, after_destination, after_source, assign_findings, destination_finding,
    source_finding,
};
use crate::diagnostic::{Diagnostic, Violation};
use crate::environment::Snapshot;
use crate::location::Location;
use crate::statement::{Rvalue, TypeKind};
use crate::status::Status;
use vstd::prelude::*;

verus! {

/// The canonical form of a location depends on the referents alone: recording
/// a status changes no canonical form.
pub proof fn law_canonical_form_ignores_records(
    first: Snapshot,
    second: Snapshot,
    location: Location,
)
    requires
        first.referents == second.referents,
    ensures
        first.canonical(location) == second.canonical(location),
    decreases location,
{
    match location {
        Location::Local(_) => {},
        Location::Qualified { base, selector } => {
            law_canonical_form_ignores_records(first, second, *base);
        },
    }
}

/// Detection is repeatable: checked against the same snapshot, the same
/// assignment gives the same findings, whatever has been found before and
/// whatever types have been declared.
pub proof fn law_same_snapshot_same_findings(
    first: Snapshot,
    second: Snapshot,
    place: Location,
    rvalue: Rvalue,
)
    requires
        first.referents =~= second.referents,
        first.statuses =~= second.statuses,
    ensures
        assign_findings(first, place, rvalue) == assign_findings(second, place, rvalue),
{
}

/// Detection is local: two snapshots with the same referents give the same
/// findings for an assignment as soon as they agree on the record of the
/// target of the write and on the record of the place that is read.
pub proof fn law_findings_depend_on_what_is_read(
    first: Snapshot,
    second: Snapshot,
    place: Location,
    rvalue: Rvalue,
)
    requires
        first.referents == second.referents,
        place.is_deref() ==> first.status_at(first.canonical(place)) == second.status_at(
            first.canonical(place),
        ),
        rvalue.used_place() matches Some(used) ==> first.status_at(first.canonical(used))
            == second.status_at(first.canonical(used)),
    ensures
        assign_findings(first, place, rvalue) == assign_findings(second, place, rvalue),
{
    law_canonical_form_ignores_records(first, second, place);
    if let Some(used) = rvalue.used_place() {
        let first_then = after_destination(first, place);
        let second_then = after_destination(second, place);
        law_canonical_form_ignores_records(first, first_then, used);
        law_canonical_form_ignores_records(first, second_then, used);
        let source = first.canonical(used);
        assert(first_then.status_at(source) == second_then.status_at(source));
    }
}

/// The check is not idempotent on the environment: every write through a
/// dereference leaves a strictly longer record at its canonical target, so the
/// snapshot after the check differs from the one before it.
pub proof fn law_write_grows_record(
    environment: Snapshot,
    kind: TypeKind,
    place: Location,
    rvalue: Rvalue,
)
    requires
        place.is_deref(),
    ensures
        after_assign(environment, kind, place, rvalue).recorded(environment.canonical(place)).len()
            > environment.recorded(environment.canonical(place)).len(),
        after_assign(environment, kind, place, rvalue) != environment,
{
    let target = environment.canonical(place);
    let middle = after_destination(environment, place);
    let end = after_source(middle, kind, rvalue);
    assert(middle.recorded(target).len() == environment.recorded(target).len() + 1);
    assert(middle.recorded(target).is_prefix_of(end.recorded(target)));
}

/// A second write through the only mutable reference to a location, checked
/// against the environment that the first check left behind, is reported as
/// not exclusive although the first was not reported at all.
pub proof fn law_repeated_write_is_reported(environment: Snapshot, place: Location)
    requires
        place.is_deref(),
        environment.status_at(environment.canonical(place)) == Some(seq![Status::Mutable]),
    ensures
        destination_finding(environment, place).is_none(),
        destination_finding(after_destination(environment, place), place) == Some(
            Diagnostic {
                violation: Violation::NotExclusive,
                location: environment.canonical(place),
            },
        ),
{
    let target = environment.canonical(place);
    let then = after_destination(environment, place);
    law_canonical_form_ignores_records(environment, then, place);
    let before = seq![Status::Mutable];
    assert(before[0] == Status::Mutable);
    assert(then.statuses[target] == before.push(Status::Mutated));
    assert(then.statuses[target][0] == Status::Mutable);
}

/// Exclusivity of writes through a dereference, told by the record of the
/// canonical target before the write:
/// - a record with no `Mutable` entry gives a `NotMutable` finding;
/// - a record with a `Mutable` entry and more than one entry gives a
///   `NotExclusive` finding;
/// - a record that is one `Mutable` entry, and the lack of a record, give no finding.
///
/// A destination that is not reached via dereference gives no finding either.
pub proof fn law_exclusive_writes(environment: Snapshot, place: Location)
    ensures
        place.is_deref() ==> {
            let target = environment.canonical(place);
            let record = environment.status_at(target);
            &&& (record.is_some() && !record.unwrap().contains(Status::Mutable))
                <==> destination_finding(environment, place) == Some(
                Diagnostic { violation: Violation::NotMutable, location: target },
            )
            &&& (record.is_some() && record.unwrap().contains(Status::Mutable)
                && record.unwrap().len() >= 2) <==> destination_finding(environment, place)
                == Some(Diagnostic { violation: Violation::NotExclusive, location: target })
            &&& (record.is_none() || record.unwrap() == seq![Status::Mutable])
                <==> destination_finding(environment, place).is_none()
        },
        !place.is_deref() ==> destination_finding(environment, place).is_none(),
{
    if place.is_deref() {
        let target = environment.canonical(place);
        let record = environment.status_at(target);
        if record.is_some() {
            let statuses = record.unwrap();
            let only = seq![Status::Mutable];
            assert(only[0] == Status::Mutable);
            if statuses.contains(Status::Mutable) && statuses.len() <= 1 {
                assert(statuses =~= only);
            }
        }
    }
}

/// Exclusivity is enforced by findings: a write through a dereference of a
/// location with two `Mutable` entries on record is always reported.
pub proof fn law_second_mutable_reference_is_reported(
    environment: Snapshot,
    place: Location,
    i: int,
    j: int,
)
    requires
        place.is_deref(),
        0 <= i < j < environment.recorded(environment.canonical(place)).len(),
        environment.recorded(environment.canonical(place))[i] == Status::Mutable,
        environment.recorded(environment.canonical(place))[j] == Status::Mutable,
    ensures
        destination_finding(environment, place) == Some(
            Diagnostic {
                violation: Violation::NotExclusive,
                location: environment.canonical(place),
            },
        ),
{
}

/// Use after mutation: a copy or a move of a place whose canonical form is a
/// local binding gives a `MutatedThenAccessed` finding if the record of that
/// binding holds `Mutated`, and no finding if it does not.
pub proof fn law_use_after_mutation(environment: Snapshot, rvalue: Rvalue)
    requires
        rvalue.used_place().is_some(),
        environment.canonical(rvalue.used_place().unwrap()).is_local(),
    ensures
        ({
            let source = environment.canonical(rvalue.used_place().unwrap());
            if environment.recorded(source).contains(Status::Mutated) {
                source_finding(environment, rvalue) == Some(
                    Diagnostic { violation: Violation::MutatedThenAccessed, location: source },
                )
            } else {
                source_finding(environment, rvalue).is_none()
            }
        }),
{
    let source = environment.canonical(rvalue.used_place().unwrap());
    if !environment.statuses.contains_key(source) {
        assert(!Seq::<Status>::empty().contains(Status::Mutated));
    }
}

/// Only a copy or a move of a place whose canonical form is a local binding is
/// ever reported by the second phase.
pub proof fn law_other_sources_are_not_reported(environment: Snapshot, rvalue: Rvalue)
    requires
        rvalue.used_place().is_none() || !environment.canonical(
            rvalue.used_place().unwrap(),
        ).is_local(),
    ensures
        source_finding(environment, rvalue).is_none(),
{
}

/// Classification of references: a reference to, or the address of, a place
/// whose canonical form is a local binding is recorded there as `Mutable` where
/// the destination is declared a mutable reference and as `Aliased` where it is
/// declared a shared reference. Nothing is recorded where the destination has
/// another type, nor where the canonical form of the place is not a local
/// binding.
pub proof fn law_reference_classification(environment: Snapshot, kind: TypeKind, rvalue: Rvalue)
    requires
        rvalue.referenced_place().is_some(),
    ensures
        ({
            let referent = environment.canonical(rvalue.referenced_place().unwrap());
            if !referent.is_local() {
                after_source(environment, kind, rvalue) == environment
            } else {
                match kind {
                    TypeKind::MutableReference => after_source(environment, kind, rvalue)
                        == environment.record(referent, Status::Mutable),
                    TypeKind::SharedReference => after_source(environment, kind, rvalue)
                        == environment.record(referent, Status::Aliased),
                    TypeKind::Other => after_source(environment, kind, rvalue) == environment,
                }
            }
        }),
{
}

/// A right-hand side that takes no reference records nothing.
pub proof fn law_other_sources_record_nothing(
    environment: Snapshot,
    kind: TypeKind,
    rvalue: Rvalue,
)
    requires
        rvalue.referenced_place().is_none(),
    ensures
        after_source(environment, kind, rvalue) == environment,
{
}

/// A finding is advisory: the environment after a write through a dereference
/// is the same whether the write was reported or not, and `Mutated` is the
/// last entry of the record of the target.
pub proof fn law_findings_do_not_stop_the_update(environment: Snapshot, place: Location)
    requires
        place.is_deref(),
    ensures
        after_destination(environment, place) == environment.record(
            environment.canonical(place),
            Status::Mutated,
        ),
        after_destination(environment, place).recorded(environment.canonical(place)).last()
            == Status::Mutated,
{
}

/// Records are histories: the check of an assignment removes no record and no
/// status, it only appends, and it leaves the referents alone.
pub proof fn law_records_only_grow(
    environment: Snapshot,
    kind: TypeKind,
    place: Location,
    rvalue: Rvalue,
    location: Location,
)
    ensures
        after_assign(environment, kind, place, rvalue).referents == environment.referents,
        environment.statuses.contains_key(location) ==> after_assign(
            environment,
            kind,
            place,
            rvalue,
        ).statuses.contains_key(location),
        environment.recorded(location).is_prefix_of(
            after_assign(environment, kind, place, rvalue).recorded(location),
        ),
{
    let middle = after_destination(environment, place);
    let end = after_source(middle, kind, rvalue);
    assert(environment.recorded(location).is_prefix_of(middle.recorded(location)));
    assert(middle.recorded(location).is_prefix_of(end.recorded(location)));
}

/// The check of an assignment touches two records at most: that of the
/// canonical target of a write through a dereference and that of the canonical
/// form of a place that a reference is taken to. Every other record is the
/// same after the check, and a location without a record still has none.
pub proof fn law_unrelated_records_are_kept(
    environment: Snapshot,
    kind: TypeKind,
    place: Location,
    rvalue: Rvalue,
    location: Location,
)
    requires
        place.is_deref() ==> location != environment.canonical(place),
        rvalue.referenced_place() matches Some(referenced) ==> location != environment.canonical(
            referenced,
        ),
    ensures
        after_assign(environment, kind, place, rvalue).status_at(location)
            == environment.status_at(location),
{
    if let Some(referenced) = rvalue.referenced_place() {
        law_canonical_form_ignores_records(
            environment,
            after_destination(environment, place),
            referenced,
        );
    }
}

/// A write through an alias is seen at the binding: after a write through a
/// dereference whose canonical target is a local binding, a copy or a move of
/// any place with that canonical form is reported.
pub proof fn law_write_through_alias_is_seen(
    environment: Snapshot,
    place: Location,
    rvalue: Rvalue,
)
    requires
        place.is_deref(),
        rvalue.used_place().is_some(),
        environment.aliases(place, rvalue.used_place().unwrap()),
        environment.canonical(place).is_local(),
    ensures
        source_finding(after_destination(environment, place), rvalue) == Some(
            Diagnostic {
                violation: Violation::MutatedThenAccessed,
                location: environment.canonical(place),
            },
        ),
        assign_findings(environment, place, rvalue).last() == (Diagnostic {
            violation: Violation::MutatedThenAccessed,
            location: environment.canonical(place),
        }),
{
    let target = environment.canonical(place);
    let then = after_destination(environment, place);
    law_canonical_form_ignores_records(environment, then, rvalue.used_place().unwrap());
    let record = then.statuses[target];
    assert(record == environment.recorded(target).push(Status::Mutated));
    assert(record[record.len() - 1] == Status::Mutated);
}

} // verus!
