use sbc::{
    check_assign, Checker, Diagnostic, Location, Operand, Rvalue, Status, TypeKind, Violation,
};

const X: u64 = 0;
const R: u64 = 1;
const R2: u64 = 2;
const Y: u64 = 3;
const Q: u64 = 4;

fn local(ordinal: u64) -> Location {
    Location::local(ordinal)
}

fn deref(base: Location) -> Location {
    Location::deref(base)
}

/// Checks `let holder = &mut referent;` or `let holder = &referent;` and binds the reference.
fn take_reference(checker: &mut Checker, holder: u64, kind: TypeKind, referent: u64) {
    checker.declare(local(holder), kind);
    check_assign(checker, &local(holder), &Rvalue::Ref(local(referent)));
    checker.environment.bind_reference(local(holder), local(referent));
}

/// Checks `let binding = constant;`.
fn initialise(checker: &mut Checker, binding: u64) {
    check_assign(checker, &local(binding), &Rvalue::Use(Operand::Constant));
}

#[test]
fn write_through_the_only_mutable_reference() {
    // let x = 1; let r = &mut x; *r = 2;
    let mut checker = Checker::new();
    initialise(&mut checker, X);
    assert_eq!(checker.environment.status_at(&local(X)), None);
    take_reference(&mut checker, R, TypeKind::MutableReference, X);
    assert_eq!(checker.environment.status_at(&local(X)), Some(&vec![Status::Mutable]));
    check_assign(&mut checker, &deref(local(R)), &Rvalue::Use(Operand::Constant));
    assert!(checker.diagnostics.is_empty());
    assert_eq!(
        checker.environment.status_at(&local(X)),
        Some(&vec![Status::Mutable, Status::Mutated])
    );
}

#[test]
fn write_through_one_of_two_shared_references() {
    // let x = 1; let r1 = &x; let r2 = &x; *r1 = 2;
    let mut checker = Checker::new();
    initialise(&mut checker, X);
    take_reference(&mut checker, R, TypeKind::SharedReference, X);
    take_reference(&mut checker, R2, TypeKind::SharedReference, X);
    assert_eq!(
        checker.environment.status_at(&local(X)),
        Some(&vec![Status::Aliased, Status::Aliased])
    );
    check_assign(&mut checker, &deref(local(R)), &Rvalue::Use(Operand::Constant));
    // No mutable reference is on record, and that is found before the number of entries is looked at.
    assert_eq!(
        checker.diagnostics,
        vec![Diagnostic { violation: Violation::NotMutable, location: local(X) }]
    );
    assert_eq!(
        checker.environment.status_at(&local(X)),
        Some(&vec![Status::Aliased, Status::Aliased, Status::Mutated])
    );
}

#[test]
fn write_through_a_mutable_reference_beside_a_shared_one() {
    // let x = 1; let r1 = &x; let r2 = &mut x; *r2 = 2;
    let mut checker = Checker::new();
    initialise(&mut checker, X);
    take_reference(&mut checker, R, TypeKind::SharedReference, X);
    take_reference(&mut checker, R2, TypeKind::MutableReference, X);
    check_assign(&mut checker, &deref(local(R2)), &Rvalue::Use(Operand::Constant));
    assert_eq!(
        checker.diagnostics,
        vec![Diagnostic { violation: Violation::NotExclusive, location: local(X) }]
    );
    assert_eq!(
        checker.environment.status_at(&local(X)),
        Some(&vec![Status::Aliased, Status::Mutable, Status::Mutated])
    );
}

#[test]
fn read_of_a_binding_after_a_write_through_its_reference() {
    // let x = 1; let r = &mut x; *r = 2; let y = x;
    let mut checker = Checker::new();
    initialise(&mut checker, X);
    take_reference(&mut checker, R, TypeKind::MutableReference, X);
    check_assign(&mut checker, &deref(local(R)), &Rvalue::Use(Operand::Constant));
    assert!(checker.diagnostics.is_empty());
    check_assign(&mut checker, &local(Y), &Rvalue::Use(Operand::Copy(local(X))));
    assert_eq!(
        checker.diagnostics,
        vec![Diagnostic { violation: Violation::MutatedThenAccessed, location: local(X) }]
    );
    assert_eq!(
        checker.environment.status_at(&local(X)),
        Some(&vec![Status::Mutable, Status::Mutated])
    );
}

#[test]
fn write_through_an_unrelated_pointer() {
    // let x = 1; let r = &x; *q = 3;
    let mut checker = Checker::new();
    initialise(&mut checker, X);
    take_reference(&mut checker, R, TypeKind::SharedReference, X);
    check_assign(&mut checker, &deref(local(Q)), &Rvalue::Use(Operand::Constant));
    assert!(checker.diagnostics.is_empty());
    assert_eq!(checker.environment.status_at(&local(X)), Some(&vec![Status::Aliased]));
    assert_eq!(checker.environment.status_at(&deref(local(Q))), Some(&vec![Status::Mutated]));
}

#[test]
fn write_through_a_pointer_to_another_binding() {
    // let x = 1; let y = 2; let r = &x; let q = &mut y; *q = 3;
    let mut checker = Checker::new();
    initialise(&mut checker, X);
    initialise(&mut checker, Y);
    take_reference(&mut checker, R, TypeKind::SharedReference, X);
    take_reference(&mut checker, Q, TypeKind::MutableReference, Y);
    check_assign(&mut checker, &deref(local(Q)), &Rvalue::Use(Operand::Constant));
    assert!(checker.diagnostics.is_empty());
    assert_eq!(checker.environment.status_at(&local(X)), Some(&vec![Status::Aliased]));
    assert_eq!(
        checker.environment.status_at(&local(Y)),
        Some(&vec![Status::Mutable, Status::Mutated])
    );
}

#[test]
fn the_same_snapshot_gives_the_same_findings() {
    // let x = 1; let r = &x; *r = 2; checked twice against one snapshot
    let mut checker = Checker::new();
    initialise(&mut checker, X);
    take_reference(&mut checker, R, TypeKind::SharedReference, X);
    let mut first = checker.clone();
    let mut second = checker.clone();
    let place = deref(local(R));
    let rvalue = Rvalue::Use(Operand::Copy(local(X)));
    check_assign(&mut first, &place, &rvalue);
    check_assign(&mut second, &place, &rvalue);
    assert_eq!(first.diagnostics, second.diagnostics);
    assert_eq!(
        first.diagnostics,
        vec![
            Diagnostic { violation: Violation::NotMutable, location: local(X) },
            Diagnostic { violation: Violation::MutatedThenAccessed, location: local(X) },
        ]
    );
    assert_eq!(
        first.environment.status_at(&local(X)),
        second.environment.status_at(&local(X))
    );
    // the snapshot itself is untouched
    assert!(checker.diagnostics.is_empty());
    assert_eq!(checker.environment.status_at(&local(X)), Some(&vec![Status::Aliased]));
}

#[test]
fn findings_do_not_depend_on_unrelated_records() {
    let mut first = Checker::new();
    initialise(&mut first, X);
    take_reference(&mut first, R, TypeKind::MutableReference, X);
    let mut second = first.clone();
    second.environment.update_status_at(local(Y), Status::Mutated);
    second.environment.update_status_at(deref(local(Q)), Status::Aliased);
    second.declare(local(Y), TypeKind::SharedReference);
    second.report(Violation::NotExclusive, local(Y));
    let place = deref(local(R));
    let rvalue = Rvalue::Use(Operand::Move(local(X)));
    check_assign(&mut first, &place, &rvalue);
    check_assign(&mut second, &place, &rvalue);
    assert_eq!(
        first.diagnostics,
        vec![Diagnostic { violation: Violation::MutatedThenAccessed, location: local(X) }]
    );
    assert_eq!(second.diagnostics[1..], first.diagnostics[..]);
}

#[test]
fn the_environment_grows_with_every_check() {
    // let x = 1; let r = &mut x; *r = 2; *r = 2;
    let mut checker = Checker::new();
    initialise(&mut checker, X);
    take_reference(&mut checker, R, TypeKind::MutableReference, X);
    let place = deref(local(R));
    let rvalue = Rvalue::Use(Operand::Constant);
    check_assign(&mut checker, &place, &rvalue);
    assert!(checker.diagnostics.is_empty());
    assert_eq!(
        checker.environment.status_at(&local(X)),
        Some(&vec![Status::Mutable, Status::Mutated])
    );
    check_assign(&mut checker, &place, &rvalue);
    assert_eq!(
        checker.diagnostics,
        vec![Diagnostic { violation: Violation::NotExclusive, location: local(X) }]
    );
    assert_eq!(
        checker.environment.status_at(&local(X)),
        Some(&vec![Status::Mutable, Status::Mutated, Status::Mutated])
    );
}

#[test]
fn records_are_never_shortened() {
    let mut checker = Checker::new();
    initialise(&mut checker, X);
    take_reference(&mut checker, R, TypeKind::MutableReference, X);
    let statements = vec![
        (deref(local(R)), Rvalue::Use(Operand::Constant)),
        (local(Y), Rvalue::Use(Operand::Copy(local(X)))),
        (local(R2), Rvalue::Ref(local(X))),
        (deref(local(Q)), Rvalue::Use(Operand::Move(local(Y)))),
        (local(Y), Rvalue::Other),
        (deref(local(R)), Rvalue::AddressOf(local(Y))),
    ];
    checker.declare(local(R2), TypeKind::SharedReference);
    let watched = vec![local(X), local(Y), deref(local(Q))];
    for (place, rvalue) in statements.iter() {
        let before: Vec<Option<Vec<Status>>> =
            watched.iter().map(|l| checker.environment.status_at(l).cloned()).collect();
        let found_before = checker.diagnostics.len();
        check_assign(&mut checker, place, rvalue);
        assert!(checker.diagnostics.len() >= found_before);
        for (location, old) in watched.iter().zip(before.iter()) {
            let new = checker.environment.status_at(location);
            if let Some(old) = old {
                let new = new.unwrap();
                assert!(new.len() >= old.len());
                assert_eq!(&new[..old.len()], &old[..]);
            }
        }
    }
    assert_eq!(
        checker.environment.status_at(&local(X)),
        Some(&vec![
            Status::Mutable,
            Status::Mutated,
            Status::Aliased,
            Status::Mutated,
        ])
    );
}

#[test]
fn a_forked_path_does_not_see_the_other() {
    let mut checker = Checker::new();
    initialise(&mut checker, X);
    take_reference(&mut checker, R, TypeKind::MutableReference, X);
    let mut fork = checker.clone();
    check_assign(&mut fork, &deref(local(R)), &Rvalue::Use(Operand::Constant));
    check_assign(&mut checker, &local(Y), &Rvalue::Use(Operand::Copy(local(X))));
    assert!(checker.diagnostics.is_empty());
    check_assign(&mut fork, &local(Y), &Rvalue::Use(Operand::Copy(local(X))));
    assert_eq!(
        fork.diagnostics,
        vec![Diagnostic { violation: Violation::MutatedThenAccessed, location: local(X) }]
    );
}
