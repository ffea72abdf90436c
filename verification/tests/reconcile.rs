use migration_checker::identifier::MigrationIdentifier;
use migration_checker::ledger::AppliedMigrationSet;
use migration_checker::reconcile::reconcile;

fn ids(names: &[&str]) -> Vec<MigrationIdentifier> {
    names.iter().map(|name| MigrationIdentifier::new(String::from(*name))).collect()
}

fn set(names: &[&str]) -> AppliedMigrationSet {
    let mut applied = AppliedMigrationSet::new();
    for name in names {
        applied.insert(MigrationIdentifier::new(String::from(*name)));
    }
    applied
}

#[test]
fn reports_what_is_declared_and_not_applied() {
    let report = reconcile(&ids(&["M1", "M2", "M3"]), &set(&["M1", "M3"]));
    assert_eq!(report, ids(&["M2"]));
}

#[test]
fn nothing_applied_reports_everything() {
    let declared = ids(&["M3", "M1", "M2"]);
    let report = reconcile(&declared, &set(&[]));
    assert_eq!(report, declared);
}

#[test]
fn everything_applied_reports_nothing() {
    let report = reconcile(&ids(&["M1", "M2"]), &set(&["M0", "M1", "M2", "M3"]));
    assert_eq!(report, ids(&[]));
}

#[test]
fn nothing_declared_reports_nothing() {
    let report = reconcile(&ids(&[]), &set(&["M1"]));
    assert_eq!(report, ids(&[]));
}

#[test]
fn report_keeps_the_declared_order() {
    let report = reconcile(&ids(&["M9", "M2", "M7", "M1", "M5"]), &set(&["M2", "M1"]));
    assert_eq!(report, ids(&["M9", "M7", "M5"]));
}

#[test]
fn report_keeps_repeated_declarations() {
    let report = reconcile(&ids(&["M1", "M2", "M1", "M2"]), &set(&["M2"]));
    assert_eq!(report, ids(&["M1", "M1"]));
}

#[test]
fn report_holds_exactly_the_unapplied() {
    let declared = ids(&["A", "B", "C", "D", "E"]);
    let applied = set(&["B", "D", "Z"]);
    let report = reconcile(&declared, &applied);
    for id in &declared {
        assert_eq!(report.contains(id), !applied.contains(id));
    }
    for id in &report {
        assert!(declared.contains(id));
        assert!(!applied.contains(id));
    }
}

#[test]
fn applied_identifiers_match_exactly() {
    let report = reconcile(&ids(&["Init", "init", "Init "]), &set(&["Init"]));
    assert_eq!(report, ids(&["init", "Init "]));
}

#[test]
fn same_inputs_give_the_same_report() {
    let declared = ids(&["M2", "M1", "M3"]);
    let applied = set(&["M1"]);
    assert_eq!(reconcile(&declared, &applied), reconcile(&declared, &applied));
}
