use migration_checker::identifier::{contains_text, file_stem, MigrationIdentifier};

#[test]
fn stem_strips_the_extension() {
    assert_eq!(file_stem("20240101_Init.cs"), "20240101_Init");
}

#[test]
fn stem_strips_only_the_last_extension() {
    assert_eq!(file_stem("20240101_Init.Designer.cs"), "20240101_Init.Designer");
    assert_eq!(file_stem("archive.tar.gz"), "archive.tar");
}

#[test]
fn stem_of_a_name_without_a_dot_is_the_name() {
    assert_eq!(file_stem("README"), "README");
    assert_eq!(file_stem(""), "");
}

#[test]
fn stem_keeps_a_leading_dot() {
    assert_eq!(file_stem(".gitignore"), ".gitignore");
    assert_eq!(file_stem("."), ".");
    assert_eq!(file_stem(".hidden.cs"), ".hidden");
}

#[test]
fn stem_of_a_name_that_ends_in_a_dot() {
    assert_eq!(file_stem("Init."), "Init");
    assert_eq!(file_stem("a.b."), "a.b");
}

#[test]
fn stem_counts_characters_not_bytes() {
    assert_eq!(file_stem("Änderung_Größe.cs"), "Änderung_Größe");
    assert_eq!(file_stem("迁移.sql"), "迁移");
}

#[test]
fn contains_text_finds_a_run_anywhere() {
    assert!(contains_text("20240101_Init.Designer", ".Designer"));
    assert!(contains_text(".Designer_tail", ".Designer"));
    assert!(contains_text("abc", "abc"));
    assert!(contains_text("abc", "c"));
}

#[test]
fn contains_text_rejects_what_is_not_there() {
    assert!(!contains_text("20240101_Init", ".Designer"));
    assert!(!contains_text("Designer", ".Designer"));
    assert!(!contains_text("ab", "abc"));
    assert!(!contains_text("", "a"));
    assert!(!contains_text("aab", "aba"));
}

#[test]
fn contains_text_finds_the_empty_pattern() {
    assert!(contains_text("abc", ""));
    assert!(contains_text("", ""));
}

#[test]
fn contains_text_does_not_fold_case() {
    assert!(!contains_text("modelsnapshot", "ModelSnapshot"));
    assert!(!contains_text("x.designer", ".Designer"));
}

#[test]
fn contains_text_after_a_partial_match() {
    assert!(contains_text("ModModelSnapshot", "ModelSnapshot"));
    assert!(contains_text("..Designer", ".Designer"));
}

#[test]
fn file_name_declares_its_stem() {
    let id = MigrationIdentifier::from_file_name("20240101_Init.cs").unwrap();
    assert_eq!(id.as_str(), "20240101_Init");
    assert_eq!(id.into_string(), String::from("20240101_Init"));
}

#[test]
fn designer_files_declare_nothing() {
    assert_eq!(MigrationIdentifier::from_file_name("20240101_Init.Designer.cs"), None);
}

#[test]
fn snapshot_files_declare_nothing() {
    assert_eq!(MigrationIdentifier::from_file_name("ModelSnapshot.cs"), None);
    assert_eq!(MigrationIdentifier::from_file_name("AppDbContextModelSnapshot.cs"), None);
}

#[test]
fn markers_count_wherever_they_stand() {
    assert_eq!(MigrationIdentifier::from_file_name("20240101_Add.DesignerTable.cs"), None);
    assert_eq!(MigrationIdentifier::from_file_name("20240101_ModelSnapshotCleanup.cs"), None);
}

#[test]
fn marker_in_the_extension_does_not_count() {
    let id = MigrationIdentifier::from_file_name("20240101_Init.Designer").unwrap();
    assert_eq!(id.as_str(), "20240101_Init");
}

#[test]
fn markers_are_case_sensitive() {
    let id = MigrationIdentifier::from_file_name("20240101_Init.designer.cs").unwrap();
    assert_eq!(id.as_str(), "20240101_Init.designer");
    let id = MigrationIdentifier::from_file_name("modelsnapshot.cs").unwrap();
    assert_eq!(id.as_str(), "modelsnapshot");
}

#[test]
fn identifiers_compare_by_exact_characters() {
    let a = MigrationIdentifier::new(String::from("M1"));
    let b = MigrationIdentifier::new(String::from("M1"));
    let lower = MigrationIdentifier::new(String::from("m1"));
    let padded = MigrationIdentifier::new(String::from("M1 "));
    assert_eq!(a, b);
    assert_ne!(a, lower);
    assert_ne!(a, padded);
}

#[test]
fn identifier_clone_keeps_the_name() {
    let a = MigrationIdentifier::new(String::from("20240101_Init"));
    let b = a.clone();
    assert_eq!(a, b);
    assert_eq!(b.as_str(), "20240101_Init");
}

#[test]
fn ledger_names_are_taken_as_they_stand() {
    let id = MigrationIdentifier::new(String::from("20240101_Init.Designer"));
    assert_eq!(id.as_str(), "20240101_Init.Designer");
}
