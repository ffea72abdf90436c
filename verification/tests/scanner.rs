use migration_checker::identifier::MigrationIdentifier;
use migration_checker::scanner::{get_migration_files, DirectoryEntry};

fn file(name: &str) -> DirectoryEntry {
    DirectoryEntry { name: String::from(name), is_dir: false }
}

fn dir(name: &str) -> DirectoryEntry {
    DirectoryEntry { name: String::from(name), is_dir: true }
}

fn ids(names: &[&str]) -> Vec<MigrationIdentifier> {
    names.iter().map(|name| MigrationIdentifier::new(String::from(*name))).collect()
}

#[test]
fn scanner_excludes_generated_artifacts_and_directories() {
    let entries = vec![
        file("20240101_Init.cs"),
        file("20240101_Init.Designer.cs"),
        file("ModelSnapshot.cs"),
        dir("subdir"),
    ];
    assert_eq!(get_migration_files(&entries), ids(&["20240101_Init"]));
}

#[test]
fn scanner_keeps_the_listing_order() {
    let entries = vec![file("20240301_C.cs"), file("20240101_A.cs"), file("20240201_B.cs")];
    assert_eq!(get_migration_files(&entries), ids(&["20240301_C", "20240101_A", "20240201_B"]));
}

#[test]
fn scanner_of_an_empty_directory() {
    assert_eq!(get_migration_files(&Vec::new()), ids(&[]));
}

#[test]
fn scanner_passes_over_directories_whatever_their_name() {
    let entries = vec![dir("20240101_Init.cs"), dir("Migrations"), file("20240102_Next.cs")];
    assert_eq!(get_migration_files(&entries), ids(&["20240102_Next"]));
}

#[test]
fn scanner_keeps_files_of_any_extension() {
    let entries = vec![file("20240101_Init.sql"), file("20240102_Next"), file("notes.txt")];
    assert_eq!(get_migration_files(&entries), ids(&["20240101_Init", "20240102_Next", "notes"]));
}

#[test]
fn scanner_keeps_two_files_of_one_stem() {
    let entries = vec![file("20240101_Init.cs"), file("20240101_Init.sql")];
    assert_eq!(get_migration_files(&entries), ids(&["20240101_Init", "20240101_Init"]));
}

#[test]
fn scanner_excludes_markers_inside_a_name() {
    let entries = vec![
        file("20240101_Add.DesignerTable.cs"),
        file("20240102_DropModelSnapshotTable.cs"),
        file("20240103_Plain.cs"),
    ];
    assert_eq!(get_migration_files(&entries), ids(&["20240103_Plain"]));
}
