//! The migration file scanner: which identifiers a directory declares.
//!
//! The scanner works on a listing of the directory's direct entries, in the
//! order in which the file system gave them. It does not sort.

use vstd::prelude::*;
use crate::identifier::{
    declared_by,
    is_generated_artifact,
    names_of,
    stem_of,
    MigrationIdentifier,
};

verus! {

/// The identifiers that a directory declares, in the order of its listing.
pub type DeclaredMigrationSequence = Vec<MigrationIdentifier>;

/// One direct entry of the migrations directory.
#[derive(Debug)]
pub struct DirectoryEntry {
    /// The entry's name: the last component of its path.
    pub name: String,
    /// Whether the entry is itself a directory.
    pub is_dir: bool,
}

/// The identifier that an entry declares, if it declares one: directories
/// and generated companion artifacts declare none.
pub open spec fn candidate_of(entry: DirectoryEntry) -> Option<Seq<char>> {
    if entry.is_dir {
        None
    } else {
        declared_by(entry.name@)
    }
}

/// The identifiers that a listing declares, in the order of the listing.
pub open spec fn declared_in(entries: Seq<DirectoryEntry>) -> Seq<Seq<char>> {
    entries.filter_map(|entry: DirectoryEntry| candidate_of(entry))
}

/// Whatever the scanner yields is the stem of a listed file, and no
/// generated companion artifact: directories and artifacts never come
/// through.
pub proof fn law_scan_excludes_artifacts(entries: Seq<DirectoryEntry>, id: Seq<char>)
    requires
        declared_in(entries).contains(id),
    ensures
        !is_generated_artifact(id),
        exists|entry: DirectoryEntry| #[trigger]
            entries.contains(entry) && !entry.is_dir && stem_of(entry.name@) == id,
{
    entries.lemma_filter_map_contains(|entry: DirectoryEntry| candidate_of(entry), id);
}

/// Derives the declared migration identifiers from a directory listing.
/// Subdirectories are passed over, not entered.
pub fn get_migration_files(entries: &Vec<DirectoryEntry>) -> (declared:
    DeclaredMigrationSequence)
    ensures
        names_of(declared@) == declared_in(entries@),
        forall|i: int| 0 <= i < declared.len() ==> !is_generated_artifact(#[trigger] declared[i]@),
{
    let mut declared: Vec<MigrationIdentifier> = Vec::new();
    let mut at: usize = 0;
    while at < entries.len()
        invariant
            at <= entries.len(),
            names_of(declared@) == declared_in(entries@.take(at as int)),
        decreases entries.len() - at,
    {
        proof {
            entries@.lemma_filter_map_take_succ(
                |entry: DirectoryEntry| candidate_of(entry),
                at as int,
            );
        }
        if !entries[at].is_dir {
            if let Some(id) = MigrationIdentifier::from_file_name(entries[at].name.as_str()) {
                declared.push(id);
            }
        }
        at += 1;
    }
    assert(entries@.take(at as int) =~= entries@);
    assert forall|i: int| 0 <= i < declared.len() implies !is_generated_artifact(
        #[trigger] declared[i]@,
    ) by {
        assert(names_of(declared@)[i] == declared[i]@);
        law_scan_excludes_artifacts(entries@, declared[i]@);
    }
    declared
}

} // verus!
