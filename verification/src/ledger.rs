//! The applied-migrations ledger: the query that reads it and the set of
//! identifiers that its rows record.

use vstd::prelude::*;
use vstd::string::*;
use crate::error::{CheckError, ErrorKind};
use crate::identifier::{names_of, MigrationIdentifier};

verus! {

/// The statement that reads the identifier column of the history table.
pub const LEDGER_QUERY: &'static str = "SELECT MigrationId from __EFMigrationsHistory";

/// What a failure says when a ledger row holds no identifier.
pub const MISSING_IDENTIFIER: &'static str = "Expected row to contain a value";

/// The identifiers that a database records as applied. Order and repetition
/// in the ledger do not matter: the only question asked of the set is
/// whether an identifier belongs to it.
#[derive(Debug)]
pub struct AppliedMigrationSet {
    members: Vec<MigrationIdentifier>,
}

impl View for AppliedMigrationSet {
    type V = Set<Seq<char>>;

    closed spec fn view(&self) -> Set<Seq<char>> {
        names_of(self.members@).to_set()
    }
}

impl AppliedMigrationSet {
    /// No identifier is held twice.
    #[verifier::type_invariant]
    spec fn distinct(&self) -> bool {
        names_of(self.members@).no_duplicates()
    }

    /// The set that holds nothing.
    pub fn new() -> (set: Self)
        ensures
            set@ == Set::<Seq<char>>::empty(),
    {
        let set = AppliedMigrationSet { members: Vec::new() };
        set
    }

    /// Whether the identifier belongs to the set.
    pub fn contains(&self, id: &MigrationIdentifier) -> (found: bool)
        ensures
            found == self@.contains(id@),
    {
        let mut at: usize = 0;
        while at < self.members.len()
            invariant
                at <= self.members.len(),
                forall|i: int| 0 <= i < at ==> names_of(self.members@)[i] != id@,
            decreases self.members.len() - at,
        {
            if self.members[at] == *id {
                assert(names_of(self.members@)[at as int] == id@);
                return true;
            }
            at += 1;
        }
        false
    }

    /// Adds the identifier. Returns whether it was new to the set.
    pub fn insert(&mut self, id: MigrationIdentifier) -> (fresh: bool)
        ensures
            final(self)@ == old(self)@.insert(id@),
            fresh == !old(self)@.contains(id@),
    {
        proof {
            use_type_invariant(&*self);
        }
        if self.contains(&id) {
            false
        } else {
            let ghost before = names_of(self.members@);
            // The members leave the set while they grow: the set itself is
            // never seen with an identifier half added.
            let mut members: Vec<MigrationIdentifier> = Vec::new();
            std::mem::swap(&mut self.members, &mut members);
            members.push(id);
            proof {
                assert(names_of(members@) =~= before.push(id@));
                before.lemma_push_to_set_commute(id@);
            }
            self.members = members;
            true
        }
    }

    /// How many identifiers the set holds.
    pub fn len(&self) -> (count: usize)
        ensures
            count == self@.len(),
            self@.finite(),
    {
        proof {
            use_type_invariant(self);
            names_of(self.members@).unique_seq_to_set();
        }
        self.members.len()
    }
}

/// What the identifier column holds in each row: the identifier's
/// characters, or nothing where the column is null.
pub open spec fn cells_of(rows: Seq<Option<String>>) -> Seq<Option<Seq<char>>> {
    rows.map_values(
        |row: Option<String>|
            match row {
                Some(name) => Some(name@),
                None => None,
            },
    )
}

/// Every row carries an identifier.
pub open spec fn all_present(cells: Seq<Option<Seq<char>>>) -> bool {
    !cells.contains(None)
}

/// The identifiers that the rows of a ledger record.
pub open spec fn recorded_in(cells: Seq<Option<Seq<char>>>) -> Set<Seq<char>> {
    Set::new(|name: Seq<char>| cells.contains(Some(name)))
}

/// Materializes the rows that the ledger query returned. A row without an
/// identifier breaks the ledger's promise and fails the whole read: no row
/// is skipped.
pub fn read_ledger(rows: &Vec<Option<String>>) -> (outcome: Result<AppliedMigrationSet, CheckError>)
    ensures
        all_present(cells_of(rows@)) ==> (outcome matches Ok(applied) && applied@ == recorded_in(
            cells_of(rows@),
        )),
        !all_present(cells_of(rows@)) ==> (outcome matches Err(error) && error.kind
            == ErrorKind::Query && error.detail@ == MISSING_IDENTIFIER@),
{
    let mut applied = AppliedMigrationSet::new();
    let mut at: usize = 0;
    while at < rows.len()
        invariant
            at <= rows.len(),
            !cells_of(rows@).take(at as int).contains(None),
            applied@ == recorded_in(cells_of(rows@).take(at as int)),
        decreases rows.len() - at,
    {
        let ghost seen = cells_of(rows@).take(at as int);
        assert(cells_of(rows@).take(at + 1) =~= seen.push(cells_of(rows@)[at as int]));
        match &rows[at] {
            None => {
                return Err(
                    CheckError::new(ErrorKind::Query, String::from_str(MISSING_IDENTIFIER)),
                );
            },
            Some(name) => {
                applied.insert(MigrationIdentifier::new(name.clone()));
                proof {
                    broadcast use vstd::seq_lib::lemma_seq_contains_after_push;

                    assert(recorded_in(seen.push(Some(name@))) =~= recorded_in(seen).insert(
                        name@,
                    ));
                }
            },
        }
        at += 1;
    }
    assert(cells_of(rows@).take(at as int) =~= cells_of(rows@));
    Ok(applied)
}

} // verus!
