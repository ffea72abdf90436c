//! Migration identifiers and the rules that derive them from file names.
//!
//! An identifier is compared by exact equality of its characters: nothing
//! here folds case or trims whitespace.

use vstd::prelude::*;
use vstd::string::*;

verus! {

/// What marks the stem of a designer file.
pub const DESIGNER_MARKER: &'static str = ".Designer";

/// What marks the stem of a model snapshot.
pub const SNAPSHOT_MARKER: &'static str = "ModelSnapshot";

/// `pattern` stands in `text` starting at position `at`.
pub open spec fn occurs_at(text: Seq<char>, pattern: Seq<char>, at: int) -> bool {
    &&& 0 <= at
    &&& at + pattern.len() <= text.len()
    &&& text.subrange(at, at + pattern.len()) == pattern
}

/// `pattern` stands somewhere in `text` as a contiguous run of characters.
pub open spec fn occurs_in(text: Seq<char>, pattern: Seq<char>) -> bool {
    exists|at: int| occurs_at(text, pattern, at)
}

/// Position `at` holds the last `.` of `name`.
pub open spec fn is_final_dot(name: Seq<char>, at: int) -> bool {
    &&& 0 <= at < name.len()
    &&& name[at] == '.'
    &&& forall|j: int| at < j < name.len() ==> name[j] != '.'
}

/// The base name of a file with its extension stripped: what stands before
/// the last `.`, or the whole name where it holds no `.` after its first
/// character.
pub open spec fn stem_of(name: Seq<char>) -> Seq<char> {
    if exists|at: int| 0 < at && is_final_dot(name, at) {
        name.take(choose|at: int| 0 < at && is_final_dot(name, at))
    } else {
        name
    }
}

/// A stem that denotes a generated companion artifact rather than a
/// migration of its own. The two markers count wherever they stand in the
/// stem, not only at its end.
pub open spec fn is_generated_artifact(stem: Seq<char>) -> bool {
    occurs_in(stem, DESIGNER_MARKER@) || occurs_in(stem, SNAPSHOT_MARKER@)
}

/// The identifier that a file of the given name declares, if it declares one.
pub open spec fn declared_by(file_name: Seq<char>) -> Option<Seq<char>> {
    if is_generated_artifact(stem_of(file_name)) {
        None
    } else {
        Some(stem_of(file_name))
    }
}

/// A name has at most one final dot, so `stem_of` cuts at `at`.
pub proof fn lemma_stem_cuts_at_final_dot(name: Seq<char>, at: int)
    requires
        0 < at,
        is_final_dot(name, at),
    ensures
        stem_of(name) == name.take(at),
{
    // Of two final dots the earlier would have a `.` after it.
    let chosen = choose|c: int| 0 < c && is_final_dot(name, c);
    assert(chosen == at);
}

/// A name without a `.` after its first character is its own stem.
pub proof fn lemma_stem_without_extension(name: Seq<char>)
    requires
        forall|j: int| 0 < j < name.len() ==> name[j] != '.',
    ensures
        stem_of(name) == name,
{
    assert(forall|at: int| 0 < at ==> !is_final_dot(name, at));
}

/// The characters of a string, in order.
fn chars_of(s: &str) -> (chars: Vec<char>)
    ensures
        chars@ == s@,
{
    let mut chars: Vec<char> = Vec::new();
    let source = s.chars();
    for c in it: source
        invariant
            it.seq() == s@,
            chars@ == s@.take(it.index()),
    {
        chars.push(c);
    }
    chars
}

/// Compares `pattern` with the run of `text` that starts at `at`.
fn matches_at(text: &Vec<char>, pattern: &Vec<char>, at: usize) -> (found: bool)
    requires
        at + pattern.len() <= text.len(),
    ensures
        found == occurs_at(text@, pattern@, at as int),
{
    let mut k: usize = 0;
    while k < pattern.len()
        invariant
            k <= pattern.len(),
            at + pattern.len() <= text.len(),
            forall|j: int| 0 <= j < k ==> text@[at + j] == pattern@[j],
        decreases pattern.len() - k,
    {
        if text[at + k] != pattern[k] {
            return false;
        }
        k += 1;
    }
    assert(text@.subrange(at as int, at + pattern.len()) =~= pattern@);
    true
}

/// Whether `pattern` stands somewhere in `text`.
pub fn contains_text(text: &str, pattern: &str) -> (found: bool)
    ensures
        found == occurs_in(text@, pattern@),
{
    let hay = chars_of(text);
    let needle = chars_of(pattern);
    if needle.len() == 0 {
        assert(hay@.subrange(0, 0) =~= needle@);
        assert(occurs_at(hay@, needle@, 0));
        return true;
    }
    let mut at: usize = 0;
    while at < hay.len() && needle.len() <= hay.len() - at
        invariant
            hay@ == text@,
            needle@ == pattern@,
            0 < needle.len(),
            forall|i: int| 0 <= i < at ==> !occurs_at(hay@, needle@, i),
        decreases hay.len() - at,
    {
        if matches_at(&hay, &needle, at) {
            return true;
        }
        at += 1;
    }
    false
}

/// The base name of a file with its extension stripped.
pub fn file_stem(name: &str) -> (stem: String)
    ensures
        stem@ == stem_of(name@),
{
    let chars = chars_of(name);
    let mut end: usize = chars.len();
    while end > 1 && chars[end - 1] != '.'
        invariant
            end <= chars.len(),
            forall|j: int| end <= j < chars.len() ==> chars@[j] != '.',
        decreases end,
    {
        end -= 1;
    }
    if end > 1 {
        proof {
            lemma_stem_cuts_at_final_dot(name@, end - 1);
        }
        name.substring_char(0, end - 1).to_owned()
    } else {
        proof {
            lemma_stem_without_extension(name@);
        }
        name.to_owned()
    }
}

/// The name under which a migration is declared on disk and recorded in the
/// ledger.
#[derive(Debug)]
pub struct MigrationIdentifier {
    name: String,
}

impl View for MigrationIdentifier {
    type V = Seq<char>;

    closed spec fn view(&self) -> Seq<char> {
        self.name@
    }
}

impl MigrationIdentifier {
    /// Takes a name as it stands, as the ledger records it.
    pub fn new(name: String) -> (id: Self)
        ensures
            id@ == name@,
    {
        MigrationIdentifier { name }
    }

    /// Derives the identifier that a file declares from the file's name.
    /// Generated companion artifacts declare none.
    pub fn from_file_name(file_name: &str) -> (id: Option<Self>)
        ensures
            id is Some <==> declared_by(file_name@) is Some,
            id matches Some(found) ==> Some(found@) == declared_by(file_name@),
    {
        let stem = file_stem(file_name);
        if contains_text(stem.as_str(), DESIGNER_MARKER) || contains_text(
            stem.as_str(),
            SNAPSHOT_MARKER,
        ) {
            None
        } else {
            Some(MigrationIdentifier { name: stem })
        }
    }

    /// The identifier's characters.
    pub fn as_str(&self) -> (name: &str)
        ensures
            name@ == self@,
    {
        self.name.as_str()
    }

    /// Gives up the identifier for its characters.
    pub fn into_string(self) -> (name: String)
        ensures
            name@ == self@,
    {
        self.name
    }
}

/// The characters of each identifier of a sequence, in the same order.
pub open spec fn names_of(ids: Seq<MigrationIdentifier>) -> Seq<Seq<char>> {
    ids.map_values(|id: MigrationIdentifier| id@)
}

impl Clone for MigrationIdentifier {
    fn clone(&self) -> (copy: Self)
        ensures
            copy@ == self@,
    {
        MigrationIdentifier { name: self.name.clone() }
    }
}

impl PartialEq for MigrationIdentifier {
    fn eq(&self, other: &Self) -> (same: bool) {
        self.name == other.name
    }
}

impl Eq for MigrationIdentifier {

}

impl vstd::std_specs::cmp::PartialEqSpecImpl for MigrationIdentifier {
    open spec fn obeys_eq_spec() -> bool {
        true
    }

    open spec fn eq_spec(&self, other: &Self) -> bool {
        self@ == other@
    }
}

} // verus!
