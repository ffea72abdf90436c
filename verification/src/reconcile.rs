//! The reconciler: which declared migrations the ledger does not record.

use vstd::prelude::*;
use crate::identifier::{names_of, MigrationIdentifier};
use crate::ledger::AppliedMigrationSet;
use crate::scanner::DeclaredMigrationSequence;

verus! {

/// The declared migrations that are not applied, in the order in which
/// they are declared.
pub type MissingMigrationsReport = Vec<MigrationIdentifier>;

/// The declared identifiers that are not applied, in the order in which
/// they are declared.
pub open spec fn missing_from(declared: Seq<Seq<char>>, applied: Set<Seq<char>>) -> Seq<
    Seq<char>,
> {
    declared.filter(|id: Seq<char>| !applied.contains(id))
}

/// `picks` selects the items of `part` out of `whole`, one position of
/// `whole` for each item of `part`, going strictly forward.
pub open spec fn selects<T>(picks: Seq<int>, part: Seq<T>, whole: Seq<T>) -> bool {
    &&& picks.len() == part.len()
    &&& forall|k: int| 0 <= k < picks.len() ==> 0 <= #[trigger] picks[k] < whole.len()
    &&& forall|k: int| 0 <= k < picks.len() ==> whole[#[trigger] picks[k]] == part[k]
    &&& forall|j: int, k: int| 0 <= j < k < picks.len() ==> picks[j] < picks[k]
}

/// `part` is what remains of `whole` after some of its items are struck
/// out: the items that stay keep their relative order.
pub open spec fn is_subsequence_of<T>(part: Seq<T>, whole: Seq<T>) -> bool {
    exists|picks: Seq<int>| selects(picks, part, whole)
}

/// How the report grows with the last declared identifier: it is appended
/// unless it is applied.
proof fn lemma_report_step(declared: Seq<Seq<char>>, applied: Set<Seq<char>>)
    ensures
        declared.len() == 0 ==> missing_from(declared, applied) == declared,
        declared.len() > 0 ==> missing_from(declared, applied) == if applied.contains(
            declared.last(),
        ) {
            missing_from(declared.drop_last(), applied)
        } else {
            missing_from(declared.drop_last(), applied).push(declared.last())
        },
{
    reveal(Seq::filter);
}

/// The report is a subsequence of what is declared: reconciling strikes
/// identifiers out and never reorders or adds one.
pub proof fn law_report_is_subsequence(declared: Seq<Seq<char>>, applied: Set<Seq<char>>)
    ensures
        is_subsequence_of(missing_from(declared, applied), declared),
    decreases declared.len(),
{
    lemma_report_step(declared, applied);
    if declared.len() == 0 {
        assert(selects(Seq::<int>::empty(), missing_from(declared, applied), declared));
    } else {
        let front = declared.drop_last();
        law_report_is_subsequence(front, applied);
        let front_picks = choose|picks: Seq<int>|
            selects(picks, missing_from(front, applied), front);
        let picks = if applied.contains(declared.last()) {
            front_picks
        } else {
            front_picks.push(declared.len() - 1)
        };
        assert(selects(picks, missing_from(declared, applied), declared));
    }
}

/// An identifier is reported iff it is declared and not applied.
pub proof fn law_report_membership(
    declared: Seq<Seq<char>>,
    applied: Set<Seq<char>>,
    id: Seq<char>,
)
    ensures
        missing_from(declared, applied).contains(id) <==> declared.contains(id)
            && !applied.contains(id),
    decreases declared.len(),
{
    lemma_report_step(declared, applied);
    if declared.len() > 0 {
        broadcast use vstd::seq_lib::lemma_seq_contains_after_push;

        law_report_membership(declared.drop_last(), applied, id);
    }
}

/// With nothing applied, everything declared is reported.
pub proof fn law_nothing_applied(declared: Seq<Seq<char>>)
    ensures
        missing_from(declared, Set::empty()) == declared,
    decreases declared.len(),
{
    lemma_report_step(declared, Set::empty());
    if declared.len() > 0 {
        law_nothing_applied(declared.drop_last());
    }
}

/// With everything declared applied, nothing is reported.
pub proof fn law_everything_applied(declared: Seq<Seq<char>>, applied: Set<Seq<char>>)
    requires
        declared.to_set().subset_of(applied),
    ensures
        missing_from(declared, applied) == Seq::<Seq<char>>::empty(),
    decreases declared.len(),
{
    lemma_report_step(declared, applied);
    if declared.len() > 0 {
        broadcast use vstd::seq_lib::lemma_seq_contains_after_push;

        assert(declared.drop_last().to_set().subset_of(applied));
        law_everything_applied(declared.drop_last(), applied);
    }
}

/// Reports each declared migration that the ledger does not record,
/// keeping the order of declaration.
pub fn reconcile(declared: &DeclaredMigrationSequence, applied: &AppliedMigrationSet) -> (report:
    MissingMigrationsReport)
    ensures
        names_of(report@) == missing_from(names_of(declared@), applied@),
        is_subsequence_of(names_of(report@), names_of(declared@)),
        forall|id: Seq<char>| #[trigger]
            names_of(report@).contains(id) <==> names_of(declared@).contains(id)
                && !applied@.contains(id),
        applied@ == Set::<Seq<char>>::empty() ==> names_of(report@) == names_of(declared@),
        names_of(declared@).to_set().subset_of(applied@) ==> report@.len() == 0,
{
    let mut report: Vec<MigrationIdentifier> = Vec::new();
    let mut at: usize = 0;
    proof {
        lemma_report_step(names_of(declared@).take(0), applied@);
    }
    while at < declared.len()
        invariant
            at <= declared.len(),
            names_of(report@) == missing_from(names_of(declared@).take(at as int), applied@),
        decreases declared.len() - at,
    {
        proof {
            let next = names_of(declared@).take(at + 1);
            assert(next.drop_last() =~= names_of(declared@).take(at as int));
            lemma_report_step(next, applied@);
        }
        if !applied.contains(&declared[at]) {
            report.push(declared[at].clone());
        }
        at += 1;
    }
    proof {
        let names = names_of(declared@);
        assert(names.take(at as int) =~= names);
        law_report_is_subsequence(names, applied@);
        assert forall|id: Seq<char>| #[trigger]
            names_of(report@).contains(id) <==> names.contains(id) && !applied@.contains(
                id,
            ) by {
            law_report_membership(names, applied@, id);
        }
        if applied@ == Set::<Seq<char>>::empty() {
            law_nothing_applied(names);
        }
        if names.to_set().subset_of(applied@) {
            law_everything_applied(names, applied@);
        }
    }
    report
}

} // verus!
