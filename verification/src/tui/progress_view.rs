//! Figures that the sync progress view shows: the outcome counters, the
//! visible part of the log and the short names of the active repositories.

use vstd::prelude::*;
use crate::text::chars_of;
use crate::tui::app::{FinishState, OperationState, RunState};

verus! {

/// `a - b`, stopping at zero.
pub open spec fn sat_sub(a: int, b: int) -> int {
    if a > b { a - b } else { 0 }
}

/// Repositories that finished without news: completed minus failed,
/// skipped, updated and cloned (each subtraction stopping at zero).
pub open spec fn spec_up_to_date(r: RunState) -> int {
    sat_sub(sat_sub(sat_sub(sat_sub(r.completed as int, r.failed as int), r.skipped as int), r.with_updates as int), r.cloned as int)
}

/// Successful repositories without news after a sync: successes minus
/// updated and cloned (each subtraction stopping at zero).
pub open spec fn spec_finished_current(f: FinishState) -> int {
    sat_sub(sat_sub(f.summary.success as int, f.with_updates as int), f.cloned as int)
}

/// The counters shown for an operation, label and value: while running,
/// Updated, Current and Cloned, then Failed and Skipped when not zero; when
/// finished, all five; nothing otherwise.
pub open spec fn spec_counters(s: OperationState) -> Seq<(Seq<char>, int)> {
    match s {
        OperationState::Running(r) => seq![
            ("Updated"@, r.with_updates as int),
            ("Current"@, spec_up_to_date(r)),
            ("Cloned"@, r.cloned as int),
        ] + (if r.failed > 0 { seq![("Failed"@, r.failed as int)] } else { Seq::empty() })
            + (if r.skipped > 0 { seq![("Skipped"@, r.skipped as int)] } else { Seq::empty() }),
        OperationState::Finished(f) => seq![
            ("Updated"@, f.with_updates as int),
            ("Current"@, spec_finished_current(f)),
            ("Cloned"@, f.cloned as int),
            ("Failed"@, f.summary.failed as int),
            ("Skipped"@, f.summary.skipped as int),
        ],
        _ => Seq::empty(),
    }
}

fn sub0(a: usize, b: usize) -> (r: usize)
    ensures
        r == sat_sub(a as int, b as int),
{
    if a > b { a - b } else { 0 }
}

/// The counters shown for an operation.
pub fn counters(s: &OperationState) -> (r: Vec<(&'static str, usize)>)
    ensures
        r@.map_values(|x: (&'static str, usize)| (x.0@, x.1 as int)) == spec_counters(*s),
{
    let mut r: Vec<(&'static str, usize)> = Vec::new();
    match s {
        OperationState::Running(run) => {
            let current = sub0(sub0(sub0(sub0(run.completed, run.failed), run.skipped), run.with_updates), run.cloned);
            r.push(("Updated", run.with_updates));
            r.push(("Current", current));
            r.push(("Cloned", run.cloned));
            if run.failed > 0 {
                r.push(("Failed", run.failed));
            }
            if run.skipped > 0 {
                r.push(("Skipped", run.skipped));
            }
        },
        OperationState::Finished(f) => {
            let current = sub0(sub0(f.summary.success, f.with_updates), f.cloned);
            r.push(("Updated", f.with_updates));
            r.push(("Current", current));
            r.push(("Cloned", f.cloned));
            r.push(("Failed", f.summary.failed));
            r.push(("Skipped", f.summary.skipped));
        },
        _ => {},
    }
    assert(r@.map_values(|x: (&'static str, usize)| (x.0@, x.1 as int)) =~= spec_counters(*s));
    r
}

/// The lines of a log of `total` lines shown in `height` rows when scrolled
/// to `scroll`: from the scroll position (but no further than the last
/// full page) for at most `height` lines.
pub open spec fn spec_visible_window(total: nat, scroll: nat, height: nat) -> (nat, nat) {
    let max_start = sat_sub(total as int, height as int);
    let start = if (scroll as int) < max_start { scroll as int } else { max_start };
    let end = if start + height < total { start + height } else { total as int };
    (start as nat, end as nat)
}

/// The first and one-past-last shown line of the log.
pub fn visible_window(total: usize, scroll: usize, height: usize) -> (r: (usize, usize))
    ensures
        (r.0 as nat, r.1 as nat) == spec_visible_window(total as nat, scroll as nat, height as nat),
        r.0 <= r.1 <= total,
{
    let max_start = sub0(total, height);
    let start = if scroll < max_start { scroll } else { max_start };
    let end = if height < total - start { start + height } else { total };
    (start, end)
}

/// The part of a repository name after its last `/` (all of it without one).
pub open spec fn is_short_name(name: Seq<char>, r: Seq<char>) -> bool {
    &&& r.len() <= name.len()
    &&& r == name.skip(name.len() - r.len())
    &&& forall|i: int| 0 <= i < r.len() ==> r[i] != '/'
    &&& (r.len() == name.len() || name[name.len() - r.len() - 1] == '/')
}

/// The repository's own name, without its owner.
pub fn short_repo_name(name: &str) -> (r: &str)
    ensures
        is_short_name(name@, r@),
{
    let cs = chars_of(name);
    let mut i: usize = cs.len();
    while i > 0 && cs[i - 1] != '/'
        invariant
            cs@ == name@,
            0 <= i <= cs@.len(),
            forall|j: int| i <= j < cs@.len() ==> cs@[j] != '/',
        decreases i,
    {
        i = i - 1;
    }
    let r = name.substring_char(i, cs.len());
    assert(r@ =~= name@.skip(i as int));
    r
}

} // verus!
