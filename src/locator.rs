//! Selection of the process to attach to.
use vstd::prelude::*;
use crate::error::RunError;
use crate::text::{eq_ci, eq_ci_at};

verus! {

/// A process as the device enumerates it.
#[derive(Clone, Debug)]
pub struct ProcessEntry {
    pub pid: u32,
    pub name: String,
}

/// `needle` occurs in `hay`, ignoring ASCII case.
pub open spec fn contains_ci(hay: Seq<char>, needle: Seq<char>) -> bool {
    exists|i: int|
        0 <= i && i + needle.len() <= hay.len() && #[trigger] eq_ci(
            hay.subrange(i, i + needle.len()),
            needle,
        )
}

/// `i` is the index of the first entry whose name contains `needle`,
/// ignoring ASCII case.
pub open spec fn is_first_match(procs: Seq<ProcessEntry>, needle: Seq<char>, i: int) -> bool {
    &&& 0 <= i < procs.len()
    &&& contains_ci(procs[i].name@, needle)
    &&& forall|j: int| 0 <= j < i ==> !contains_ci(#[trigger] procs[j].name@, needle)
}

/// Whether a process name contains `needle`, ignoring ASCII case.
pub fn name_matches(name: &str, needle: &str) -> (r: bool)
    ensures
        r == contains_ci(name@, needle@),
{
    let h = name.unicode_len();
    let n = needle.unicode_len();
    if n > h {
        return false;
    }
    let mut i: usize = 0;
    while i <= h - n
        invariant
            h == name@.len(),
            n == needle@.len(),
            n <= h,
            0 <= i <= h - n + 1,
            forall|j: int| 0 <= j < i ==> !eq_ci(#[trigger] name@.subrange(j, j + n), needle@),
        decreases h - n + 1 - i,
    {
        if eq_ci_at(name, i, needle) {
            return true;
        }
        i = i + 1;
    }
    false
}

/// Position of the first process whose name contains `needle`.
pub fn first_match(procs: &Vec<ProcessEntry>, needle: &str) -> (r: Option<usize>)
    ensures
        match r {
            Some(i) => is_first_match(procs@, needle@, i as int),
            None => forall|j: int| 0 <= j < procs@.len() ==> !contains_ci(#[trigger] procs@[j].name@, needle@),
        },
{
    let mut i: usize = 0;
    while i < procs.len()
        invariant
            0 <= i <= procs@.len(),
            forall|j: int| 0 <= j < i ==> !contains_ci(#[trigger] procs@[j].name@, needle@),
        decreases procs@.len() - i,
    {
        if name_matches(procs[i].name.as_str(), needle) {
            return Some(i);
        }
        i = i + 1;
    }
    None
}

/// Selects the process to attach to: the first, in enumeration order, whose
/// name contains `needle` without regard to ASCII case. Enumeration order is
/// the platform's and need not be stable between runs.
pub fn find_target(procs: &Vec<ProcessEntry>, needle: &str) -> (r: Result<ProcessEntry, RunError>)
    ensures
        match r {
            Ok(p) => exists|i: int| is_first_match(procs@, needle@, i) && p == procs@[i],
            Err(e) => e is TargetNotFound
                && e->TargetNotFound_name@ == needle@
                && forall|j: int| 0 <= j < procs@.len() ==> !contains_ci(#[trigger] procs@[j].name@, needle@),
        },
{
    match first_match(procs, needle) {
        Some(i) => Ok(ProcessEntry { pid: procs[i].pid, name: procs[i].name.clone() }),
        None => Err(RunError::TargetNotFound { name: needle.to_owned() }),
    }
}

} // verus!
