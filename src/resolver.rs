//! Finds the process that really owns a window, looking through host frames
//! to the application content they carry.
use vstd::prelude::*;

verus! {

/// Whether a descendant owned by `child_pid` names the application behind a
/// frame owned by `frame_pid`. A zero pid is a failed query and names nothing.
pub open spec fn names_other_process(frame_pid: u32, child_pid: u32) -> bool {
    child_pid != 0 && child_pid != frame_pid
}

/// The first descendant pid, in enumeration order, that names another process.
pub open spec fn first_other_pid(frame_pid: u32, pids: Seq<u32>) -> Option<u32>
    decreases pids.len(),
{
    if pids.len() == 0 {
        None
    } else if names_other_process(frame_pid, pids[0]) {
        Some(pids[0])
    } else {
        first_other_pid(frame_pid, pids.drop_first())
    }
}

/// The true owner: the raw owner for an ordinary window; for a host frame the
/// first descendant of another process, falling back to the raw owner.
pub open spec fn resolved_owner(host_frame: bool, raw_pid: u32, pids: Seq<u32>) -> u32 {
    if !host_frame {
        raw_pid
    } else {
        match first_other_pid(raw_pid, pids) {
            Some(p) => p,
            None => raw_pid,
        }
    }
}

/// One step of the descendant search: whether enumeration may stop at a
/// descendant owned by `child_pid`.
pub fn settles_search(frame_pid: u32, child_pid: u32) -> (r: bool)
    ensures
        r == names_other_process(frame_pid, child_pid),
{
    child_pid != 0 && child_pid != frame_pid
}

/// First-match search over descendant pids, stopping at the first match.
pub fn find_different_pid(frame_pid: u32, pids: &[u32]) -> (r: Option<u32>)
    ensures
        r == first_other_pid(frame_pid, pids@),
{
    let mut i: usize = 0;
    assert(pids@.subrange(0, pids@.len() as int) =~= pids@);
    while i < pids.len()
        invariant
            i <= pids@.len(),
            first_other_pid(frame_pid, pids@) == first_other_pid(frame_pid, pids@.subrange(i as int, pids@.len() as int)),
        decreases pids@.len() - i,
    {
        let ghost rest = pids@.subrange(i as int, pids@.len() as int);
        assert(rest.drop_first() =~= pids@.subrange(i + 1, pids@.len() as int));
        if settles_search(frame_pid, pids[i]) {
            return Some(pids[i]);
        }
        i = i + 1;
    }
    assert(pids@.subrange(i as int, pids@.len() as int) =~= Seq::<u32>::empty());
    None
}

/// The true owning process of a window whose owner query gave `raw_pid`.
pub fn resolve_owner(host_frame: bool, raw_pid: u32, descendant_pids: &[u32]) -> (r: u32)
    ensures
        r == resolved_owner(host_frame, raw_pid, descendant_pids@),
{
    if !host_frame {
        return raw_pid;
    }
    match find_different_pid(raw_pid, descendant_pids) {
        Some(p) => p,
        None => raw_pid,
    }
}

/// A host frame without descendants resolves to its own process.
pub proof fn lemma_frame_without_descendants(raw_pid: u32)
    ensures
        resolved_owner(true, raw_pid, Seq::empty()) == raw_pid,
{
}

} // verus!
