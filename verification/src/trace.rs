//! A whole call seen as the sequence of its loop passes, and what follows
//! from the per-pass decision for the call as a whole.

use crate::orchestrator::{decide, drained, FetchOutcome, Job, JobState, Verdict};
use crate::section::Section;
use crate::story::Story;
use vstd::prelude::*;

verus! {

/// What one pass of the loop sees.
pub struct Glimpse {
    /// Whether the cancel key was pressed during the pass.
    pub cancel_seen: bool,
    /// Whether every job had ended by the pass.
    pub all_terminal: bool,
    /// Time since the call began, in microseconds.
    pub elapsed_us: nat,
}

/// The decision of the pass that sees `g`.
pub open spec fn verdict_at(deadline_us: nat, g: Glimpse) -> Verdict {
    decide(g.cancel_seen, g.all_terminal, g.elapsed_us, deadline_us)
}

/// The call whose passes see `trace` returns in pass `k`: every earlier pass
/// says to wait and pass `k` does not.
pub open spec fn ends_at(deadline_us: nat, trace: Seq<Glimpse>, k: int) -> bool {
    &&& 0 <= k < trace.len()
    &&& verdict_at(deadline_us, trace[k]) != Verdict::Wait
    &&& forall|j: int| 0 <= j < k ==> verdict_at(deadline_us, #[trigger] trace[j]) == Verdict::Wait
}

/// Whether job `i` of `jobs` targets `section` and returned a list.
pub open spec fn ready_for(jobs: Seq<Job>, i: int, section: Section) -> bool {
    &&& 0 <= i < jobs.len()
    &&& jobs[i].section == section
    &&& jobs[i].state matches JobState::Done(FetchOutcome::Ready(_))
}

/// A call returns in at most one pass.
pub proof fn lemma_end_is_unique(deadline_us: nat, trace: Seq<Glimpse>, k1: int, k2: int)
    requires
        ends_at(deadline_us, trace, k1),
        ends_at(deadline_us, trace, k2),
    ensures
        k1 == k2,
{
}

/// While nobody cancels, a call returns with the results in pass `k` exactly
/// when pass `k` is the first to see every job ended and no earlier pass saw
/// the deadline exceeded.
pub proof fn lemma_success_iff_terminal_in_time(deadline_us: nat, trace: Seq<Glimpse>, k: int)
    requires
        0 <= k < trace.len(),
        forall|j: int| 0 <= j <= k ==> !(#[trigger] trace[j]).cancel_seen,
    ensures
        (ends_at(deadline_us, trace, k) && verdict_at(deadline_us, trace[k]) == Verdict::Collect)
            <==> (trace[k].all_terminal && forall|j: int|
            0 <= j < k ==> !(#[trigger] trace[j]).all_terminal && trace[j].elapsed_us
                <= deadline_us),
{
}

/// A call that nobody cancels and whose jobs never all end returns, if it
/// returns, with a timeout, after the deadline and at most one period after
/// it, where a period bounds the time from the start to the first pass and
/// from each pass to the next.
pub proof fn lemma_timeout_window(deadline_us: nat, period_us: nat, trace: Seq<Glimpse>, k: int)
    requires
        ends_at(deadline_us, trace, k),
        forall|j: int| 0 <= j <= k ==> !(#[trigger] trace[j]).cancel_seen && !trace[j].all_terminal,
        trace[0].elapsed_us <= period_us,
        forall|j: int|
            0 <= j < k ==> (#[trigger] trace[j + 1]).elapsed_us <= trace[j].elapsed_us + period_us,
    ensures
        verdict_at(deadline_us, trace[k]) == Verdict::TimedOut,
        deadline_us < trace[k].elapsed_us <= deadline_us + period_us,
{
    if k > 0 {
        assert(trace[(k - 1) + 1].elapsed_us <= trace[k - 1].elapsed_us + period_us);
    }
}

/// A call whose passes run on until one sees the deadline exceeded returns,
/// in that pass at the latest.
pub proof fn lemma_deadline_ends_call(deadline_us: nat, trace: Seq<Glimpse>, n: int) -> (k: int)
    requires
        0 <= n < trace.len(),
        trace[n].elapsed_us > deadline_us,
    ensures
        0 <= k <= n,
        ends_at(deadline_us, trace, k),
{
    lemma_first_decisive(deadline_us, trace, n)
}

/// Before a pass that does not say to wait lies a first such pass.
pub proof fn lemma_first_decisive(deadline_us: nat, trace: Seq<Glimpse>, n: int) -> (k: int)
    requires
        0 <= n < trace.len(),
        verdict_at(deadline_us, trace[n]) != Verdict::Wait,
    ensures
        0 <= k <= n,
        ends_at(deadline_us, trace, k),
    decreases n,
{
    if exists|j: int| 0 <= j < n && verdict_at(deadline_us, #[trigger] trace[j]) != Verdict::Wait {
        let j = choose|j: int|
            0 <= j < n && verdict_at(deadline_us, #[trigger] trace[j]) != Verdict::Wait;
        lemma_first_decisive(deadline_us, trace, j)
    } else {
        n
    }
}

/// The first pass that sees the cancel key ends the call as cancelled,
/// whatever the jobs and the clock say, provided that the call has not
/// returned before.
pub proof fn lemma_cancel_ends_call(deadline_us: nat, trace: Seq<Glimpse>, k: int)
    requires
        0 <= k < trace.len(),
        trace[k].cancel_seen,
        forall|j: int| 0 <= j < k ==> verdict_at(deadline_us, #[trigger] trace[j]) == Verdict::Wait,
    ensures
        ends_at(deadline_us, trace, k),
        verdict_at(deadline_us, trace[k]) == Verdict::Cancelled,
{
}

/// After the results were written, a section has an entry exactly if it had
/// one before or one of its jobs returned a list.
pub proof fn lemma_drained_domain(
    cache: Map<Section, Seq<Story>>,
    jobs: Seq<Job>,
    section: Section,
)
    ensures
        drained(cache, jobs).contains_key(section) <==> (cache.contains_key(section) || exists|
            i: int,
        |
            ready_for(jobs, i, section)),
    decreases jobs.len(),
{
    if jobs.len() > 0 {
        let front = jobs.drop_last();
        let last = jobs.len() - 1;
        lemma_drained_domain(cache, front, section);
        if exists|i: int| ready_for(front, i, section) {
            let i = choose|i: int| ready_for(front, i, section);
            assert(ready_for(jobs, i, section));
        }
        if exists|i: int| ready_for(jobs, i, section) {
            let i = choose|i: int| ready_for(jobs, i, section);
            if i < last {
                assert(ready_for(front, i, section));
            }
        }
        if drained(cache, jobs).contains_key(section) && !drained(cache, front).contains_key(
            section,
        ) {
            assert(ready_for(jobs, last, section));
        }
    }
}

/// Starting from an empty cache, the sections with an entry after the results
/// were written are exactly those with a job that returned a list.
pub proof fn lemma_fresh_cache_holds_ready_sections(jobs: Seq<Job>, section: Section)
    ensures
        drained(Map::empty(), jobs).contains_key(section) <==> exists|i: int|
            ready_for(jobs, i, section),
{
    lemma_drained_domain(Map::empty(), jobs, section);
}

/// A section none of whose jobs returned a list keeps its entry, or its lack
/// of one, exactly as it was.
pub proof fn lemma_failure_keeps_entry(
    cache: Map<Section, Seq<Story>>,
    jobs: Seq<Job>,
    section: Section,
)
    requires
        forall|i: int| !ready_for(jobs, i, section),
    ensures
        drained(cache, jobs).contains_key(section) == cache.contains_key(section),
        cache.contains_key(section) ==> drained(cache, jobs)[section] == cache[section],
    decreases jobs.len(),
{
    if jobs.len() > 0 {
        let front = jobs.drop_last();
        let last = jobs.len() - 1;
        assert forall|i: int| !ready_for(front, i, section) by {
            if ready_for(front, i, section) {
                assert(ready_for(jobs, i, section));
            }
        }
        lemma_failure_keeps_entry(cache, front, section);
        assert(!ready_for(jobs, last, section));
    }
}

/// The entry of a section after the results were written is the list of the
/// last of its jobs that returned one.
pub proof fn lemma_ready_list_is_cached(
    cache: Map<Section, Seq<Story>>,
    jobs: Seq<Job>,
    i: int,
    items: Vec<Story>,
)
    requires
        0 <= i < jobs.len(),
        jobs[i].state == JobState::Done(FetchOutcome::Ready(items)),
        forall|j: int| i < j < jobs.len() ==> !ready_for(jobs, j, jobs[i].section),
    ensures
        drained(cache, jobs).contains_key(jobs[i].section),
        drained(cache, jobs)[jobs[i].section] == items@,
    decreases jobs.len(),
{
    let section = jobs[i].section;
    let front = jobs.drop_last();
    let last = jobs.len() - 1;
    if i < last {
        assert(!ready_for(jobs, last, section));
        assert forall|j: int| i < j < front.len() implies !ready_for(front, j, section) by {
            if ready_for(front, j, section) {
                assert(ready_for(jobs, j, section));
            }
        }
        lemma_ready_list_is_cached(cache, front, i, items);
    }
}

} // verus!
