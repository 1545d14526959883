//! The fetch orchestrator: what a wait on a set of concurrent fetch jobs
//! decides on each pass of its polling loop, and what the jobs' results do to
//! the cache once all of them have ended.
//!
//! The loop itself (drawing the busy indicator, polling the keyboard,
//! sleeping, joining the jobs) belongs to the caller. Once per pass the caller
//! reports what it saw and acts on the answer.

use crate::cache::SectionCache;
use crate::section::Section;
use crate::story::{clone_stories, Story};
use vstd::prelude::*;
use vstd::string::StringExecFns;

verus! {

/// Result of one section's retrieval. A retrieval succeeds whole or fails
/// whole.
pub enum FetchOutcome {
    Ready(Vec<Story>),
    Failed(String),
}

/// Where an in-flight unit of work stands.
pub enum JobState {
    /// Still running.
    Pending,
    /// The retrieval returned.
    Done(FetchOutcome),
    /// The job mechanism itself failed before the retrieval returned.
    Aborted(String),
}

impl JobState {
    /// A terminal job makes no further progress.
    pub open spec fn is_terminal(self) -> bool {
        !(self is Pending)
    }
}

/// One fetch job and the section it targets.
pub struct Job {
    pub section: Section,
    pub state: JobState,
}

/// Why a call did not deliver.
pub enum OrchestratorError {
    /// The remote call failed or returned a malformed payload.
    FetchFailed(String),
    /// The job mechanism failed.
    JoinFailed(String),
    /// The deadline passed with jobs still outstanding.
    TimedOut,
    /// The user aborted the wait.
    Cancelled,
}

/// Periods of the polling loop, in microseconds.
#[derive(Clone, Copy, Debug, PartialEq, Eq, Structural)]
pub struct Timing {
    /// Sleep between two passes of the loop.
    pub tick_us: u64,
    /// Longest wait for a key press within one pass.
    pub poll_us: u64,
    /// Time after which a call gives up on outstanding jobs.
    pub deadline_us: u64,
}

impl Timing {
    /// A 16 ms tick, a 50 ms key poll and a 30 s deadline.
    pub fn standard() -> (t: Timing)
        ensures
            t == (Timing { tick_us: 16_000, poll_us: 50_000, deadline_us: 30_000_000 }),
    {
        Timing { tick_us: 16_000, poll_us: 50_000, deadline_us: 30_000_000 }
    }
}

/// What one pass of the loop decides.
#[derive(Clone, Copy, Debug, PartialEq, Eq, Structural)]
pub enum Verdict {
    /// Jobs are outstanding and the deadline has not passed: sleep one tick.
    Wait,
    /// Every job is terminal: take the results.
    Collect,
    /// Jobs are outstanding and the deadline has passed.
    TimedOut,
    /// The cancel key was seen.
    Cancelled,
}

/// The decision of one pass. The cancel key is looked at first, then the jobs,
/// then the clock.
pub open spec fn decide(cancel_seen: bool, all_terminal: bool, elapsed_us: nat, deadline_us: nat)
    -> Verdict {
    if cancel_seen {
        Verdict::Cancelled
    } else if all_terminal {
        Verdict::Collect
    } else if elapsed_us > deadline_us {
        Verdict::TimedOut
    } else {
        Verdict::Wait
    }
}

/// Whether every job of `jobs` is terminal.
pub open spec fn all_terminal(jobs: Seq<Job>) -> bool {
    forall|i: int| 0 <= i < jobs.len() ==> (#[trigger] jobs[i]).state.is_terminal()
}

/// The message that records a job's failure; `None` for a job that did not
/// fail.
pub open spec fn diagnostic_of(job: Job) -> Option<Seq<char>> {
    match job.state {
        JobState::Done(FetchOutcome::Failed(reason)) => Some(
            "Failed to load "@ + job.section.name() + ": "@ + reason@,
        ),
        JobState::Aborted(reason) => Some("Task error: "@ + reason@),
        _ => None,
    }
}

/// The failure messages of `jobs`, in job order.
pub open spec fn diagnostics(jobs: Seq<Job>) -> Seq<Seq<char>>
    decreases jobs.len(),
{
    if jobs.len() == 0 {
        Seq::empty()
    } else {
        let rest = diagnostics(jobs.drop_last());
        match diagnostic_of(jobs.last()) {
            Some(message) => rest.push(message),
            None => rest,
        }
    }
}

/// The cache after the results of `jobs` were written into `cache` in job
/// order: each `Ready` list replaces its section's entry, and nothing else
/// changes.
pub open spec fn drained(cache: Map<Section, Seq<Story>>, jobs: Seq<Job>) -> Map<
    Section,
    Seq<Story>,
>
    decreases jobs.len(),
{
    if jobs.len() == 0 {
        cache
    } else {
        let rest = drained(cache, jobs.drop_last());
        match jobs.last().state {
            JobState::Done(FetchOutcome::Ready(items)) => rest.insert(jobs.last().section, items@),
            _ => rest,
        }
    }
}

/// The characters of each message.
pub open spec fn texts(messages: Seq<String>) -> Seq<Seq<char>> {
    messages.map_values(|m: String| m@)
}

/// The message for a failed job, if it failed.
pub fn describe_failure(job: &Job) -> (message: Option<String>)
    ensures
        match message {
            Some(m) => diagnostic_of(*job) == Some(m@),
            None => diagnostic_of(*job) is None,
        },
{
    match &job.state {
        JobState::Done(FetchOutcome::Failed(reason)) => {
            let m = String::from_str("Failed to load ").concat(job.section.as_str()).concat(
                ": ",
            ).concat(reason.as_str());
            Some(m)
        },
        JobState::Aborted(reason) => {
            let m = String::from_str("Task error: ").concat(reason.as_str());
            Some(m)
        },
        _ => None,
    }
}

/// Writes the results of terminal jobs into the cache, in job order, and
/// returns the failure messages. A failed or aborted job leaves its section's
/// entry as it was.
pub fn drain(jobs: &Vec<Job>, cache: &mut SectionCache) -> (report: Vec<String>)
    ensures
        final(cache)@ == drained(old(cache)@, jobs@),
        texts(report@) == diagnostics(jobs@),
{
    let mut report: Vec<String> = Vec::new();
    let mut i: usize = 0;
    while i < jobs.len()
        invariant
            i <= jobs.len(),
            cache@ == drained(old(cache)@, jobs@.subrange(0, i as int)),
            texts(report@) == diagnostics(jobs@.subrange(0, i as int)),
        decreases jobs.len() - i,
    {
        assert(jobs@.subrange(0, i + 1).drop_last() =~= jobs@.subrange(0, i as int));
        match &jobs[i].state {
            JobState::Done(FetchOutcome::Ready(items)) => {
                cache.put(jobs[i].section, clone_stories(items));
            },
            _ => {},
        }
        match describe_failure(&jobs[i]) {
            Some(m) => {
                report.push(m);
            },
            None => {},
        }
        i += 1;
    }
    assert(jobs@.subrange(0, jobs.len() as int) =~= jobs@);
    report
}

/// What a pass of a load of several sections came to.
pub enum LoadAllProgress {
    /// Jobs are outstanding: sleep for the given number of microseconds and
    /// report again to the call that is handed back.
    Waiting(LoadAll, u64),
    /// The call is over. On success every job has ended and the results are
    /// in the cache; the value holds the failure messages, in job order, for
    /// the call succeeds even if some jobs failed. The only errors are a
    /// timeout and a cancellation.
    Finished(Result<Vec<String>, OrchestratorError>),
}

/// A load of several sections in progress: one job per requested section.
pub struct LoadAll {
    jobs: Vec<Job>,
    timing: Timing,
}

impl LoadAll {
    /// The jobs of the call, in the order in which they were requested.
    pub closed spec fn jobs(&self) -> Seq<Job> {
        self.jobs@
    }

    /// The periods that the call was started with.
    pub closed spec fn timing(&self) -> Timing {
        self.timing
    }

    /// Starts a call with one pending job for each of `sections`, in order.
    pub fn launch(sections: &Vec<Section>, timing: Timing) -> (call: LoadAll)
        ensures
            call.timing() == timing,
            call.jobs().len() == sections.len(),
            forall|i: int|
                0 <= i < sections.len() ==> #[trigger] call.jobs()[i] == (Job {
                    section: sections[i],
                    state: JobState::Pending,
                }),
    {
        let mut jobs: Vec<Job> = Vec::new();
        let mut i: usize = 0;
        while i < sections.len()
            invariant
                i <= sections.len(),
                jobs.len() == i,
                forall|k: int|
                    0 <= k < i ==> #[trigger] jobs[k] == (Job {
                        section: sections[k],
                        state: JobState::Pending,
                    }),
            decreases sections.len() - i,
        {
            jobs.push(Job { section: sections[i], state: JobState::Pending });
            i += 1;
        }
        LoadAll { jobs, timing }
    }

    /// Number of jobs.
    pub fn len(&self) -> (n: usize)
        ensures
            n == self.jobs().len(),
    {
        self.jobs.len()
    }

    /// The section that job `index` targets.
    pub fn section_of(&self, index: usize) -> (section: Option<Section>)
        ensures
            index < self.jobs().len() ==> section == Some(self.jobs()[index as int].section),
            index >= self.jobs().len() ==> section is None,
    {
        if index < self.jobs.len() {
            Some(self.jobs[index].section)
        } else {
            None
        }
    }

    /// Whether job `index` is still running.
    pub fn is_pending(&self, index: usize) -> (pending: bool)
        ensures
            pending == (index < self.jobs().len() && self.jobs()[index as int].state is Pending),
    {
        if index < self.jobs.len() {
            match &self.jobs[index].state {
                JobState::Pending => true,
                _ => false,
            }
        } else {
            false
        }
    }

    /// Records how job `index` ended. A job is consumed once: the result is
    /// taken only if the job exists, is pending, and `state` is terminal.
    /// Returns whether it was taken; if not, nothing changes.
    pub fn record(&mut self, index: usize, state: JobState) -> (taken: bool)
        ensures
            final(self).timing() == old(self).timing(),
            taken == (index < old(self).jobs().len() && old(self).jobs()[index as int].state
                is Pending && state.is_terminal()),
            taken ==> final(self).jobs() == old(self).jobs().update(
                index as int,
                Job { section: old(self).jobs()[index as int].section, state },
            ),
            !taken ==> final(self).jobs() == old(self).jobs(),
    {
        if !self.is_pending(index) {
            return false;
        }
        match &state {
            JobState::Pending => {
                return false;
            },
            _ => {},
        }
        let section = self.jobs[index].section;
        self.jobs.set(index, Job { section, state });
        true
    }

    /// Whether every job has ended.
    pub fn all_terminal(&self) -> (done: bool)
        ensures
            done == all_terminal(self.jobs()),
    {
        let mut i: usize = 0;
        while i < self.jobs.len()
            invariant
                i <= self.jobs.len(),
                forall|k: int| 0 <= k < i ==> (#[trigger] self.jobs@[k]).state.is_terminal(),
            decreases self.jobs.len() - i,
        {
            match &self.jobs[i].state {
                JobState::Pending => {
                    return false;
                },
                _ => {},
            }
            i += 1;
        }
        true
    }

    /// One pass of the loop, after the busy indicator was redrawn and the
    /// keyboard polled. `cancel_seen` says whether the cancel key was
    /// pressed, `elapsed_us` how long ago the call began.
    ///
    /// The cache is written only when every job has ended, and then with all
    /// results at once; a cancelled or timed-out call writes nothing.
    pub fn tick(self, cancel_seen: bool, elapsed_us: u64, cache: &mut SectionCache) -> (progress:
        LoadAllProgress)
        ensures
            match decide(
                cancel_seen,
                all_terminal(self.jobs()),
                elapsed_us as nat,
                self.timing().deadline_us as nat,
            ) {
                Verdict::Cancelled => progress matches LoadAllProgress::Finished(Err(e)) && e
                    == OrchestratorError::Cancelled && final(cache)@ == old(cache)@,
                Verdict::Collect => progress matches LoadAllProgress::Finished(Ok(report)) && texts(
                    report@,
                ) == diagnostics(self.jobs()) && final(cache)@ == drained(
                    old(cache)@,
                    self.jobs(),
                ),
                Verdict::TimedOut => progress matches LoadAllProgress::Finished(Err(e)) && e
                    == OrchestratorError::TimedOut && final(cache)@ == old(cache)@,
                Verdict::Wait => progress matches LoadAllProgress::Waiting(call, sleep_us)
                    && call == self && sleep_us == self.timing().tick_us && final(cache)@ == old(
                    cache,
                )@,
            },
    {
        if cancel_seen {
            return LoadAllProgress::Finished(Err(OrchestratorError::Cancelled));
        }
        if self.all_terminal() {
            let report = drain(&self.jobs, cache);
            return LoadAllProgress::Finished(Ok(report));
        }
        if elapsed_us > self.timing.deadline_us {
            return LoadAllProgress::Finished(Err(OrchestratorError::TimedOut));
        }
        let sleep_us = self.timing.tick_us;
        LoadAllProgress::Waiting(self, sleep_us)
    }
}

/// What a terminal job of a single-section call hands to the caller: the
/// fetched list, or the error that stands for the failure.
pub open spec fn settled(state: JobState) -> Result<Seq<Story>, OrchestratorError>
    recommends
        state.is_terminal(),
{
    match state {
        JobState::Done(FetchOutcome::Ready(items)) => Ok(items@),
        JobState::Done(FetchOutcome::Failed(reason)) => Err(OrchestratorError::FetchFailed(reason)),
        JobState::Aborted(reason) => Err(OrchestratorError::JoinFailed(reason)),
        JobState::Pending => Err(OrchestratorError::TimedOut),
    }
}

/// The list or error that a call returns, with the list taken as a sequence.
pub open spec fn result_view(result: Result<Vec<Story>, OrchestratorError>) -> Result<
    Seq<Story>,
    OrchestratorError,
> {
    match result {
        Ok(items) => Ok(items@),
        Err(e) => Err(e),
    }
}

/// What a pass of a load of one section came to.
pub enum LoadOneProgress {
    /// The job is outstanding: sleep for the given number of microseconds and
    /// report again to the call that is handed back.
    Waiting(LoadOne, u64),
    /// The call is over, with the fetched list or with the reason it has none.
    Finished(Result<Vec<Story>, OrchestratorError>),
}

/// A load of one section in progress: its one job.
pub struct LoadOne {
    job: Job,
    timing: Timing,
}

impl LoadOne {
    /// The job of the call.
    pub closed spec fn job(&self) -> Job {
        self.job
    }

    /// The periods that the call was started with.
    pub closed spec fn timing(&self) -> Timing {
        self.timing
    }

    /// Starts a call with a pending job for `section`.
    pub fn launch(section: Section, timing: Timing) -> (call: LoadOne)
        ensures
            call.timing() == timing,
            call.job() == (Job { section, state: JobState::Pending }),
    {
        LoadOne { job: Job { section, state: JobState::Pending }, timing }
    }

    /// The section that the job targets.
    pub fn section(&self) -> (section: Section)
        ensures
            section == self.job().section,
    {
        self.job.section
    }

    /// Whether the job is still running.
    pub fn is_pending(&self) -> (pending: bool)
        ensures
            pending == (self.job().state is Pending),
    {
        match &self.job.state {
            JobState::Pending => true,
            _ => false,
        }
    }

    /// Records how the job ended. The result is taken only if the job is
    /// pending and `state` is terminal. Returns whether it was taken; if not,
    /// nothing changes.
    pub fn record(&mut self, state: JobState) -> (taken: bool)
        ensures
            final(self).timing() == old(self).timing(),
            taken == (old(self).job().state is Pending && state.is_terminal()),
            taken ==> final(self).job() == (Job { section: old(self).job().section, state }),
            !taken ==> final(self).job() == old(self).job(),
    {
        if !self.is_pending() {
            return false;
        }
        match &state {
            JobState::Pending => {
                return false;
            },
            _ => {},
        }
        self.job.state = state;
        true
    }

    /// One pass of the loop, after the busy indicator was redrawn and the
    /// keyboard polled. On success the fetched list is handed to the caller,
    /// who decides whether to cache it.
    pub fn tick(self, cancel_seen: bool, elapsed_us: u64) -> (progress: LoadOneProgress)
        ensures
            match decide(
                cancel_seen,
                self.job().state.is_terminal(),
                elapsed_us as nat,
                self.timing().deadline_us as nat,
            ) {
                Verdict::Cancelled => progress matches LoadOneProgress::Finished(r) && r == Err::<
                    Vec<Story>,
                    OrchestratorError,
                >(OrchestratorError::Cancelled),
                Verdict::Collect => progress matches LoadOneProgress::Finished(r) && result_view(r)
                    == settled(self.job().state),
                Verdict::TimedOut => progress matches LoadOneProgress::Finished(r) && r == Err::<
                    Vec<Story>,
                    OrchestratorError,
                >(OrchestratorError::TimedOut),
                Verdict::Wait => progress matches LoadOneProgress::Waiting(call, sleep_us)
                    && call == self && sleep_us == self.timing().tick_us,
            },
    {
        if cancel_seen {
            return LoadOneProgress::Finished(Err(OrchestratorError::Cancelled));
        }
        let LoadOne { job, timing } = self;
        match job.state {
            JobState::Done(FetchOutcome::Ready(items)) => LoadOneProgress::Finished(Ok(items)),
            JobState::Done(FetchOutcome::Failed(reason)) => LoadOneProgress::Finished(
                Err(OrchestratorError::FetchFailed(reason)),
            ),
            JobState::Aborted(reason) => LoadOneProgress::Finished(
                Err(OrchestratorError::JoinFailed(reason)),
            ),
            JobState::Pending => {
                if elapsed_us > timing.deadline_us {
                    LoadOneProgress::Finished(Err(OrchestratorError::TimedOut))
                } else {
                    let sleep_us = timing.tick_us;
                    LoadOneProgress::Waiting(
                        LoadOne { job: Job { section: job.section, state: JobState::Pending }, timing },
                        sleep_us,
                    )
                }
            },
        }
    }
}

} // verus!
