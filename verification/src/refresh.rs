//! How the application state takes part in a load: serving a section from
//! the cache without fetching, and taking over what a wait has come to.

use crate::state::{App, AppView};
use crate::orchestrator::{
    decide, diagnostics, drained, settled, texts, Job, LoadAll, LoadAllProgress, LoadOne,
    LoadOneProgress, OrchestratorError, Verdict,
};
use crate::section::Section;
use crate::story::{clone_stories, Story};
use vstd::prelude::*;
use vstd::string::StringExecFns;

verus! {

/// What a pass of a single-section refresh came to.
pub enum RefreshProgress {
    /// The job is outstanding: sleep for the given number of microseconds and
    /// report again with the call that is handed back.
    Waiting(LoadOne, u64),
    /// The call is over. On success the fetched list is cached and, for the
    /// current section, on screen. On failure the cache is as it was.
    Finished(Result<(), OrchestratorError>),
}

/// The status message after a section was served from the cache.
pub open spec fn switched_text(section: Section) -> Seq<char> {
    "Switched to "@ + section.name() + " stories"@
}

/// The status message after a section was fetched anew.
pub open spec fn refreshed_text(section: Section) -> Seq<char> {
    "Refreshed "@ + section.name() + " stories"@
}

/// What an error of a single-section refresh reads as.
pub open spec fn error_text(error: OrchestratorError) -> Seq<char> {
    match error {
        OrchestratorError::FetchFailed(reason) => "Failed to fetch stories: "@ + reason@,
        OrchestratorError::JoinFailed(reason) => "Task join error: "@ + reason@,
        OrchestratorError::TimedOut => "Timed out while refreshing stories"@,
        OrchestratorError::Cancelled => "Cancelled"@,
    }
}

/// The status message after a single-section refresh failed: one wording for
/// a refresh that the user asked for, another for a section that was switched
/// to.
pub open spec fn refresh_failure_text(explicit: bool, error: OrchestratorError) -> Seq<char> {
    if explicit {
        "Refresh failed: "@ + error_text(error)
    } else {
        "Failed to load stories: "@ + error_text(error)
    }
}

/// The status message after a load of all sections timed out: one wording at
/// start-up, another for a reload that the user asked for.
pub open spec fn load_failure_text(at_startup: bool) -> Seq<char> {
    if at_startup {
        "Failed to load sections: Timed out while loading sections"@
    } else {
        "Failed to refresh all sections: Timed out while loading sections"@
    }
}

impl AppView {
    /// The state after the current section was looked up in the cache: its
    /// cached list on screen and a note of the switch, or, where the section
    /// is not cached, no change.
    pub open spec fn served_from_cache(self) -> AppView {
        if self.cache.contains_key(self.current_section) {
            self.with_stories(self.cache[self.current_section]).with_status(
                switched_text(self.current_section),
            )
        } else {
            self
        }
    }

    /// The state after every job of a load of all sections has ended: the
    /// lists that were fetched are cached, the last failure, if any, is the
    /// status message, and the current section, if cached, is on screen.
    pub open spec fn loaded(self, jobs: Seq<Job>) -> AppView {
        let cache = drained(self.cache, jobs);
        let failures = diagnostics(jobs);
        let noted = AppView {
            cache,
            status: if failures.len() > 0 {
                Some(failures.last())
            } else {
                self.status
            },
            ..self
        };
        if cache.contains_key(self.current_section) {
            noted.with_stories(cache[self.current_section])
        } else {
            noted
        }
    }

    /// The state after `items` were fetched for `section`: the list is
    /// cached, the refresh is noted, and the list is on screen, first story
    /// selected, if `section` is the current one.
    pub open spec fn refreshed(self, section: Section, items: Seq<Story>) -> AppView {
        let cached = AppView {
            cache: self.cache.insert(section, items),
            status: Some(refreshed_text(section)),
            ..self
        };
        if section == self.current_section {
            cached.with_stories(items)
        } else {
            cached
        }
    }

    /// The state after a single-section refresh ended with `error`: a
    /// cancelled refresh leaves no trace, any other failure is the status
    /// message. The cache and the stories on screen stay as they were.
    pub open spec fn refresh_failed(self, explicit: bool, error: OrchestratorError) -> AppView {
        if error is Cancelled {
            self
        } else {
            self.with_status(refresh_failure_text(explicit, error))
        }
    }
}

/// What an error of a single-section refresh reads as.
pub fn describe_error(error: &OrchestratorError) -> (text: String)
    ensures
        text@ == error_text(*error),
{
    match error {
        OrchestratorError::FetchFailed(reason) => String::from_str(
            "Failed to fetch stories: ",
        ).concat(reason.as_str()),
        OrchestratorError::JoinFailed(reason) => String::from_str("Task join error: ").concat(
            reason.as_str(),
        ),
        OrchestratorError::TimedOut => String::from_str("Timed out while refreshing stories"),
        OrchestratorError::Cancelled => String::from_str("Cancelled"),
    }
}

impl App {
    /// The cache-first rule: if the current section is cached, its list is
    /// put on screen and the switch is noted, and the caller must not fetch.
    /// Returns whether the section was served; if not, nothing changes.
    pub fn serve_from_cache(&mut self) -> (served: bool)
        requires
            old(self).wf(),
        ensures
            final(self).wf(),
            served == old(self)@.cache.contains_key(old(self)@.current_section),
            final(self)@ == old(self)@.served_from_cache(),
    {
        match self.cached_stories.get_cloned(self.current_section) {
            Some(items) => {
                self.set_stories(items);
                let message = String::from_str("Switched to ").concat(
                    self.current_section.as_str(),
                ).concat(" stories");
                self.set_status_message(message);
                true
            },
            None => false,
        }
    }

    /// One pass of a load of all sections, after the busy indicator was
    /// redrawn and the keyboard polled.
    ///
    /// While jobs are outstanding, nothing changes. A cancelled load changes
    /// nothing, a load that timed out only the status message; neither
    /// writes the cache. Once every job has ended, the state is as `loaded`
    /// says and the failure messages are handed back.
    pub fn load_all_sections(
        &mut self,
        call: LoadAll,
        cancel_seen: bool,
        elapsed_us: u64,
        at_startup: bool,
    ) -> (progress: LoadAllProgress)
        requires
            old(self).wf(),
        ensures
            final(self).wf(),
            match decide(
                cancel_seen,
                crate::orchestrator::all_terminal(call.jobs()),
                elapsed_us as nat,
                call.timing().deadline_us as nat,
            ) {
                Verdict::Cancelled => progress matches LoadAllProgress::Finished(Err(e)) && e
                    == OrchestratorError::Cancelled && final(self)@ == old(self)@,
                Verdict::Collect => progress matches LoadAllProgress::Finished(Ok(report)) && texts(
                    report@,
                ) == diagnostics(call.jobs()) && final(self)@ == old(self)@.loaded(call.jobs()),
                Verdict::TimedOut => progress matches LoadAllProgress::Finished(Err(e)) && e
                    == OrchestratorError::TimedOut && final(self)@ == old(self)@.with_status(
                    load_failure_text(at_startup),
                ),
                Verdict::Wait => progress matches LoadAllProgress::Waiting(same, sleep_us) && same
                    == call && sleep_us == call.timing().tick_us && final(self)@ == old(self)@,
            },
    {
        let progress = call.tick(cancel_seen, elapsed_us, &mut self.cached_stories);
        match &progress {
            LoadAllProgress::Finished(Ok(report)) => {
                if report.len() > 0 {
                    let last = report[report.len() - 1].clone();
                    self.set_status_message(last);
                }
                match self.cached_stories.get_cloned(self.current_section) {
                    Some(items) => {
                        self.set_stories(items);
                    },
                    None => {},
                }
            },
            LoadAllProgress::Finished(Err(OrchestratorError::TimedOut)) => {
                let message = if at_startup {
                    String::from_str("Failed to load sections: Timed out while loading sections")
                } else {
                    String::from_str(
                        "Failed to refresh all sections: Timed out while loading sections",
                    )
                };
                self.set_status_message(message);
            },
            _ => {},
        }
        progress
    }

    /// One pass of a single-section refresh, after the busy indicator was
    /// redrawn and the keyboard polled. `explicit` says whether the user
    /// asked for the refresh or merely switched to a section that was not
    /// cached.
    ///
    /// While the job is outstanding, nothing changes. A fetched list is
    /// cached and shown as `refreshed` says. A failure of any kind leaves the
    /// cache and the stories on screen as they were.
    pub fn refresh_stories(
        &mut self,
        call: LoadOne,
        cancel_seen: bool,
        elapsed_us: u64,
        explicit: bool,
    ) -> (progress: RefreshProgress)
        requires
            old(self).wf(),
        ensures
            final(self).wf(),
            match decide(
                cancel_seen,
                call.job().state.is_terminal(),
                elapsed_us as nat,
                call.timing().deadline_us as nat,
            ) {
                Verdict::Cancelled => progress == RefreshProgress::Finished(
                    Err(OrchestratorError::Cancelled),
                ) && final(self)@ == old(self)@,
                Verdict::Collect => match settled(call.job().state) {
                    Ok(items) => progress == RefreshProgress::Finished(Ok(())) && final(self)@
                        == old(self)@.refreshed(
                        call.job().section,
                        items,
                    ),
                    Err(e) => progress == RefreshProgress::Finished(Err(e)) && final(self)@ == old(
                        self,
                    )@.refresh_failed(explicit, e),
                },
                Verdict::TimedOut => progress == RefreshProgress::Finished(
                    Err(OrchestratorError::TimedOut),
                ) && final(self)@ == old(self)@.refresh_failed(
                    explicit,
                    OrchestratorError::TimedOut,
                ),
                Verdict::Wait => progress matches RefreshProgress::Waiting(same, sleep_us) && same
                    == call && sleep_us == call.timing().tick_us && final(self)@ == old(
                    self,
                )@,
            },
    {
        let section = call.section();
        match call.tick(cancel_seen, elapsed_us) {
            LoadOneProgress::Waiting(same, sleep_us) => RefreshProgress::Waiting(same, sleep_us),
            LoadOneProgress::Finished(Ok(items)) => {
                self.cached_stories.put(section, clone_stories(&items));
                if section == self.current_section {
                    self.set_stories(items);
                }
                let message = String::from_str("Refreshed ").concat(section.as_str()).concat(
                    " stories",
                );
                self.set_status_message(message);
                RefreshProgress::Finished(Ok(()))
            },
            LoadOneProgress::Finished(Err(error)) => {
                match &error {
                    OrchestratorError::Cancelled => {},
                    _ => {
                        let prefix = if explicit {
                            String::from_str("Refresh failed: ")
                        } else {
                            String::from_str("Failed to load stories: ")
                        };
                        let message = prefix.concat(describe_error(&error).as_str());
                        self.set_status_message(message);
                    },
                }
                RefreshProgress::Finished(Err(error))
            },
        }
    }
}

/// A failed or cancelled refresh, and a load that was cancelled or timed
/// out, leave every cache entry exactly as it was.
pub proof fn lemma_failure_keeps_cache(
    view: AppView,
    explicit: bool,
    error: OrchestratorError,
    at_startup: bool,
)
    ensures
        view.refresh_failed(explicit, error).cache == view.cache,
        view.refresh_failed(explicit, error).stories == view.stories,
        view.with_status(load_failure_text(at_startup)).cache == view.cache,
{
}

/// A load of all sections leaves the entry of a section none of whose jobs
/// returned a list exactly as it was.
pub proof fn lemma_load_keeps_failed_sections(view: AppView, jobs: Seq<Job>, section: Section)
    requires
        forall|i: int| !crate::trace::ready_for(jobs, i, section),
    ensures
        view.loaded(jobs).cache.contains_key(section) == view.cache.contains_key(section),
        view.cache.contains_key(section) ==> view.loaded(jobs).cache[section] == view.cache[section],
{
    crate::trace::lemma_failure_keeps_entry(view.cache, jobs, section);
}

/// Serving a cached section changes neither the cache nor the section, and
/// serving it again changes nothing more.
pub proof fn lemma_serving_is_idempotent(view: AppView)
    ensures
        view.served_from_cache().cache == view.cache,
        view.served_from_cache().current_section == view.current_section,
        view.served_from_cache().served_from_cache() == view.served_from_cache(),
{
}

} // verus!
