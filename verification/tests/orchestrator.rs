use hackertuah::cache::SectionCache;
use hackertuah::orchestrator::{
    describe_failure, drain, FetchOutcome, Job, JobState, LoadAll, LoadAllProgress, LoadOne,
    LoadOneProgress, OrchestratorError, Timing,
};
use hackertuah::section::Section;
use hackertuah::story::Story;

fn story(id: u32, title: &str) -> Story {
    Story {
        id,
        title: title.to_string(),
        url: None,
        text: None,
        by: "someone".to_string(),
        score: 1,
    }
}

fn ready(stories: Vec<Story>) -> JobState {
    JobState::Done(FetchOutcome::Ready(stories))
}

fn failed(reason: &str) -> JobState {
    JobState::Done(FetchOutcome::Failed(reason.to_string()))
}

fn titles(cache: &SectionCache, section: Section) -> Vec<String> {
    cache
        .get(section)
        .expect("section is cached")
        .iter()
        .map(|s| s.title.clone())
        .collect()
}

#[test]
fn standard_timing_is_16_ms_50_ms_30_s() {
    let t = Timing::standard();
    assert_eq!(t.tick_us, 16_000);
    assert_eq!(t.poll_us, 50_000);
    assert_eq!(t.deadline_us, 30_000_000);
}

#[test]
fn load_all_with_one_failure_fills_only_the_section_that_succeeded() {
    let mut cache = SectionCache::new();
    let sections = vec![Section::Top, Section::Ask];
    let mut call = LoadAll::launch(&sections, Timing::standard());
    assert_eq!(call.len(), 2);
    assert!(call.record(0, ready(vec![story(1, "one"), story(2, "two")])));
    let mut call = match call.tick(false, 10_000, &mut cache) {
        LoadAllProgress::Waiting(b, sleep_us) => {
            assert_eq!(sleep_us, 16_000);
            b
        }
        _ => panic!("one job is still pending"),
    };
    assert!(cache.get(Section::Top).is_none());
    assert!(call.record(1, failed("connection refused")));
    match call.tick(false, 40_000, &mut cache) {
        LoadAllProgress::Finished(Ok(report)) => {
            assert_eq!(report, vec!["Failed to load Ask: connection refused".to_string()]);
            assert!(report[0].contains("Ask"));
        }
        _ => panic!("every job has ended"),
    }
    assert_eq!(titles(&cache, Section::Top), vec!["one", "two"]);
    assert_eq!(cache.get(Section::Top).unwrap()[0].id, 1);
    assert!(cache.get(Section::Ask).is_none());
    assert!(!cache.contains(Section::Ask));
    assert!(!cache.contains(Section::Show));
}

#[test]
fn load_all_of_every_section_caches_exactly_the_ready_ones() {
    let mut cache = SectionCache::new();
    let mut call = LoadAll::launch(&Section::all(), Timing::standard());
    assert!(call.record(3, ready(vec![story(9, "job")])));
    assert!(call.record(0, failed("boom")));
    assert!(call.record(2, JobState::Aborted("worker panicked".to_string())));
    assert!(call.record(1, ready(vec![])));
    assert!(call.all_terminal());
    match call.tick(false, 0, &mut cache) {
        LoadAllProgress::Finished(Ok(report)) => {
            assert_eq!(
                report,
                vec![
                    "Failed to load Top: boom".to_string(),
                    "Task error: worker panicked".to_string()
                ]
            );
        }
        _ => panic!("every job has ended"),
    }
    assert!(!cache.contains(Section::Top));
    assert!(cache.contains(Section::Ask));
    assert!(cache.get(Section::Ask).unwrap().is_empty());
    assert!(!cache.contains(Section::Show));
    assert_eq!(titles(&cache, Section::Jobs), vec!["job"]);
}

#[test]
fn failed_fetch_leaves_the_cached_list_untouched() {
    let mut cache = SectionCache::new();
    cache.put(Section::Ask, vec![story(7, "old a"), story(8, "old b")]);
    cache.put(Section::Top, vec![story(1, "old top")]);
    let mut call = LoadAll::launch(&vec![Section::Top, Section::Ask], Timing::standard());
    assert!(call.record(0, ready(vec![story(2, "new top")])));
    assert!(call.record(1, failed("503")));
    match call.tick(false, 5, &mut cache) {
        LoadAllProgress::Finished(Ok(report)) => assert_eq!(report.len(), 1),
        _ => panic!("every job has ended"),
    }
    assert_eq!(titles(&cache, Section::Top), vec!["new top"]);
    let ask = cache.get(Section::Ask).unwrap();
    assert_eq!(ask.len(), 2);
    assert_eq!(ask[0].id, 7);
    assert_eq!(ask[0].title, "old a");
    assert_eq!(ask[1].id, 8);
    assert_eq!(ask[1].title, "old b");
}

#[test]
fn aborted_job_leaves_the_cached_list_untouched() {
    let mut cache = SectionCache::new();
    cache.put(Section::Show, vec![story(3, "kept")]);
    let mut call = LoadAll::launch(&vec![Section::Show], Timing::standard());
    assert!(call.record(0, JobState::Aborted("cancelled".to_string())));
    match call.tick(false, 5, &mut cache) {
        LoadAllProgress::Finished(Ok(report)) => {
            assert_eq!(report, vec!["Task error: cancelled".to_string()])
        }
        _ => panic!("every job has ended"),
    }
    assert_eq!(titles(&cache, Section::Show), vec!["kept"]);
}

#[test]
fn batch_times_out_only_after_the_deadline() {
    let mut cache = SectionCache::new();
    let timing = Timing { tick_us: 10, poll_us: 5, deadline_us: 100 };
    let call = LoadAll::launch(&vec![Section::Top], timing);
    let call = match call.tick(false, 99, &mut cache) {
        LoadAllProgress::Waiting(b, sleep_us) => {
            assert_eq!(sleep_us, 10);
            b
        }
        _ => panic!("before the deadline the call waits"),
    };
    let call = match call.tick(false, 100, &mut cache) {
        LoadAllProgress::Waiting(b, _) => b,
        _ => panic!("at the deadline the call still waits"),
    };
    match call.tick(false, 101, &mut cache) {
        LoadAllProgress::Finished(Err(OrchestratorError::TimedOut)) => {}
        _ => panic!("after the deadline the call times out"),
    }
    assert!(!cache.contains(Section::Top));
}

#[test]
fn batch_that_finishes_late_still_succeeds() {
    let mut cache = SectionCache::new();
    let timing = Timing { tick_us: 10, poll_us: 5, deadline_us: 100 };
    let mut call = LoadAll::launch(&vec![Section::Top], timing);
    assert!(call.record(0, ready(vec![story(1, "late")])));
    match call.tick(false, 105, &mut cache) {
        LoadAllProgress::Finished(Ok(report)) => assert!(report.is_empty()),
        _ => panic!("the jobs are looked at before the clock"),
    }
    assert_eq!(titles(&cache, Section::Top), vec!["late"]);
}

#[test]
fn timed_out_batch_writes_nothing_even_with_finished_jobs() {
    let mut cache = SectionCache::new();
    cache.put(Section::Ask, vec![story(5, "stale")]);
    let timing = Timing { tick_us: 10, poll_us: 5, deadline_us: 100 };
    let mut call = LoadAll::launch(&vec![Section::Top, Section::Ask], timing);
    assert!(call.record(1, ready(vec![story(6, "fresh")])));
    match call.tick(false, 1_000, &mut cache) {
        LoadAllProgress::Finished(Err(OrchestratorError::TimedOut)) => {}
        _ => panic!("one job never ended"),
    }
    assert!(!cache.contains(Section::Top));
    assert_eq!(titles(&cache, Section::Ask), vec!["stale"]);
}

#[test]
fn cancel_wins_over_finished_jobs_and_writes_nothing() {
    let mut cache = SectionCache::new();
    let mut call = LoadAll::launch(&vec![Section::Top], Timing::standard());
    assert!(call.record(0, ready(vec![story(1, "done")])));
    match call.tick(true, 0, &mut cache) {
        LoadAllProgress::Finished(Err(OrchestratorError::Cancelled)) => {}
        _ => panic!("the cancel key is looked at first"),
    }
    assert!(!cache.contains(Section::Top));
}

#[test]
fn cancel_wins_over_timeout() {
    let mut cache = SectionCache::new();
    let call = LoadAll::launch(&vec![Section::Top], Timing::standard());
    match call.tick(true, u64::MAX, &mut cache) {
        LoadAllProgress::Finished(Err(OrchestratorError::Cancelled)) => {}
        _ => panic!("the cancel key is looked at first"),
    }
}

#[test]
fn job_result_is_taken_once() {
    let mut call = LoadAll::launch(&vec![Section::Top, Section::Ask], Timing::standard());
    assert!(call.is_pending(0));
    assert!(call.is_pending(1));
    assert!(!call.is_pending(2));
    assert_eq!(call.section_of(1), Some(Section::Ask));
    assert_eq!(call.section_of(2), None);
    assert!(!call.record(2, failed("no such job")));
    assert!(!call.record(0, JobState::Pending));
    assert!(call.is_pending(0));
    assert!(call.record(0, ready(vec![story(1, "first")])));
    assert!(!call.is_pending(0));
    assert!(!call.record(0, ready(vec![story(2, "second")])));
    assert!(!call.all_terminal());
    assert!(call.record(1, failed("x")));
    assert!(call.all_terminal());
    let mut cache = SectionCache::new();
    match call.tick(false, 0, &mut cache) {
        LoadAllProgress::Finished(Ok(_)) => {}
        _ => panic!("every job has ended"),
    }
    assert_eq!(titles(&cache, Section::Top), vec!["first"]);
}

#[test]
fn empty_batch_is_loaded_at_once() {
    let mut cache = SectionCache::new();
    let call = LoadAll::launch(&vec![], Timing::standard());
    assert!(call.all_terminal());
    match call.tick(false, 0, &mut cache) {
        LoadAllProgress::Finished(Ok(report)) => assert!(report.is_empty()),
        _ => panic!("there is nothing to wait for"),
    }
}

#[test]
fn drain_writes_in_job_order() {
    let mut cache = SectionCache::new();
    let jobs = vec![
        Job { section: Section::Top, state: ready(vec![story(1, "first")]) },
        Job { section: Section::Top, state: ready(vec![story(2, "second")]) },
        Job { section: Section::Ask, state: JobState::Pending },
    ];
    let report = drain(&jobs, &mut cache);
    assert!(report.is_empty());
    assert_eq!(titles(&cache, Section::Top), vec!["second"]);
    assert!(!cache.contains(Section::Ask));
}

#[test]
fn describe_failure_names_the_section() {
    let job = Job { section: Section::Jobs, state: failed("timeout") };
    assert_eq!(describe_failure(&job), Some("Failed to load Jobs: timeout".to_string()));
    let job = Job { section: Section::Show, state: JobState::Aborted("gone".to_string()) };
    assert_eq!(describe_failure(&job), Some("Task error: gone".to_string()));
    let job = Job { section: Section::Show, state: ready(vec![]) };
    assert_eq!(describe_failure(&job), None);
    let job = Job { section: Section::Show, state: JobState::Pending };
    assert_eq!(describe_failure(&job), None);
}

#[test]
fn single_returns_the_fetched_list() {
    let mut call = LoadOne::launch(Section::Show, Timing::standard());
    assert_eq!(call.section(), Section::Show);
    assert!(call.is_pending());
    let mut call = match call.tick(false, 1_000) {
        LoadOneProgress::Waiting(s, sleep_us) => {
            assert_eq!(sleep_us, 16_000);
            s
        }
        _ => panic!("the job is pending"),
    };
    assert!(!call.record(JobState::Pending));
    assert!(call.record(ready(vec![story(4, "show"), story(5, "tell")])));
    assert!(!call.record(failed("late")));
    match call.tick(false, 2_000) {
        LoadOneProgress::Finished(Ok(items)) => {
            assert_eq!(items.len(), 2);
            assert_eq!(items[0].title, "show");
            assert_eq!(items[1].id, 5);
        }
        _ => panic!("the job returned a list"),
    }
}

#[test]
fn single_reports_each_error() {
    let mut call = LoadOne::launch(Section::Top, Timing::standard());
    assert!(call.record(failed("bad payload")));
    match call.tick(false, 0) {
        LoadOneProgress::Finished(Err(OrchestratorError::FetchFailed(r))) => {
            assert_eq!(r, "bad payload")
        }
        _ => panic!("the fetch failed"),
    }
    let mut call = LoadOne::launch(Section::Top, Timing::standard());
    assert!(call.record(JobState::Aborted("aborted".to_string())));
    match call.tick(false, 0) {
        LoadOneProgress::Finished(Err(OrchestratorError::JoinFailed(r))) => {
            assert_eq!(r, "aborted")
        }
        _ => panic!("the job was aborted"),
    }
    let call = LoadOne::launch(Section::Top, Timing::standard());
    match call.tick(false, 30_000_001) {
        LoadOneProgress::Finished(Err(OrchestratorError::TimedOut)) => {}
        _ => panic!("the deadline has passed"),
    }
    let call = LoadOne::launch(Section::Top, Timing::standard());
    match call.tick(false, 30_000_000) {
        LoadOneProgress::Waiting(_, _) => {}
        _ => panic!("the deadline has not passed"),
    }
    let mut call = LoadOne::launch(Section::Top, Timing::standard());
    assert!(call.record(ready(vec![story(1, "ignored")])));
    match call.tick(true, 0) {
        LoadOneProgress::Finished(Err(OrchestratorError::Cancelled)) => {}
        _ => panic!("the user cancelled"),
    }
}
