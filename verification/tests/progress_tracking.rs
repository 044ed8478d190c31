use yomiage::progress::{Progress, Status, TargetProgress};

const SECOND: u64 = 1_000_000_000;

fn progress_of(ids: &[&str]) -> Progress {
    let ids: Vec<String> = ids.iter().map(|s| s.to_string()).collect();
    Progress::new(&ids)
}

#[test]
fn targets_start_waiting() {
    let progress = progress_of(&["a", "b", "a"]);
    assert_eq!(progress.get("a", 0), TargetProgress::default());
    assert_eq!(progress.get("b", 10 * SECOND).status, Status::Waiting);
}

#[test]
fn a_converted_run_reports_its_stages() {
    let mut progress = progress_of(&["a", "b"]);
    let previous = progress.start("a", 100 * SECOND);
    assert_eq!(previous.status, Status::Waiting);
    let running = progress.get("a", 102 * SECOND + SECOND / 2);
    assert_eq!(running.status, Status::Checking);
    assert_eq!(running.elapsed_seconds, Some(2));
    progress.synthesizing("a", 3);
    progress.line_completed("a");
    progress.line_completed("a");
    let midway = progress.get("a", 105 * SECOND);
    assert_eq!(midway.status, Status::Synthesizing);
    assert_eq!((midway.completed_lines, midway.total_lines), (2, 3));
    progress.line_completed("a");
    progress.saving("a");
    assert_eq!(progress.get("a", 106 * SECOND).status, Status::Saving);
    progress.completed("a", 107 * SECOND);
    let done = progress.get("a", 500 * SECOND);
    assert_eq!(done.status, Status::Completed);
    assert_eq!(done.elapsed_seconds, Some(7));
    assert_eq!(done.started_at, None);
    assert_eq!(done.completed_lines, 3);
    assert_eq!(progress.get("b", 0), TargetProgress::default());
}

#[test]
fn elapsed_time_is_zero_when_the_clock_reads_earlier() {
    let mut progress = progress_of(&["a"]);
    progress.start("a", 10 * SECOND);
    assert_eq!(progress.get("a", 5 * SECOND).elapsed_seconds, Some(0));
}

#[test]
fn a_failed_run_keeps_its_elapsed_time() {
    let mut progress = progress_of(&["a"]);
    progress.start("a", 0);
    progress.failed("a", 3 * SECOND);
    let failed = progress.get("a", 90 * SECOND);
    assert_eq!(failed.status, Status::Failed);
    assert_eq!(failed.elapsed_seconds, Some(3));
}

#[test]
fn an_unchanged_run_restores_completed_progress() {
    let mut progress = progress_of(&["a"]);
    progress.start("a", 0);
    progress.synthesizing("a", 4);
    progress.completed("a", 9 * SECOND);
    let before = progress.get("a", 20 * SECOND);
    let previous = progress.start("a", 30 * SECOND);
    assert_eq!(previous, before);
    progress.unchanged("a", previous);
    assert_eq!(progress.get("a", 40 * SECOND), before);
}

#[test]
fn an_unchanged_run_after_a_failure_shows_plain_completion() {
    let mut progress = progress_of(&["a"]);
    progress.start("a", 0);
    progress.failed("a", SECOND);
    let previous = progress.start("a", 2 * SECOND);
    progress.unchanged("a", previous);
    let state = progress.get("a", 3 * SECOND);
    assert_eq!(state.status, Status::Completed);
    assert_eq!(state.elapsed_seconds, None);
    assert_eq!(state.total_lines, 0);
}

#[test]
fn finish_sets_any_status() {
    let mut progress = progress_of(&["a"]);
    progress.start("a", 0);
    progress.finish("a", Status::Failed, 61 * SECOND);
    assert_eq!(progress.get("a", 0).elapsed_seconds, Some(61));
    assert_eq!(progress.target("a"), 0);
}

#[test]
fn running_time_never_goes_back() {
    let mut progress = progress_of(&["a"]);
    progress.start("a", 1_000);
    let mut last = 0;
    for t in [1_000, 999_999_999, 1_000_001_000, 3 * SECOND, 3 * SECOND + 1, 90 * SECOND] {
        let elapsed = progress.get("a", t).elapsed_seconds.unwrap();
        assert!(elapsed >= last);
        last = elapsed;
    }
    assert_eq!(last, 89);
}

#[test]
fn settled_targets_show_no_running_clock() {
    let mut progress = progress_of(&["a"]);
    assert_eq!(progress.get("a", 0).started_at, None);
    progress.start("a", 0);
    assert!(progress.get("a", 0).started_at.is_some());
    progress.failed("a", SECOND);
    assert_eq!(progress.get("a", 0).started_at, None);
    let previous = progress.start("a", 2 * SECOND);
    progress.unchanged("a", previous);
    assert_eq!(progress.get("a", 0).started_at, None);
}

#[test]
fn finishing_an_untimed_target_clears_its_time() {
    let mut progress = progress_of(&["a"]);
    progress.start("a", 0);
    progress.completed("a", 4 * SECOND);
    progress.failed("a", 9 * SECOND);
    let state = progress.get("a", 10 * SECOND);
    assert_eq!((state.status, state.elapsed_seconds), (Status::Failed, None));
}
