use yomiage::store::{
    commit_plan, removal_succeeded, replace_next, state_file_found, CommitPlan, IoOutcome,
    ReplaceAction, ReplaceError, ReplaceStage, Store,
};

#[test]
fn paths_follow_the_layout() {
    let store = Store::new("./data");
    assert_eq!(store.wav_dir_path(), "./data/audio");
    assert_eq!(store.target_dir("sample"), "./data/audio/sample");
    assert_eq!(store.wav_path("sample", "abc"), "./data/audio/sample/abc.wav");
    assert_eq!(store.state_path("sample"), "./data/audio/sample/state.toml");
    assert_eq!(store.temporary_state_path("sample"), "./data/audio/sample/state.toml.tmp");
    assert_eq!(store.temporary_wav_path("sample"), "./data/audio/sample/audio.wav.tmp");
}

#[test]
fn commit_keeps_existing_audio() {
    assert_eq!(commit_plan(true), CommitPlan::RemoveTemporary);
    assert_eq!(commit_plan(false), CommitPlan::RenameTemporary);
}

#[test]
fn removing_absent_audio_succeeds() {
    assert!(removal_succeeded(IoOutcome::Done));
    assert!(removal_succeeded(IoOutcome::NotFound));
    assert!(!removal_succeeded(IoOutcome::Failed));
}

#[test]
fn missing_state_means_never_converted() {
    assert_eq!(state_file_found(IoOutcome::Done), Some(true));
    assert_eq!(state_file_found(IoOutcome::NotFound), Some(false));
    assert_eq!(state_file_found(IoOutcome::Failed), None);
}

#[test]
fn replacing_retries_over_an_existing_file() {
    assert!(matches!(replace_next(ReplaceStage::Renamed, true), ReplaceAction::Finished(Ok(()))));
    assert!(matches!(replace_next(ReplaceStage::Renamed, false), ReplaceAction::CheckDestination));
    assert!(matches!(replace_next(ReplaceStage::Checked, true), ReplaceAction::RemoveDestination));
    assert!(matches!(
        replace_next(ReplaceStage::Checked, false),
        ReplaceAction::Finished(Err(ReplaceError::RenameFailed))
    ));
    assert!(matches!(replace_next(ReplaceStage::Removed, true), ReplaceAction::RenameAgain));
    assert!(matches!(
        replace_next(ReplaceStage::Removed, false),
        ReplaceAction::Finished(Err(ReplaceError::RemoveFailed))
    ));
    assert!(matches!(replace_next(ReplaceStage::Retried, true), ReplaceAction::Finished(Ok(()))));
    assert!(matches!(
        replace_next(ReplaceStage::Retried, false),
        ReplaceAction::Finished(Err(ReplaceError::RenameFailed))
    ));
}
