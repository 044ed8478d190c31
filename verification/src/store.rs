//! Where generated audio and conversion state are kept, and the decisions
//! taken around the file operations that keep them.
//!
//! Layout: `<data dir>/audio/<target id>/` holds `<wav hash>.wav`,
//! `state.toml`, and the temporary files `audio.wav.tmp` and `state.toml.tmp`.

use vstd::prelude::*;

use crate::paths::{self, path_joined};

verus! {

/// What was recorded of a target's last conversion.
pub struct TargetState {
    /// Hash of the input text file that was converted.
    pub input_hash: String,
    /// Speaker that read it.
    pub speaker: u32,
    /// Hash of the generated WAV file, which names it.
    pub wav_hash: String,
}

/// The storage area under a data directory.
pub struct Store {
    wav_dir: String,
}

/// Name of a target's state file.
pub open spec fn state_file_name() -> Seq<char> {
    "state.toml"@
}

/// Name of the file a target's state is written to before it replaces the state file.
pub open spec fn temporary_state_file_name() -> Seq<char> {
    "state.toml.tmp"@
}

/// Name of the file a target's audio is written to before it is committed.
pub open spec fn temporary_wav_file_name() -> Seq<char> {
    "audio.wav.tmp"@
}

/// File name of the audio whose hash is `wav_hash`.
pub open spec fn wav_file_name(wav_hash: Seq<char>) -> Seq<char> {
    wav_hash + ".wav"@
}

impl Store {
    /// Directory that holds one directory per target.
    pub closed spec fn wav_dir(&self) -> Seq<char> {
        self.wav_dir@
    }

    /// Directory of the target `id`.
    pub open spec fn target_dir_of(&self, id: Seq<char>) -> Seq<char> {
        path_joined(self.wav_dir(), id)
    }

    /// The store under `data_dir`; its audio lives in `data_dir/audio`, which
    /// the caller creates.
    pub fn new(data_dir: &str) -> (store: Store)
        ensures
            store.wav_dir() == path_joined(data_dir@, "audio"@),
    {
        Store { wav_dir: paths::join(data_dir, "audio") }
    }

    /// Directory that holds one directory per target.
    pub fn wav_dir_path(&self) -> (dir: String)
        ensures
            dir@ == self.wav_dir(),
    {
        self.wav_dir.clone()
    }

    /// Directory of the target `id`.
    pub fn target_dir(&self, id: &str) -> (dir: String)
        ensures
            dir@ == self.target_dir_of(id@),
    {
        paths::join(self.wav_dir.as_str(), id)
    }

    /// Path of the audio of `id` whose hash is `wav_hash`.
    pub fn wav_path(&self, id: &str, wav_hash: &str) -> (path: String)
        ensures
            path@ == path_joined(self.target_dir_of(id@), wav_file_name(wav_hash@)),
    {
        let dir = self.target_dir(id);
        let name = String::from_str(wav_hash).concat(".wav");
        paths::join(dir.as_str(), name.as_str())
    }

    /// Path of the state file of `id`.
    pub fn state_path(&self, id: &str) -> (path: String)
        ensures
            path@ == path_joined(self.target_dir_of(id@), state_file_name()),
    {
        let dir = self.target_dir(id);
        paths::join(dir.as_str(), "state.toml")
    }

    /// Path of the temporary state file of `id`.
    pub fn temporary_state_path(&self, id: &str) -> (path: String)
        ensures
            path@ == path_joined(self.target_dir_of(id@), temporary_state_file_name()),
    {
        let dir = self.target_dir(id);
        paths::join(dir.as_str(), "state.toml.tmp")
    }

    /// Path of the temporary audio file of `id`.
    pub fn temporary_wav_path(&self, id: &str) -> (path: String)
        ensures
            path@ == path_joined(self.target_dir_of(id@), temporary_wav_file_name()),
    {
        let dir = self.target_dir(id);
        paths::join(dir.as_str(), "audio.wav.tmp")
    }
}

/// How a file operation ended.
#[derive(Clone, Copy, Debug, PartialEq, Eq, Structural)]
pub enum IoOutcome {
    Done,
    NotFound,
    Failed,
}

/// What committing a temporary audio file does.
#[derive(Clone, Copy, Debug, PartialEq, Eq, Structural)]
pub enum CommitPlan {
    /// The audio with that hash is already stored: drop the temporary file.
    RemoveTemporary,
    /// Move the temporary file to the audio's name.
    RenameTemporary,
}

/// Committing keeps the stored audio when one with the same hash exists.
pub fn commit_plan(wav_exists: bool) -> (plan: CommitPlan)
    ensures
        plan == (if wav_exists {
            CommitPlan::RemoveTemporary
        } else {
            CommitPlan::RenameTemporary
        }),
{
    if wav_exists {
        CommitPlan::RemoveTemporary
    } else {
        CommitPlan::RenameTemporary
    }
}

/// Removing an audio file succeeds when it is removed or already absent.
pub fn removal_succeeded(outcome: IoOutcome) -> (ok: bool)
    ensures
        ok == (outcome != IoOutcome::Failed),
{
    match outcome {
        IoOutcome::Failed => false,
        _ => true,
    }
}

/// A missing state file means the target was never converted; any other
/// failure to read it is an error. `Some(true)`: read, `Some(false)`: absent.
pub fn state_file_found(outcome: IoOutcome) -> (found: Option<bool>)
    ensures
        found == (match outcome {
            IoOutcome::Done => Some(true),
            IoOutcome::NotFound => Some(false),
            IoOutcome::Failed => None,
        }),
{
    match outcome {
        IoOutcome::Done => Some(true),
        IoOutcome::NotFound => Some(false),
        IoOutcome::Failed => None,
    }
}

/// Where replacing a file by renaming another onto it stands.
#[derive(Clone, Copy, Debug, PartialEq, Eq, Structural)]
pub enum ReplaceStage {
    /// The first rename was tried.
    Renamed,
    /// After a failed rename, whether the destination exists was asked.
    Checked,
    /// The existing destination was removed, or that was tried.
    Removed,
    /// The rename was tried again.
    Retried,
}

/// Why a file could not be replaced.
#[derive(Clone, Copy, Debug, PartialEq, Eq, Structural)]
pub enum ReplaceError {
    /// The existing destination could not be removed.
    RemoveFailed,
    /// The source could not be renamed onto the destination.
    RenameFailed,
}

/// The next file operation of a replacement, or its result.
#[derive(Clone, Copy, Debug)]
pub enum ReplaceAction {
    /// Ask whether the destination exists, then report it to the `Checked` stage.
    CheckDestination,
    /// Remove the destination, then report to the `Removed` stage.
    RemoveDestination,
    /// Rename the source onto the destination again, then report to the `Retried` stage.
    RenameAgain,
    Finished(Result<(), ReplaceError>),
}

/// The decision after `stage` ended with `succeeded` (for `Checked`: the
/// destination exists). A failed rename onto an existing destination removes
/// it and renames once more; a failed rename onto no destination fails.
pub fn replace_next(stage: ReplaceStage, succeeded: bool) -> (action: ReplaceAction)
    ensures
        action == (match stage {
            ReplaceStage::Renamed => if succeeded {
                ReplaceAction::Finished(Ok(()))
            } else {
                ReplaceAction::CheckDestination
            },
            ReplaceStage::Checked => if succeeded {
                ReplaceAction::RemoveDestination
            } else {
                ReplaceAction::Finished(Err(ReplaceError::RenameFailed))
            },
            ReplaceStage::Removed => if succeeded {
                ReplaceAction::RenameAgain
            } else {
                ReplaceAction::Finished(Err(ReplaceError::RemoveFailed))
            },
            ReplaceStage::Retried => if succeeded {
                ReplaceAction::Finished(Ok(()))
            } else {
                ReplaceAction::Finished(Err(ReplaceError::RenameFailed))
            },
        }),
{
    match stage {
        ReplaceStage::Renamed => if succeeded {
            ReplaceAction::Finished(Ok(()))
        } else {
            ReplaceAction::CheckDestination
        },
        ReplaceStage::Checked => if succeeded {
            ReplaceAction::RemoveDestination
        } else {
            ReplaceAction::Finished(Err(ReplaceError::RenameFailed))
        },
        ReplaceStage::Removed => if succeeded {
            ReplaceAction::RenameAgain
        } else {
            ReplaceAction::Finished(Err(ReplaceError::RemoveFailed))
        },
        ReplaceStage::Retried => if succeeded {
            ReplaceAction::Finished(Ok(()))
        } else {
            ReplaceAction::Finished(Err(ReplaceError::RenameFailed))
        },
    }
}

} // verus!
