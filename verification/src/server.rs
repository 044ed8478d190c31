//! The decisions of the web pages: which targets exist, which audio a page
//! shows, and which file an audio request may open.

use vstd::prelude::*;

use crate::config::{Config, TargetConfig};
use crate::paths::{self, path_file_name};
use crate::store::{IoOutcome, TargetState};

verus! {

/// Why a page cannot be served.
#[derive(Clone, Copy, Debug, PartialEq, Eq, Structural)]
pub enum PageError {
    /// 404: no such target or audio.
    NotFound,
    /// 500: the stored state or audio could not be read.
    Internal,
}

/// Some configured target has the ID `id`.
pub open spec fn has_target(targets: Seq<TargetConfig>, id: Seq<char>) -> bool {
    exists|i: int| 0 <= i < targets.len() && (#[trigger] targets[i]).id@ == id
}

impl Config {
    /// Whether a target with the ID `id` is configured.
    pub fn has_target(&self, id: &str) -> (b: bool)
        ensures
            b == has_target(self.targets@, id@),
            forall|i: int| 0 <= i < self.targets@.len() && self.targets@[i].id@ == id@ ==> b,
            b ==> exists|i: int| 0 <= i < self.targets@.len() && self.targets@[i].id@ == id@,
    {
        let mut i: usize = 0;
        while i < self.targets.len()
            invariant
                i <= self.targets@.len(),
                forall|j: int| 0 <= j < i ==> (#[trigger] self.targets@[j]).id@ != id@,
            decreases self.targets@.len() - i,
        {
            if crate::text::str_eq(self.targets[i].id.as_str(), id) {
                return true;
            }
            i = i + 1;
        }
        false
    }

    /// The IDs of the configured targets, in order, as the index page lists them.
    pub fn target_ids(&self) -> (ids: Vec<String>)
        ensures
            ids@.len() == self.targets@.len(),
            forall|i: int| 0 <= i < ids@.len() ==> (#[trigger] ids@[i])@ == self.targets@[i].id@,
    {
        let mut ids: Vec<String> = Vec::new();
        let mut i: usize = 0;
        while i < self.targets.len()
            invariant
                i <= self.targets@.len(),
                ids@.len() == i,
                forall|j: int| 0 <= j < i ==> (#[trigger] ids@[j])@ == self.targets@[j].id@,
            decreases self.targets@.len() - i,
        {
            ids.push(self.targets[i].id.clone());
            i = i + 1;
        }
        ids
    }
}

/// Every configured target is found by its ID, wherever it stands in the
/// list, and an ID is found only when some target has it.
pub proof fn lemma_every_configured_target_is_found(targets: Seq<TargetConfig>, id: Seq<char>)
    ensures
        forall|i: int| 0 <= i < targets.len() ==> has_target(targets, #[trigger] targets[i].id@),
        has_target(targets, id) <==> exists|i: int| 0 <= i < targets.len() && targets[i].id@ == id,
{
    assert forall|i: int| 0 <= i < targets.len() implies has_target(targets, #[trigger] targets[i].id@) by {
        assert(targets[i].id@ == targets[i].id@);
    }
}

/// The audio that the player page offers: the recorded audio, when its file
/// exists.
pub fn player_wav_hash(state: Option<TargetState>, wav_exists: bool) -> (hash: Option<String>)
    ensures
        match state {
            Some(s) => if wav_exists {
                hash == Some(s.wav_hash)
            } else {
                hash is None
            },
            None => hash is None,
        },
{
    match state {
        Some(s) => if wav_exists {
            Some(s.wav_hash)
        } else {
            None
        },
        None => None,
    }
}

/// The audio that a request without a hash gets: the recorded one; none is
/// found when the target was never converted, and a state that cannot be
/// read is an internal error.
pub fn stored_wav_hash(loaded: Result<Option<TargetState>, ()>) -> (res: Result<String, PageError>)
    ensures
        match loaded {
            Ok(Some(s)) => res == Ok::<String, PageError>(s.wav_hash),
            Ok(None) => res == Err::<String, PageError>(PageError::NotFound),
            Err(()) => res == Err::<String, PageError>(PageError::Internal),
        },
{
    match loaded {
        Ok(Some(s)) => Ok(s.wav_hash),
        Ok(None) => Err(PageError::NotFound),
        Err(()) => Err(PageError::Internal),
    }
}

/// A requested audio hash whose last path component is `file_name` is served
/// only when it is that component alone, so that it cannot name a file
/// outside the target's directory.
pub fn accept_wav_hash(hash: String, file_name: Option<String>) -> (res: Result<String, PageError>)
    ensures
        (file_name matches Some(n) && n@ == hash@) ==> res == Ok::<String, PageError>(hash),
        !(file_name matches Some(n) && n@ == hash@) ==> res == Err::<String, PageError>(
            PageError::NotFound,
        ),
{
    match file_name {
        Some(name) => if name == hash {
            Ok(hash)
        } else {
            Err(PageError::NotFound)
        },
        None => Err(PageError::NotFound),
    }
}

/// A requested audio hash is served only when it is a plain file name.
pub fn checked_wav_hash(hash: String) -> (res: Result<String, PageError>)
    ensures
        path_file_name(hash@) == Some(hash@) ==> res == Ok::<String, PageError>(hash),
        path_file_name(hash@) != Some(hash@) ==> res == Err::<String, PageError>(
            PageError::NotFound,
        ),
{
    let name = paths::file_name(hash.as_str());
    accept_wav_hash(hash, name)
}

/// An audio file that cannot be opened is missing when it does not exist,
/// and an internal error otherwise.
pub fn open_failure(outcome: IoOutcome) -> (e: PageError)
    requires
        outcome != IoOutcome::Done,
    ensures
        e == (if outcome == IoOutcome::NotFound {
            PageError::NotFound
        } else {
            PageError::Internal
        }),
{
    match outcome {
        IoOutcome::NotFound => PageError::NotFound,
        _ => PageError::Internal,
    }
}

} // verus!
