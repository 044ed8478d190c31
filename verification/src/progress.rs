//! Conversion progress of each configured target, as the status page shows it.
//!
//! Time is a reading of a monotonic clock in nanoseconds, supplied by the caller.

use vstd::prelude::*;

use crate::text::{str_eq, string_views};

verus! {

/// Stage of a target's conversion.
#[derive(Clone, Copy, Debug, PartialEq, Eq, Structural)]
pub enum Status {
    Waiting,
    Checking,
    Synthesizing,
    Saving,
    Completed,
    Failed,
}

/// Progress of one target.
#[derive(Clone, Copy, Debug, PartialEq, Eq, Structural)]
pub struct TargetProgress {
    pub status: Status,
    pub completed_lines: usize,
    pub total_lines: usize,
    /// Whole seconds that the last or current run has taken.
    pub elapsed_seconds: Option<u64>,
    /// Clock reading at the start of the current run, while it runs.
    pub started_at: Option<u64>,
}

/// Nanoseconds in a second.
pub const NANOS_PER_SECOND: u64 = 1_000_000_000;

/// The progress of a target that has not been checked yet.
pub open spec fn waiting() -> TargetProgress {
    TargetProgress {
        status: Status::Waiting,
        completed_lines: 0,
        total_lines: 0,
        elapsed_seconds: None,
        started_at: None,
    }
}

/// Whole seconds from `start` to `now`; zero when `now` is earlier.
pub open spec fn elapsed_secs(start: u64, now: u64) -> u64 {
    if now >= start {
        ((now - start) / (NANOS_PER_SECOND as int)) as u64
    } else {
        0
    }
}

/// `p` as reported at time `now`: a running target shows the time elapsed so far.
pub open spec fn snapshot(p: TargetProgress, now: u64) -> TargetProgress {
    match p.started_at {
        Some(start) => TargetProgress { elapsed_seconds: Some(elapsed_secs(start, now)), ..p },
        None => p,
    }
}

/// The progress of a run that starts at `now`.
pub open spec fn started(now: u64) -> TargetProgress {
    TargetProgress { status: Status::Checking, started_at: Some(now), ..waiting() }
}

/// `p` after its run ends at `now` with `status`: the elapsed time of a timed
/// run is fixed (an untimed one has none) and the run is no longer timed.
pub open spec fn finished(p: TargetProgress, status: Status, now: u64) -> TargetProgress {
    TargetProgress {
        status,
        elapsed_seconds: match p.started_at {
            Some(start) => Some(elapsed_secs(start, now)),
            None => None,
        },
        started_at: None,
        ..p
    }
}

/// The progress after a run that found nothing to convert: the previous
/// progress when it was completed, else a plain completed state.
pub open spec fn unchanged_progress(previous: TargetProgress) -> TargetProgress {
    if previous.status == Status::Completed {
        previous
    } else {
        TargetProgress { status: Status::Completed, ..waiting() }
    }
}

impl Default for TargetProgress {
    fn default() -> (p: Self)
        ensures
            p == waiting(),
    {
        TargetProgress {
            status: Status::Waiting,
            completed_lines: 0,
            total_lines: 0,
            elapsed_seconds: None,
            started_at: None,
        }
    }
}

/// The progress of every configured target.
pub struct Progress {
    ids: Vec<String>,
    states: Vec<TargetProgress>,
}

impl Progress {
    /// The IDs, by their characters.
    pub closed spec fn id_views(&self) -> Seq<Seq<char>> {
        string_views(self.ids@)
    }

    /// Number of tracked targets.
    pub closed spec fn slots(&self) -> nat {
        self.ids@.len()
    }

    /// ID of the target in slot `i`.
    pub closed spec fn id_at(&self, i: int) -> Seq<char> {
        self.ids@[i]@
    }

    /// Progress of the target in slot `i`.
    pub closed spec fn state_at(&self, i: int) -> TargetProgress {
        self.states@[i]
    }

    #[verifier::type_invariant]
    closed spec fn well_formed(&self) -> bool {
        &&& self.ids@.len() == self.states@.len()
        &&& self.id_views().no_duplicates()
    }

    /// Position of `id` among the IDs.
    closed spec fn slot(&self, id: Seq<char>) -> int {
        choose|i: int| 0 <= i < self.ids@.len() && self.ids@[i]@ == id
    }

    proof fn lemma_slot(&self, i: int)
        requires
            self.well_formed(),
            0 <= i < self.ids@.len(),
        ensures
            self.slot(self.ids@[i]@) == i,
            self@.contains_key(self.ids@[i]@),
            self@[self.ids@[i]@] == self.states@[i],
    {
        let id = self.ids@[i]@;
        assert(self.id_views()[i] == id);
        let j = self.slot(id);
        assert(self.id_views()[j] == id);
        assert(self.id_views().contains(id));
    }
}

impl View for Progress {
    type V = Map<Seq<char>, TargetProgress>;

    /// Each configured ID and the progress of its target.
    closed spec fn view(&self) -> Map<Seq<char>, TargetProgress> {
        Map::new(|id: Seq<char>| self.id_views().contains(id), |id: Seq<char>| self.states@[self.slot(id)])
    }
}

impl Progress {
    proof fn lemma_update(old_self: &Self, new_self: &Self, i: int, p: TargetProgress)
        requires
            old_self.well_formed(),
            0 <= i < old_self.ids@.len(),
            new_self.ids@ == old_self.ids@,
            new_self.states@ == old_self.states@.update(i, p),
        ensures
            new_self.well_formed(),
            new_self@ == old_self@.insert(old_self.ids@[i]@, p),
    {
        let id = old_self.ids@[i]@;
        old_self.lemma_slot(i);
        assert(new_self.id_views() == old_self.id_views());
        assert(new_self@ =~= old_self@.insert(id, p)) by {
            assert forall|k: Seq<char>| #[trigger] new_self@.contains_key(k) implies new_self@[k]
                == old_self@.insert(id, p)[k] by {
                let j = new_self.slot(k);
                assert(new_self.id_views().contains(k));
                let w = choose|w: int| 0 <= w < new_self.id_views().len() && new_self.id_views()[w] == k;
                assert(new_self.ids@[w]@ == k);
                new_self.lemma_slot(w);
                old_self.lemma_slot(w);
            }
        }
    }

    /// Tracks the targets with the given IDs, each waiting; a repeated ID is tracked once.
    pub fn new(ids: &[String]) -> (progress: Self)
        ensures
            forall|id: Seq<char>|
                #[trigger] progress@.contains_key(id) <==> exists|i: int|
                    0 <= i < ids@.len() && ids@[i]@ == id,
            forall|id: Seq<char>| #[trigger] progress@.contains_key(id) ==> progress@[id] == waiting(),
    {
        let mut kept: Vec<String> = Vec::new();
        let mut states: Vec<TargetProgress> = Vec::new();
        let mut i: usize = 0;
        while i < ids.len()
            invariant
                i <= ids@.len(),
                kept@.len() == states@.len(),
                string_views(kept@).no_duplicates(),
                forall|j: int| 0 <= j < states@.len() ==> #[trigger] states@[j] == waiting(),
                forall|id: Seq<char>|
                    #[trigger] string_views(kept@).contains(id) <==> exists|j: int|
                        0 <= j < i && ids@[j]@ == id,
            decreases ids@.len() - i,
        {
            let ghost views = string_views(kept@);
            let mut seen = false;
            let mut j: usize = 0;
            while j < kept.len()
                invariant
                    j <= kept@.len(),
                    i < ids@.len(),
                    views == string_views(kept@),
                    seen <==> exists|m: int| 0 <= m < j && views[m] == ids@[i as int]@,
                decreases kept@.len() - j,
            {
                proof {
                    assert(views[j as int] == kept@[j as int]@);
                }
                if kept[j] == ids[i] {
                    seen = true;
                }
                j = j + 1;
            }
            if !seen {
                kept.push(ids[i].clone());
                states.push(TargetProgress::default());
                proof {
                    let new_views = string_views(kept@);
                    assert(new_views =~= views.push(ids@[i as int]@));
                    assert forall|m: int, n: int|
                        0 <= m < new_views.len() && 0 <= n < new_views.len() && m != n implies new_views[m]
                        != new_views[n] by {
                        if m < views.len() && n < views.len() {
                        } else if m == views.len() {
                            assert(!(views[n] == ids@[i as int]@));
                        } else {
                            assert(!(views[m] == ids@[i as int]@));
                        }
                    }
                    assert forall|id: Seq<char>|
                        #[trigger] new_views.contains(id) <==> exists|j: int|
                            0 <= j < i + 1 && ids@[j]@ == id by {
                        if new_views.contains(id) {
                            let m = choose|m: int| 0 <= m < new_views.len() && new_views[m] == id;
                            if m < views.len() {
                                assert(views.contains(id));
                            }
                        }
                        if exists|j: int| 0 <= j < i + 1 && ids@[j]@ == id {
                            let j = choose|j: int| 0 <= j < i + 1 && ids@[j]@ == id;
                            if j < i {
                                assert(views.contains(id));
                                let m = choose|m: int| 0 <= m < views.len() && views[m] == id;
                                assert(new_views[m] == id);
                            } else {
                                assert(new_views[views.len() as int] == id);
                            }
                        }
                    }
                }
            } else {
                proof {
                    assert forall|id: Seq<char>|
                        #[trigger] views.contains(id) <==> exists|j: int|
                            0 <= j < i + 1 && ids@[j]@ == id by {
                        if exists|j: int| 0 <= j < i + 1 && ids@[j]@ == id {
                            let j = choose|j: int| 0 <= j < i + 1 && ids@[j]@ == id;
                            if j == i {
                                let m = choose|m: int| 0 <= m < kept@.len() && views[m] == ids@[i as int]@;
                                assert(views[m] == id);
                            }
                        }
                    }
                }
            }
            i = i + 1;
        }
        let progress = Progress { ids: kept, states };
        proof {
            assert forall|id: Seq<char>| #[trigger] progress@.contains_key(id) implies progress@[id]
                == waiting() by {
                let w = choose|w: int| 0 <= w < progress.id_views().len() && progress.id_views()[w] == id;
                assert(progress.ids@[w]@ == id);
                progress.lemma_slot(w);
            }
        }
        progress
    }

    /// Whether the target `id` is tracked.
    pub fn has(&self, id: &str) -> (b: bool)
        ensures
            b == self@.contains_key(id@),
    {
        proof {
            use_type_invariant(self);
        }
        let mut i: usize = 0;
        while i < self.ids.len()
            invariant
                i <= self.ids@.len(),
                self.well_formed(),
                forall|j: int| 0 <= j < i ==> self.ids@[j]@ != id@,
            decreases self.ids@.len() - i,
        {
            if str_eq(self.ids[i].as_str(), id) {
                proof {
                    self.lemma_slot(i as int);
                }
                return true;
            }
            i = i + 1;
        }
        proof {
            if self@.contains_key(id@) {
                let w = choose|w: int| 0 <= w < self.id_views().len() && self.id_views()[w] == id@;
                assert(self.ids@[w]@ == id@);
            }
        }
        false
    }

    /// The slot of the target `id`.
    pub fn target(&self, id: &str) -> (i: usize)
        requires
            self@.contains_key(id@),
        ensures
            i < self.slots(),
            self.id_at(i as int) == id@,
            self@[id@] == self.state_at(i as int),
    {
        proof {
            use_type_invariant(self);
        }
        let ghost w = choose|w: int| 0 <= w < self.id_views().len() && self.id_views()[w] == id@;
        assert(self.ids@[w]@ == id@);
        let mut i: usize = 0;
        while i < self.ids.len()
            invariant
                0 <= w < self.ids@.len(),
                self.well_formed(),
                self.ids@[w]@ == id@,
                i <= w,
            decreases self.ids@.len() - i,
        {
            if str_eq(self.ids[i].as_str(), id) {
                proof {
                    self.lemma_slot(i as int);
                }
                return i;
            }
            i = i + 1;
        }
        proof {
            self.lemma_slot(w);
        }
        i
    }
}

impl Progress {
    /// Replaces the progress in slot `i` with `p`.
    fn put(&mut self, i: usize, p: TargetProgress)
        requires
            i < old(self).slots(),
        ensures
            final(self).slots() == old(self).slots(),
            forall|j: int| 0 <= j < old(self).slots() ==> final(self).id_at(j) == old(self).id_at(j),
            final(self)@ == old(self)@.insert(old(self).id_at(i as int), p),
    {
        proof {
            use_type_invariant(&*self);
        }
        let ghost before = *self;
        let mut taken = Progress { ids: Vec::new(), states: Vec::new() };
        std::mem::swap(&mut taken, self);
        let Progress { ids, mut states } = taken;
        states.set(i, p);
        let updated = Progress { ids, states };
        proof {
            Self::lemma_update(&before, &updated, i as int, p);
        }
        *self = updated;
    }

    /// The progress of `id` as reported at time `now`.
    pub fn get(&self, id: &str, now: u64) -> (p: TargetProgress)
        requires
            self@.contains_key(id@),
        ensures
            p == snapshot(self@[id@], now),
    {
        proof {
            use_type_invariant(&*self);
        }
        let i = self.target(id);
        let mut state = self.states[i];
        match state.started_at {
            Some(start) => {
                let elapsed = if now >= start {
                    (now - start) / NANOS_PER_SECOND
                } else {
                    0
                };
                state.elapsed_seconds = Some(elapsed);
            },
            None => {},
        }
        state
    }

    /// Starts a run of `id` at `now` and returns the progress it had before.
    pub fn start(&mut self, id: &str, now: u64) -> (previous: TargetProgress)
        requires
            old(self)@.contains_key(id@),
        ensures
            previous == old(self)@[id@],
            final(self)@ == old(self)@.insert(id@, started(now)),
    {
        proof {
            use_type_invariant(&*self);
        }
        let i = self.target(id);
        let previous = self.states[i];
        self.put(
            i,
            TargetProgress {
                status: Status::Checking,
                completed_lines: 0,
                total_lines: 0,
                elapsed_seconds: None,
                started_at: Some(now),
            },
        );
        previous
    }

    /// Marks `id` as synthesizing `total_lines` lines.
    pub fn synthesizing(&mut self, id: &str, total_lines: usize)
        requires
            old(self)@.contains_key(id@),
        ensures
            final(self)@ == old(self)@.insert(
                id@,
                TargetProgress { status: Status::Synthesizing, total_lines, ..old(self)@[id@] },
            ),
    {
        proof {
            use_type_invariant(&*self);
        }
        let i = self.target(id);
        let mut state = self.states[i];
        state.status = Status::Synthesizing;
        state.total_lines = total_lines;
        self.put(i, state);
    }

    /// Counts one more synthesized line of `id`.
    pub fn line_completed(&mut self, id: &str)
        requires
            old(self)@.contains_key(id@),
            old(self)@[id@].completed_lines < usize::MAX,
        ensures
            final(self)@ == old(self)@.insert(
                id@,
                TargetProgress {
                    completed_lines: (old(self)@[id@].completed_lines + 1) as usize,
                    ..old(self)@[id@]
                },
            ),
    {
        proof {
            use_type_invariant(&*self);
        }
        let i = self.target(id);
        let mut state = self.states[i];
        state.completed_lines = state.completed_lines + 1;
        self.put(i, state);
    }

    /// Marks `id` as saving its audio.
    pub fn saving(&mut self, id: &str)
        requires
            old(self)@.contains_key(id@),
        ensures
            final(self)@ == old(self)@.insert(
                id@,
                TargetProgress { status: Status::Saving, ..old(self)@[id@] },
            ),
    {
        proof {
            use_type_invariant(&*self);
        }
        let i = self.target(id);
        let mut state = self.states[i];
        state.status = Status::Saving;
        self.put(i, state);
    }

    /// Ends the run of `id` at `now` as completed.
    pub fn completed(&mut self, id: &str, now: u64)
        requires
            old(self)@.contains_key(id@),
        ensures
            final(self)@ == old(self)@.insert(id@, finished(old(self)@[id@], Status::Completed, now)),
            final(self)@[id@].status == Status::Completed,
            final(self)@[id@].completed_lines == old(self)@[id@].completed_lines,
            final(self)@[id@].total_lines == old(self)@[id@].total_lines,
    {
        self.finish(id, Status::Completed, now);
    }

    /// Ends the run of `id` at `now` as failed.
    pub fn failed(&mut self, id: &str, now: u64)
        requires
            old(self)@.contains_key(id@),
        ensures
            final(self)@ == old(self)@.insert(id@, finished(old(self)@[id@], Status::Failed, now)),
            final(self)@[id@].status == Status::Failed,
            final(self)@[id@].completed_lines == old(self)@[id@].completed_lines,
            final(self)@[id@].total_lines == old(self)@[id@].total_lines,
    {
        self.finish(id, Status::Failed, now);
    }

    /// Ends the run of `id` after it found nothing to convert: a target that
    /// was completed before the run gets back its `previous` progress.
    pub fn unchanged(&mut self, id: &str, previous: TargetProgress)
        requires
            old(self)@.contains_key(id@),
        ensures
            final(self)@ == old(self)@.insert(id@, unchanged_progress(previous)),
    {
        let i = self.target(id);
        let state = if previous.status == Status::Completed {
            previous
        } else {
            TargetProgress {
                status: Status::Completed,
                completed_lines: 0,
                total_lines: 0,
                elapsed_seconds: None,
                started_at: None,
            }
        };
        self.put(i, state);
    }

    /// Ends the run of `id` at `now` with `status`, fixing its elapsed time.
    pub fn finish(&mut self, id: &str, status: Status, now: u64)
        requires
            old(self)@.contains_key(id@),
        ensures
            final(self)@ == old(self)@.insert(id@, finished(old(self)@[id@], status, now)),
            final(self)@[id@].status == status,
            final(self)@[id@].completed_lines == old(self)@[id@].completed_lines,
            final(self)@[id@].total_lines == old(self)@[id@].total_lines,
    {
        proof {
            use_type_invariant(&*self);
        }
        let i = self.target(id);
        let mut state = self.states[i];
        state.status = status;
        match state.started_at {
            Some(start) => {
                let elapsed = if now >= start {
                    (now - start) / NANOS_PER_SECOND
                } else {
                    0
                };
                state.elapsed_seconds = Some(elapsed);
            },
            None => {
                state.elapsed_seconds = None;
            },
        }
        state.started_at = None;
        self.put(i, state);
    }
}

/// A run that finds nothing to convert leaves a completed target's progress
/// exactly as it was before the run started.
pub proof fn lemma_unchanged_run_restores_completed(
    m: Map<Seq<char>, TargetProgress>,
    id: Seq<char>,
    now: u64,
)
    requires
        m.contains_key(id),
        m[id].status == Status::Completed,
    ensures
        m.insert(id, started(now)).insert(id, unchanged_progress(m[id])) == m,
{
    assert(m.insert(id, started(now)).insert(id, unchanged_progress(m[id])) =~= m);
}

/// Once a run has ended, the reported progress no longer depends on the time
/// at which it is read.
pub proof fn lemma_finished_progress_is_stable(
    p: TargetProgress,
    status: Status,
    end: u64,
    now: u64,
)
    ensures
        snapshot(finished(p, status, end), now) == finished(p, status, end),
{
}

/// While a run goes on, its reported elapsed time never decreases.
pub proof fn lemma_elapsed_never_decreases(p: TargetProgress, earlier: u64, later: u64)
    requires
        p.started_at is Some,
        earlier <= later,
    ensures
        snapshot(p, earlier).elapsed_seconds->0 <= snapshot(p, later).elapsed_seconds->0,
{
    let start = p.started_at->0;
    if earlier >= start {
        vstd::arithmetic::div_mod::lemma_div_is_ordered(
            earlier - start,
            later - start,
            NANOS_PER_SECOND as int,
        );
    }
}

/// The elapsed time fixed when a run ends is the one reported at that moment.
pub proof fn lemma_finish_keeps_reported_time(p: TargetProgress, status: Status, now: u64)
    requires
        p.started_at is Some,
    ensures
        finished(p, status, now).elapsed_seconds == snapshot(p, now).elapsed_seconds,
{
}

/// A target's clock runs only while it is being checked, synthesized or saved.
pub open spec fn clock_consistent(p: TargetProgress) -> bool {
    (p.status == Status::Waiting || p.status == Status::Completed || p.status == Status::Failed)
        ==> p.started_at is None
}

/// Every progress update keeps the clock consistent: a waiting, completed or
/// failed target never shows a running time.
pub proof fn lemma_updates_keep_clock_consistent(
    p: TargetProgress,
    previous: TargetProgress,
    status: Status,
    now: u64,
    total_lines: usize,
)
    requires
        clock_consistent(p),
        clock_consistent(previous),
    ensures
        clock_consistent(waiting()),
        clock_consistent(started(now)),
        clock_consistent(TargetProgress { status: Status::Synthesizing, total_lines, ..p }),
        p.completed_lines < usize::MAX ==> clock_consistent(
            TargetProgress { completed_lines: (p.completed_lines + 1) as usize, ..p },
        ),
        clock_consistent(TargetProgress { status: Status::Saving, ..p }),
        clock_consistent(finished(p, status, now)),
        clock_consistent(unchanged_progress(previous)),
{
}


/// Ending a run, whatever its status, keeps the line counts it reached and
/// stops its clock.
pub proof fn lemma_finish_keeps_line_counts(p: TargetProgress, status: Status, now: u64)
    ensures
        finished(p, status, now).status == status,
        finished(p, status, now).completed_lines == p.completed_lines,
        finished(p, status, now).total_lines == p.total_lines,
        finished(p, status, now).started_at is None,
{
}

} // verus!
