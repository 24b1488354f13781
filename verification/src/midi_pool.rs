//! The render job pool: one container per input file, a bounded-concurrency
//! scheduler over them, and the all-or-nothing batch construction rule.

use vstd::prelude::*;
use crate::errors::MIDIRendererError;

verus! {

/// A render job's lifecycle. Transitions are monotonic:
/// Idle to Rendering, then Rendering to Finished or Error.
#[derive(Clone, Copy, PartialEq, Eq, Structural, Debug)]
pub enum MIDIRendererStatus {
    Idle,
    Rendering,
    Finished,
    Error,
}

/// Per-job render statistics: elapsed render time in microseconds and the
/// synthesizer's live voice count, polled while the job runs.
#[derive(Clone, Copy, PartialEq, Eq, Structural, Debug)]
pub struct RenderStats {
    pub time_micros: u64,
    pub voice_count: u64,
}

/// One scheduled job as the pool tracks it: its status, its cooperative
/// cancellation flag (`allow`), whether the heavy renderer handle is still
/// held, and its latest statistics.
#[derive(Clone, Copy, PartialEq, Eq, Structural, Debug)]
pub struct MIDIRendererContainer {
    pub status: MIDIRendererStatus,
    pub allow: bool,
    pub has_renderer: bool,
    pub stats: RenderStats,
}

/// How many jobs of a sequence are in status Rendering.
pub open spec fn rendering_count(s: Seq<MIDIRendererContainer>) -> int
    decreases s.len(),
{
    if s.len() == 0 {
        0
    } else {
        rendering_count(s.drop_last()) + if s.last().status is Rendering {
            1int
        } else {
            0int
        }
    }
}

/// The pool's aggregate status: an erroring job dominates, then a running
/// one, then a not-yet-started one; only a pool whose every job finished
/// (or that holds no jobs at all) is Finished.
pub open spec fn pool_status(s: Seq<MIDIRendererContainer>) -> MIDIRendererStatus {
    if exists|i: int| 0 <= i < s.len() && s[i].status is Error {
        MIDIRendererStatus::Error
    } else if exists|i: int| 0 <= i < s.len() && s[i].status is Rendering {
        MIDIRendererStatus::Rendering
    } else if exists|i: int| 0 <= i < s.len() && s[i].status is Idle {
        MIDIRendererStatus::Idle
    } else {
        MIDIRendererStatus::Finished
    }
}

/// The same jobs with the renderer handle dropped from every finished one.
pub open spec fn drop_finished_handles(
    s: Seq<MIDIRendererContainer>,
) -> Seq<MIDIRendererContainer> {
    s.map_values(
        |c: MIDIRendererContainer|
            if c.status is Finished {
                MIDIRendererContainer { has_renderer: false, ..c }
            } else {
                c
            },
    )
}

proof fn lemma_rendering_count_bounds(s: Seq<MIDIRendererContainer>)
    ensures
        0 <= rendering_count(s) <= s.len(),
    decreases s.len(),
{
    if s.len() > 0 {
        lemma_rendering_count_bounds(s.drop_last());
    }
}

proof fn lemma_rendering_count_full(s: Seq<MIDIRendererContainer>)
    requires
        rendering_count(s) == s.len(),
    ensures
        forall|j: int| 0 <= j < s.len() ==> #[trigger] s[j].status is Rendering,
    decreases s.len(),
{
    if s.len() > 0 {
        lemma_rendering_count_bounds(s.drop_last());
        lemma_rendering_count_full(s.drop_last());
        assert(forall|j: int| 0 <= j < s.len() - 1 ==> #[trigger] s[j] == s.drop_last()[j]);
    }
}

proof fn lemma_rendering_count_prefix_step(s: Seq<MIDIRendererContainer>, i: int)
    requires
        0 <= i < s.len(),
    ensures
        rendering_count(s.take(i + 1)) == rendering_count(s.take(i)) + if s[i].status is Rendering {
            1int
        } else {
            0int
        },
{
    assert(s.take(i + 1).drop_last() =~= s.take(i));
    assert(s.take(i + 1).last() == s[i]);
}

proof fn lemma_rendering_count_update(s: Seq<MIDIRendererContainer>, i: int, c: MIDIRendererContainer)
    requires
        0 <= i < s.len(),
    ensures
        rendering_count(s.update(i, c)) == rendering_count(s)
            + (if c.status is Rendering { 1int } else { 0int })
            - (if s[i].status is Rendering { 1int } else { 0int }),
    decreases s.len(),
{
    let t = s.update(i, c);
    if i == s.len() - 1 {
        assert(t.drop_last() =~= s.drop_last());
    } else {
        assert(t.drop_last() =~= s.drop_last().update(i, c));
        lemma_rendering_count_update(s.drop_last(), i, c);
    }
}

/// The bounded-concurrency scheduler over a batch of render jobs.
pub struct MIDIPool {
    max_parallel: usize,
    containers: Vec<MIDIRendererContainer>,
}

impl MIDIPool {
    /// The pool's concurrency cap.
    pub closed spec fn cap(&self) -> int {
        self.max_parallel as int
    }

    /// The pool's jobs.
    pub closed spec fn jobs(&self) -> Seq<MIDIRendererContainer> {
        self.containers@
    }

    /// The pool's invariant: never more running jobs than the cap allows.
    pub open spec fn wf(&self) -> bool {
        rendering_count(self.jobs()) <= self.cap()
    }

    /// A fresh pool: every job idle, allowed to run, holding its renderer,
    /// with zeroed statistics.
    pub fn new(max_parallel: usize, n_jobs: usize) -> (r: Self)
        ensures
            r.wf(),
            r.cap() == max_parallel,
            r.jobs().len() == n_jobs,
            rendering_count(r.jobs()) == 0,
            forall|i: int| 0 <= i < n_jobs ==> #[trigger] r.jobs()[i] == (MIDIRendererContainer {
                status: MIDIRendererStatus::Idle,
                allow: true,
                has_renderer: true,
                stats: RenderStats { time_micros: 0, voice_count: 0 },
            }),
    {
        let mut containers: Vec<MIDIRendererContainer> = Vec::new();
        let mut i: usize = 0;
        while i < n_jobs
            invariant
                i <= n_jobs,
                containers@.len() == i,
                rendering_count(containers@) == 0,
                forall|j: int| 0 <= j < i ==> #[trigger] containers@[j] == (MIDIRendererContainer {
                    status: MIDIRendererStatus::Idle,
                    allow: true,
                    has_renderer: true,
                    stats: RenderStats { time_micros: 0, voice_count: 0 },
                }),
            decreases n_jobs - i,
        {
            let c = MIDIRendererContainer {
                status: MIDIRendererStatus::Idle,
                allow: true,
                has_renderer: true,
                stats: RenderStats { time_micros: 0, voice_count: 0 },
            };
            proof {
                assert(containers@.push(c).drop_last() =~= containers@);
            }
            containers.push(c);
            i = i + 1;
        }
        MIDIPool { max_parallel, containers }
    }

    /// How many jobs are running now.
    pub fn get_active_len(&self) -> (r: usize)
        ensures
            r == rendering_count(self.jobs()),
    {
        proof {
            lemma_rendering_count_bounds(self.jobs());
        }
        let mut active: usize = 0;
        let mut i: usize = 0;
        while i < self.containers.len()
            invariant
                i <= self.containers@.len(),
                active == rendering_count(self.containers@.take(i as int)),
                active <= i,
            decreases self.containers@.len() - i,
        {
            proof {
                lemma_rendering_count_prefix_step(self.containers@, i as int);
            }
            if matches!(self.containers[i].status, MIDIRendererStatus::Rendering) {
                active = active + 1;
            }
            i = i + 1;
        }
        proof {
            assert(self.containers@.take(self.containers@.len() as int) =~= self.containers@);
        }
        active
    }

    /// Starts the next waiting job, if the cap leaves room: the first Idle
    /// job moves to Rendering and its index is returned so the caller can
    /// hand the renderer to a worker. Returns None, changing nothing, when
    /// the cap is reached or no job waits.
    pub fn spawn_next(&mut self) -> (r: Option<usize>)
        requires
            old(self).wf(),
        ensures
            final(self).wf(),
            final(self).cap() == old(self).cap(),
            r matches Some(i) ==> {
                &&& 0 <= i < old(self).jobs().len()
                &&& old(self).jobs()[i as int].status is Idle
                &&& forall|j: int| 0 <= j < i ==> !(#[trigger] old(self).jobs()[j].status is Idle)
                &&& rendering_count(old(self).jobs()) < old(self).cap()
                &&& final(self).jobs() == old(self).jobs().update(
                    i as int,
                    MIDIRendererContainer {
                        status: MIDIRendererStatus::Rendering,
                        ..old(self).jobs()[i as int]
                    },
                )
                &&& rendering_count(final(self).jobs()) == rendering_count(old(self).jobs()) + 1
            },
            r is None ==> {
                &&& final(self).jobs() == old(self).jobs()
                &&& (rendering_count(old(self).jobs()) >= old(self).cap()
                    || forall|j: int|
                        0 <= j < old(self).jobs().len()
                            ==> !(#[trigger] old(self).jobs()[j].status is Idle))
            },
    {
        let active = self.get_active_len();

        if active < self.max_parallel && active < self.containers.len() {
            let mut i: usize = 0;
            while i < self.containers.len()
                invariant
                    self.jobs() == old(self).jobs(),
                    self.cap() == old(self).cap(),
                    rendering_count(self.jobs()) < self.cap(),
                    i <= self.containers@.len(),
                    forall|j: int|
                        0 <= j < i ==> !(#[trigger] self.containers@[j].status is Idle),
                decreases self.containers@.len() - i,
            {
                if matches!(self.containers[i].status, MIDIRendererStatus::Idle) {
                    let updated = MIDIRendererContainer {
                        status: MIDIRendererStatus::Rendering,
                        allow: self.containers[i].allow,
                        has_renderer: self.containers[i].has_renderer,
                        stats: self.containers[i].stats,
                    };
                    proof {
                        lemma_rendering_count_update(self.containers@, i as int, updated);
                    }
                    self.containers.set(i, updated);
                    return Some(i);
                }
                i = i + 1;
            }
            None
        } else {
            proof {
                lemma_rendering_count_bounds(self.jobs());
                if rendering_count(self.jobs()) < self.cap() {
                    lemma_rendering_count_full(self.jobs());
                }
            }
            None
        }
    }

    /// Whether one job's container either kept its value or made the one
    /// allowed starting move, Idle to Rendering.
    pub open spec fn started_or_same(
        before: MIDIRendererContainer,
        after: MIDIRendererContainer,
    ) -> bool {
        after == before || (before.status is Idle && after == (MIDIRendererContainer {
            status: MIDIRendererStatus::Rendering,
            ..before
        }))
    }

    /// Starts waiting jobs until the cap is filled or none waits; returns
    /// the started jobs' indices in starting order. Only the returned jobs
    /// change, each from Idle to Rendering, so afterwards exactly the old
    /// running jobs plus the returned ones render; the pipeline is full:
    /// either the cap many jobs are running, or no job is Idle.
    pub fn run(&mut self) -> (r: Vec<usize>)
        requires
            old(self).wf(),
        ensures
            final(self).wf(),
            final(self).cap() == old(self).cap(),
            final(self).jobs().len() == old(self).jobs().len(),
            r@.len() == rendering_count(final(self).jobs()) - rendering_count(old(self).jobs()),
            forall|i: int| 0 <= i < r@.len() ==> #[trigger] r@[i] < old(self).jobs().len(),
            forall|j: int|
                0 <= j < old(self).jobs().len() ==> Self::started_or_same(
                    #[trigger] old(self).jobs()[j],
                    final(self).jobs()[j],
                ),
            forall|j: int|
                0 <= j < old(self).jobs().len() && final(self).jobs()[j] != old(self).jobs()[j]
                    ==> #[trigger] r@.contains(j as usize),
            rendering_count(final(self).jobs()) == old(self).cap()
                || forall|j: int|
                    0 <= j < final(self).jobs().len()
                        ==> !(#[trigger] final(self).jobs()[j].status is Idle),
    {
        proof {
            lemma_rendering_count_bounds(self.jobs());
        }
        let mut spawned: Vec<usize> = Vec::new();
        let mut k: usize = 0;
        let mut stopped: bool = false;
        while k < self.max_parallel && !stopped
            invariant
                self.wf(),
                self.cap() == old(self).cap(),
                self.jobs().len() == old(self).jobs().len(),
                k <= self.max_parallel,
                spawned@.len() == rendering_count(self.jobs()) - rendering_count(
                    old(self).jobs(),
                ),
                forall|i: int| 0 <= i < spawned@.len() ==> #[trigger] spawned@[i]
                    < old(self).jobs().len(),
                forall|j: int|
                    0 <= j < old(self).jobs().len() ==> Self::started_or_same(
                        #[trigger] old(self).jobs()[j],
                        self.jobs()[j],
                    ),
                forall|j: int|
                    0 <= j < old(self).jobs().len() && self.jobs()[j] != old(self).jobs()[j]
                        ==> #[trigger] spawned@.contains(j as usize),
                !stopped ==> rendering_count(self.jobs()) >= k,
                stopped ==> (rendering_count(self.jobs()) >= self.cap() || forall|j: int|
                    0 <= j < self.jobs().len() ==> !(#[trigger] self.jobs()[j].status is Idle)),
            decreases self.max_parallel - k,
        {
            let ghost jobs_before = self.jobs();
            let ghost spawned_before = spawned@;
            match self.spawn_next() {
                Some(i) => {
                    spawned.push(i);
                    proof {
                        let spawned_now = spawned@;
                        assert(spawned_now == spawned_before.push(i));
                        assert forall|j: int|
                            0 <= j < old(self).jobs().len() && self.jobs()[j]
                                != old(self).jobs()[j] implies #[trigger] spawned_now.contains(
                            j as usize,
                        ) by {
                            if jobs_before[j] != old(self).jobs()[j] {
                                assert(spawned_before.contains(j as usize));
                                let w = choose|w: int|
                                    0 <= w < spawned_before.len() && spawned_before[w]
                                        == j as usize;
                                assert(spawned_now[w] == j as usize);
                            } else {
                                assert(self.jobs()[j] != jobs_before[j]);
                                assert(j == i as int);
                                assert(spawned_now[spawned_now.len() - 1] == i);
                            }
                        }
                    }
                },
                None => {
                    stopped = true;
                },
            }
            k = k + 1;
        }
        spawned
    }

    /// Records that a running job completed.
    pub fn note_finished(&mut self, id: usize)
        requires
            old(self).wf(),
            id < old(self).jobs().len(),
            old(self).jobs()[id as int].status is Rendering,
        ensures
            final(self).wf(),
            final(self).cap() == old(self).cap(),
            final(self).jobs() == old(self).jobs().update(
                id as int,
                MIDIRendererContainer {
                    status: MIDIRendererStatus::Finished,
                    ..old(self).jobs()[id as int]
                },
            ),
            rendering_count(final(self).jobs()) == rendering_count(old(self).jobs()) - 1,
    {
        let updated = MIDIRendererContainer {
            status: MIDIRendererStatus::Finished,
            allow: self.containers[id].allow,
            has_renderer: self.containers[id].has_renderer,
            stats: self.containers[id].stats,
        };
        proof {
            lemma_rendering_count_update(self.containers@, id as int, updated);
        }
        self.containers.set(id, updated);
    }

    /// Records that a running job failed.
    pub fn note_error(&mut self, id: usize)
        requires
            old(self).wf(),
            id < old(self).jobs().len(),
            old(self).jobs()[id as int].status is Rendering,
        ensures
            final(self).wf(),
            final(self).cap() == old(self).cap(),
            final(self).jobs() == old(self).jobs().update(
                id as int,
                MIDIRendererContainer {
                    status: MIDIRendererStatus::Error,
                    ..old(self).jobs()[id as int]
                },
            ),
    {
        let updated = MIDIRendererContainer {
            status: MIDIRendererStatus::Error,
            allow: self.containers[id].allow,
            has_renderer: self.containers[id].has_renderer,
            stats: self.containers[id].stats,
        };
        proof {
            lemma_rendering_count_update(self.containers@, id as int, updated);
        }
        self.containers.set(id, updated);
    }

    /// Records a job's latest statistics. Reported render time never goes
    /// backwards: until a job is torn down its elapsed time only grows,
    /// so each update must carry at least the time already recorded.
    pub fn note_stats(&mut self, id: usize, stats: RenderStats)
        requires
            old(self).wf(),
            id < old(self).jobs().len(),
            stats.time_micros >= old(self).jobs()[id as int].stats.time_micros,
        ensures
            final(self).wf(),
            final(self).cap() == old(self).cap(),
            final(self).jobs() == old(self).jobs().update(
                id as int,
                MIDIRendererContainer { stats, ..old(self).jobs()[id as int] },
            ),
    {
        let updated = MIDIRendererContainer {
            status: self.containers[id].status,
            allow: self.containers[id].allow,
            has_renderer: self.containers[id].has_renderer,
            stats,
        };
        proof {
            lemma_rendering_count_update(self.containers@, id as int, updated);
        }
        self.containers.set(id, updated);
    }

    /// One job's current status.
    pub fn job_status(&self, id: usize) -> (r: MIDIRendererStatus)
        requires
            id < self.jobs().len(),
        ensures
            r == self.jobs()[id as int].status,
    {
        self.containers[id].status
    }

    /// The pool's aggregate status. Every finished job's renderer handle is
    /// dropped; an erroring pool cancels the whole batch.
    pub fn status(&mut self) -> (r: MIDIRendererStatus)
        requires
            old(self).wf(),
        ensures
            final(self).wf(),
            final(self).cap() == old(self).cap(),
            r == pool_status(old(self).jobs()),
            r is Error ==> final(self).jobs().len() == 0,
            !(r is Error) ==> final(self).jobs() == drop_finished_handles(old(self).jobs()),
    {
        let mut has_error: bool = false;
        let mut has_rendering: bool = false;
        let mut has_idle: bool = false;
        let mut i: usize = 0;
        while i < self.containers.len()
            invariant
                old(self).wf(),
                self.cap() == old(self).cap(),
                i <= self.jobs().len(),
                self.jobs().len() == old(self).jobs().len(),
                rendering_count(self.jobs()) == rendering_count(old(self).jobs()),
                has_error == exists|j: int| 0 <= j < i && old(self).jobs()[j].status is Error,
                has_rendering == exists|j: int| 0 <= j < i && old(self).jobs()[j].status is Rendering,
                has_idle == exists|j: int| 0 <= j < i && old(self).jobs()[j].status is Idle,
                forall|j: int| i <= j < self.jobs().len()
                    ==> #[trigger] self.jobs()[j] == old(self).jobs()[j],
                forall|j: int| 0 <= j < i ==> #[trigger] self.jobs()[j]
                    == (if old(self).jobs()[j].status is Finished {
                        MIDIRendererContainer { has_renderer: false, ..old(self).jobs()[j] }
                    } else {
                        old(self).jobs()[j]
                    }),
            decreases self.jobs().len() - i,
        {
            let status = self.containers[i].status;
            match status {
                MIDIRendererStatus::Error => {
                    has_error = true;
                },
                MIDIRendererStatus::Rendering => {
                    has_rendering = true;
                },
                MIDIRendererStatus::Idle => {
                    has_idle = true;
                },
                MIDIRendererStatus::Finished => {
                    let updated = MIDIRendererContainer {
                        status: self.containers[i].status,
                        allow: self.containers[i].allow,
                        has_renderer: false,
                        stats: self.containers[i].stats,
                    };
                    proof {
                        lemma_rendering_count_update(self.containers@, i as int, updated);
                    }
                    self.containers.set(i, updated);
                },
            }
            i = i + 1;
        }

        if has_error {
            self.cancel_all();
            MIDIRendererStatus::Error
        } else {
            proof {
                assert(self.jobs() =~= drop_finished_handles(old(self).jobs()));
            }
            if has_rendering {
                MIDIRendererStatus::Rendering
            } else if has_idle {
                MIDIRendererStatus::Idle
            } else {
                MIDIRendererStatus::Finished
            }
        }
    }

    /// Whether the whole batch has finished.
    pub fn has_finished(&mut self) -> (r: bool)
        requires
            old(self).wf(),
        ensures
            final(self).wf(),
            final(self).cap() == old(self).cap(),
            r == (pool_status(old(self).jobs()) is Finished),
            pool_status(old(self).jobs()) is Error ==> final(self).jobs().len() == 0,
            !(pool_status(old(self).jobs()) is Error)
                ==> final(self).jobs() == drop_finished_handles(old(self).jobs()),
    {
        let status = self.status();
        matches!(status, MIDIRendererStatus::Finished)
    }

    /// Per-job statistics for the poller: a value for every job that has
    /// started and is still allowed to run, None for the rest. Because
    /// `note_stats` refuses a regressing render time, the time a job
    /// reports here never decreases across polls until it is torn down.
    pub fn get_stats(&self) -> (r: Vec<Option<RenderStats>>)
        ensures
            r@.len() == self.jobs().len(),
            forall|i: int| 0 <= i < r@.len() ==> #[trigger] r@[i]
                == (if !(self.jobs()[i].status is Idle) && self.jobs()[i].allow {
                    Some(self.jobs()[i].stats)
                } else {
                    None
                }),
    {
        let mut progress: Vec<Option<RenderStats>> = Vec::new();
        let mut i: usize = 0;
        while i < self.containers.len()
            invariant
                i <= self.jobs().len(),
                progress@.len() == i,
                forall|j: int| 0 <= j < i ==> #[trigger] progress@[j]
                    == (if !(self.jobs()[j].status is Idle) && self.jobs()[j].allow {
                        Some(self.jobs()[j].stats)
                    } else {
                        None
                    }),
            decreases self.jobs().len() - i,
        {
            let started = !matches!(self.containers[i].status, MIDIRendererStatus::Idle);
            let allow = self.containers[i].allow;
            if started && allow {
                progress.push(Some(self.containers[i].stats));
            } else {
                progress.push(None);
            }
            i = i + 1;
        }
        progress
    }

    /// Revokes one job's permission to continue; its threads stop at their
    /// next cancellation check.
    pub fn cancel(&mut self, id: usize)
        requires
            old(self).wf(),
            id < old(self).jobs().len(),
        ensures
            final(self).wf(),
            final(self).cap() == old(self).cap(),
            final(self).jobs() == old(self).jobs().update(
                id as int,
                MIDIRendererContainer { allow: false, ..old(self).jobs()[id as int] },
            ),
    {
        let updated = MIDIRendererContainer {
            status: self.containers[id].status,
            allow: false,
            has_renderer: self.containers[id].has_renderer,
            stats: self.containers[id].stats,
        };
        proof {
            lemma_rendering_count_update(self.containers@, id as int, updated);
        }
        self.containers.set(id, updated);
    }

    /// Cancels the whole batch: every job loses its permission to continue
    /// and every container, with its renderer handle, is dropped.
    pub fn cancel_all(&mut self)
        requires
            old(self).wf(),
        ensures
            final(self).wf(),
            final(self).cap() == old(self).cap(),
            final(self).jobs().len() == 0,
    {
        self.containers.clear();
    }
}

/// The all-or-nothing batch-construction rule: an empty list is refused
/// outright, the first load failure aborts the whole batch with that
/// failure, and only a batch whose every file loaded yields a job count.
pub fn batch_outcome(results: Vec<Result<(), MIDIRendererError>>) -> (r: Result<
    usize,
    MIDIRendererError,
>)
    ensures
        results@.len() == 0 ==> (r matches Err(e) && e matches MIDIRendererError::Renderer(d)
            && d@ == "Empty MIDI List"@),
        results@.len() > 0 && (forall|i: int| 0 <= i < results@.len()
            ==> #[trigger] results@[i] is Ok)
            ==> (r matches Ok(c) && c == results@.len()),
        (exists|i: int| 0 <= i < results@.len() && #[trigger] results@[i] is Err)
            ==> (exists|i: int| {
                &&& 0 <= i < results@.len()
                &&& (#[trigger] results@[i] matches Err(e)
                    && r == Err::<usize, MIDIRendererError>(e))
                &&& forall|j: int| 0 <= j < i ==> #[trigger] results@[j] is Ok
            }),
{
    if results.len() == 0 {
        return Err(MIDIRendererError::Renderer("Empty MIDI List".to_owned()));
    }
    let n = results.len();
    let mut i: usize = 0;
    let mut err_at: Option<usize> = None;
    while i < n && err_at.is_none()
        invariant
            n == results@.len(),
            i <= n,
            err_at is None ==> forall|j: int| 0 <= j < i ==> #[trigger] results@[j] is Ok,
            err_at matches Some(k) ==> 0 <= k < n && results@[k as int] is Err
                && forall|j: int| 0 <= j < k ==> #[trigger] results@[j] is Ok,
        decreases n - i,
    {
        if results[i].is_err() {
            err_at = Some(i);
        }
        i = i + 1;
    }
    match err_at {
        None => Ok(n),
        Some(k) => {
            let mut rest = results;
            let found = rest.remove(k);
            match found {
                Err(e) => Err(e),
                Ok(_) => {
                    // Unreachable: the removed element was just seen to be an error.
                    Err(MIDIRendererError::Renderer("Empty MIDI List".to_owned()))
                },
            }
        },
    }
}

/// Law: a well-formed pool never runs more jobs at once than its cap.
pub proof fn lemma_rendering_bounded(p: &MIDIPool)
    requires
        p.wf(),
    ensures
        rendering_count(p.jobs()) <= p.cap(),
{
}

/// Law: the batch reports Finished exactly when every job has finished;
/// in particular one unfinished job keeps the whole batch unfinished.
pub proof fn lemma_finished_means_all_finished(s: Seq<MIDIRendererContainer>)
    ensures
        (pool_status(s) is Finished) == (forall|i: int|
            0 <= i < s.len() ==> #[trigger] s[i].status is Finished),
{
    if pool_status(s) is Finished {
        assert forall|i: int| 0 <= i < s.len() implies #[trigger] s[i].status is Finished by {
            if !(s[i].status is Finished) {
                assert(s[i].status is Error || s[i].status is Rendering || s[i].status is Idle);
            }
        }
    }
}

} // verus!
