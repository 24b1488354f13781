//! The top-level render manager: deduplicated soundfont load list, the two
//! pools' composition, and the aggregate status the poller reads.

use vstd::prelude::*;
use crate::errors::MIDIRendererError;
use crate::midi_pool::{
    batch_outcome, drop_finished_handles, pool_status, rendering_count, MIDIPool,
    MIDIRendererContainer, MIDIRendererStatus, RenderStats,
};
use crate::sf_list::{sf_items_view, ForteSFListItem, SFItemView};
use crate::soundfont_pool::{sf_pool_status, prune_finished, SoundfontPool, SoundfontWorkerStatus};
use crate::settings::SingleChannelSettings;

verus! {

/// The manager's aggregate state, as the poller sees it.
#[derive(Clone, Copy, PartialEq, Eq, Structural, Debug)]
pub enum ManagerStatus {
    LoadingSoundfonts,
    SoundfontsFinished,
    SFLoadError,
    RenderingMIDIs,
    RenderFinished,
}

/// How the two pools' statuses compose: the soundfont pool decides the
/// base status, and any started MIDI work overrides it.
pub open spec fn spec_manager_status(
    sf: SoundfontWorkerStatus,
    midi: MIDIRendererStatus,
) -> ManagerStatus {
    if midi is Rendering {
        ManagerStatus::RenderingMIDIs
    } else if midi is Finished {
        ManagerStatus::RenderFinished
    } else if sf is Loading {
        ManagerStatus::LoadingSoundfonts
    } else if sf is Error {
        ManagerStatus::SFLoadError
    } else {
        ManagerStatus::SoundfontsFinished
    }
}

/// Composes the two pools' statuses into the manager's.
pub fn manager_status(sf: SoundfontWorkerStatus, midi: MIDIRendererStatus) -> (r: ManagerStatus)
    ensures
        r == spec_manager_status(sf, midi),
{
    let base = match sf {
        SoundfontWorkerStatus::Loading => ManagerStatus::LoadingSoundfonts,
        SoundfontWorkerStatus::Error => ManagerStatus::SFLoadError,
        SoundfontWorkerStatus::Finished => ManagerStatus::SoundfontsFinished,
    };
    match midi {
        MIDIRendererStatus::Rendering => ManagerStatus::RenderingMIDIs,
        MIDIRendererStatus::Finished => ManagerStatus::RenderFinished,
        _ => base,
    }
}

/// Whether some channel's soundfont list references the path.
pub open spec fn channel_references_path(
    channels: Seq<SingleChannelSettings>,
    p: Seq<char>,
) -> bool {
    exists|c: int, k: int|
        0 <= c < channels.len() && 0 <= k < channels[c]@.soundfonts.len()
            && channels[c]@.soundfonts[k].path == p
}

/// Whether some entry of the list carries the path.
pub open spec fn path_in(items: Seq<ForteSFListItem>, p: Seq<char>) -> bool {
    exists|i: int| 0 <= i < items.len() && items[i]@.path == p
}

/// Whether some entry of the list of views carries the path.
pub open spec fn view_path_in(items: Seq<SFItemView>, p: Seq<char>) -> bool {
    exists|i: int| 0 <= i < items.len() && items[i].path == p
}

/// Every channel's soundfont references, flattened in channel order.
pub open spec fn flatten_refs(channels: Seq<SingleChannelSettings>) -> Seq<SFItemView>
    decreases channels.len(),
{
    if channels.len() == 0 {
        Seq::empty()
    } else {
        flatten_refs(channels.drop_last()) + channels.last()@.soundfonts
    }
}

/// The list with every repeated path dropped: each path keeps exactly its
/// first occurrence's entry, in occurrence order.
pub open spec fn dedup_first_by_path(items: Seq<SFItemView>) -> Seq<SFItemView>
    decreases items.len(),
{
    if items.len() == 0 {
        Seq::empty()
    } else {
        let kept = dedup_first_by_path(items.drop_last());
        if view_path_in(kept, items.last().path) {
            kept
        } else {
            kept.push(items.last())
        }
    }
}

proof fn lemma_path_in_views(items: Seq<ForteSFListItem>, p: Seq<char>)
    ensures
        path_in(items, p) == view_path_in(sf_items_view(items), p),
{
    if path_in(items, p) {
        let i = choose|i: int| 0 <= i < items.len() && items[i]@.path == p;
        assert(sf_items_view(items)[i].path == p);
    }
    if view_path_in(sf_items_view(items), p) {
        let i = choose|i: int|
            0 <= i < sf_items_view(items).len() && sf_items_view(items)[i].path == p;
        assert(items[i]@.path == p);
    }
}

/// Whether the list already holds an entry with the path.
fn contains_sf_path(items: &Vec<ForteSFListItem>, path: &String) -> (r: bool)
    ensures
        r == path_in(items@, path@),
{
    let mut i: usize = 0;
    while i < items.len()
        invariant
            i <= items@.len(),
            forall|j: int| 0 <= j < i ==> #[trigger] items@[j]@.path != path@,
        decreases items@.len() - i,
    {
        if items[i].path == *path {
            assert(items@[i as int]@.path == path@);
            return true;
        }
        i = i + 1;
    }
    assert(!path_in(items@, path@));
    false
}

/// Collects every soundfont referenced by any channel, one entry per
/// distinct path: exactly the flattened reference list, in channel order,
/// with every repeated path dropped in favour of its first occurrence —
/// the load list the soundfont pool works through. Each distinct path is
/// loaded once however many channels reference it.
pub fn referenced_soundfonts(channels: &Vec<SingleChannelSettings>) -> (r: Vec<ForteSFListItem>)
    ensures
        sf_items_view(r@) == dedup_first_by_path(flatten_refs(channels@)),
        forall|i: int, j: int|
            0 <= i < j < r@.len() ==> #[trigger] r@[i]@.path != #[trigger] r@[j]@.path,
        forall|i: int|
            0 <= i < r@.len() ==> channel_references_path(channels@, #[trigger] r@[i]@.path),
        forall|c: int, k: int|
            0 <= c < channels@.len() && 0 <= k < channels@[c]@.soundfonts.len()
                ==> path_in(r@, #[trigger] channels@[c]@.soundfonts[k].path),
{
    let mut out: Vec<ForteSFListItem> = Vec::new();
    proof {
        assert(channels@.take(0) =~= Seq::<SingleChannelSettings>::empty());
        assert(sf_items_view(out@) =~= dedup_first_by_path(flatten_refs(channels@.take(0))));
    }
    let mut c: usize = 0;
    while c < channels.len()
        invariant
            c <= channels@.len(),
            sf_items_view(out@) == dedup_first_by_path(flatten_refs(channels@.take(c as int))),
            forall|i: int, j: int|
                0 <= i < j < out@.len() ==> #[trigger] out@[i]@.path != #[trigger] out@[j]@.path,
            forall|i: int|
                0 <= i < out@.len() ==> channel_references_path(channels@, #[trigger] out@[i]@.path),
            forall|a: int, k: int|
                0 <= a < c && 0 <= k < channels@[a]@.soundfonts.len()
                    ==> path_in(out@, #[trigger] channels@[a]@.soundfonts[k].path),
        decreases channels@.len() - c,
    {
        let ghost flat = flatten_refs(channels@.take(c as int));
        let ghost refs = channels@[c as int]@.soundfonts;
        proof {
            assert(refs.take(0) =~= Seq::<SFItemView>::empty());
            assert(flat + refs.take(0) =~= flat);
        }
        let mut k: usize = 0;
        while k < channels[c].soundfonts.len()
            invariant
                c < channels@.len(),
                k <= channels@[c as int].soundfonts@.len(),
                flat == flatten_refs(channels@.take(c as int)),
                refs == channels@[c as int]@.soundfonts,
                sf_items_view(out@) == dedup_first_by_path(flat + refs.take(k as int)),
                forall|i: int, j: int|
                    0 <= i < j < out@.len() ==> #[trigger] out@[i]@.path
                        != #[trigger] out@[j]@.path,
                forall|i: int|
                    0 <= i < out@.len() ==> channel_references_path(
                        channels@,
                        #[trigger] out@[i]@.path,
                    ),
                forall|a: int, kk: int|
                    0 <= a < c && 0 <= kk < channels@[a]@.soundfonts.len()
                        ==> path_in(out@, #[trigger] channels@[a]@.soundfonts[kk].path),
                forall|kk: int|
                    0 <= kk < k ==> path_in(
                        out@,
                        #[trigger] channels@[c as int]@.soundfonts[kk].path,
                    ),
            decreases channels@[c as int].soundfonts@.len() - k,
        {
            let ghost out_before = out@;
            let sf_path = channels[c].soundfonts[k].path.clone();
            proof {
                assert(channels@[c as int]@.soundfonts[k as int].path == sf_path@);
                assert((flat + refs.take(k as int + 1)).drop_last() =~= flat + refs.take(
                    k as int,
                ));
                assert((flat + refs.take(k as int + 1)).last() == refs[k as int]);
                lemma_path_in_views(out_before, sf_path@);
            }
            if !contains_sf_path(&out, &sf_path) {
                proof {
                    assert(channel_references_path(channels@, sf_path@));
                }
                let item = channels[c].soundfonts[k].duplicate();
                out.push(item);
                proof {
                    assert(out@[out@.len() - 1]@.path == sf_path@);
                    assert(path_in(out@, sf_path@));
                    assert(sf_items_view(out@) =~= sf_items_view(out_before).push(
                        refs[k as int],
                    ));
                }
            } else {
                proof {
                    assert(sf_items_view(out@) == dedup_first_by_path(
                        flat + refs.take(k as int + 1),
                    ));
                }
            }
            proof {
                assert(forall|i: int|
                    0 <= i < out_before.len() ==> #[trigger] out@[i] == out_before[i]);
                assert forall|p: Seq<char>| path_in(out_before, p) implies #[trigger] path_in(
                    out@,
                    p,
                ) by {
                    let wi = choose|i: int|
                        0 <= i < out_before.len() && out_before[i]@.path == p;
                    assert(out@[wi]@.path == p);
                };
                assert(path_in(out@, channels@[c as int]@.soundfonts[k as int].path));
            }
            k = k + 1;
        }
        proof {
            assert(refs.take(refs.len() as int) =~= refs);
            assert(channels@.take(c as int + 1).drop_last() =~= channels@.take(c as int));
            assert(channels@.take(c as int + 1).last() == channels@[c as int]);
            assert(flatten_refs(channels@.take(c as int + 1)) =~= flat + refs);
        }
        c = c + 1;
    }
    proof {
        assert(channels@.take(channels@.len() as int) =~= channels@);
    }
    out
}

/// Law: a soundfont path referenced by two channels appears exactly once
/// in a load list with pairwise-distinct paths: both references share the
/// one entry, and so the one loaded bank.
pub proof fn lemma_soundfont_loaded_once(
    loads: Seq<ForteSFListItem>,
    p: Seq<char>,
    i: int,
    j: int,
)
    requires
        forall|a: int, b: int|
            0 <= a < b < loads.len() ==> #[trigger] loads[a]@.path != #[trigger] loads[b]@.path,
        0 <= i < loads.len(),
        0 <= j < loads.len(),
        loads[i]@.path == p,
        loads[j]@.path == p,
    ensures
        i == j,
{
    if i < j {
        assert(loads[i]@.path != loads[j]@.path);
    } else if j < i {
        assert(loads[j]@.path != loads[i]@.path);
    }
}

/// The top-level state machine over the two pools.
pub struct RenderThreadManager {
    pub soundfont_pool: SoundfontPool,
    pub midi_pool: MIDIPool,
}

impl RenderThreadManager {
    /// The manager's invariant: its job pool respects the concurrency cap.
    pub open spec fn wf(&self) -> bool {
        self.midi_pool.wf()
    }

    /// Builds the manager once every input MIDI has been opened: the
    /// soundfont pool gets one worker per entry of the deduplicated load
    /// list, and the batch is accepted exactly when it is non-empty and
    /// every file loaded — an empty list is refused with its own error,
    /// and the first load failure aborts the whole batch with that very
    /// failure.
    pub fn new(
        n_soundfonts: usize,
        max_parallel: usize,
        midi_load_results: Vec<Result<(), MIDIRendererError>>,
    ) -> (r: Result<Self, MIDIRendererError>)
        ensures
            midi_load_results@.len() == 0 ==> (r matches Err(e)
                && e matches MIDIRendererError::Renderer(d) && d@ == "Empty MIDI List"@),
            (exists|i: int| 0 <= i < midi_load_results@.len() && #[trigger] midi_load_results@[i]
                is Err) ==> (exists|i: int| {
                &&& 0 <= i < midi_load_results@.len()
                &&& (#[trigger] midi_load_results@[i] matches Err(e) && r == Err::<
                    Self,
                    MIDIRendererError,
                >(e))
                &&& forall|j: int| 0 <= j < i ==> #[trigger] midi_load_results@[j] is Ok
            }),
            midi_load_results@.len() > 0 && (forall|i: int|
                0 <= i < midi_load_results@.len() ==> #[trigger] midi_load_results@[i] is Ok)
                ==> r is Ok,
            r matches Ok(m) ==> {
                &&& m.wf()
                &&& m.midi_pool.jobs().len() == midi_load_results@.len()
                &&& m.midi_pool.cap() == max_parallel
                &&& rendering_count(m.midi_pool.jobs()) == 0
                &&& forall|i: int| 0 <= i < m.midi_pool.jobs().len()
                    ==> #[trigger] m.midi_pool.jobs()[i].status is Idle
                &&& m.soundfont_pool.workers().len() == n_soundfonts
                &&& forall|i: int| 0 <= i < n_soundfonts
                    ==> #[trigger] m.soundfont_pool.workers()[i].status is Loading
                &&& forall|i: int| 0 <= i < midi_load_results@.len()
                    ==> #[trigger] midi_load_results@[i] is Ok
            },
    {
        let n_jobs = match batch_outcome(midi_load_results) {
            Ok(n) => n,
            Err(e) => {
                return Err(e);
            },
        };
        let soundfont_pool = SoundfontPool::new(n_soundfonts);
        let midi_pool = MIDIPool::new(max_parallel, n_jobs);
        Ok(RenderThreadManager { soundfont_pool, midi_pool })
    }

    /// The aggregate status: polls both pools, with their bookkeeping side
    /// effects — finished loaders are pruned (all loaders cancelled when
    /// one failed), finished renderers lose their handles, and an erroring
    /// job batch is dropped whole.
    pub fn status(&mut self) -> (r: ManagerStatus)
        requires
            old(self).wf(),
        ensures
            final(self).wf(),
            r == spec_manager_status(
                sf_pool_status(old(self).soundfont_pool.workers()),
                pool_status(old(self).midi_pool.jobs()),
            ),
            final(self).soundfont_pool.workers() == prune_finished(
                old(self).soundfont_pool.workers(),
                sf_pool_status(old(self).soundfont_pool.workers()) is Error,
            ),
            final(self).midi_pool.cap() == old(self).midi_pool.cap(),
            pool_status(old(self).midi_pool.jobs()) is Error
                ==> final(self).midi_pool.jobs().len() == 0,
            !(pool_status(old(self).midi_pool.jobs()) is Error)
                ==> final(self).midi_pool.jobs() == drop_finished_handles(
                    old(self).midi_pool.jobs(),
                ),
    {
        let sf = self.soundfont_pool.status();
        let midi = self.midi_pool.status();
        manager_status(sf, midi)
    }

    /// Starts jobs until the cap is filled or none waits; the returned
    /// indices tell the caller which renderers to hand to workers. Only
    /// the returned jobs change, each from Idle to Rendering, and
    /// afterwards either the cap many jobs run or no job waits. The
    /// soundfont pool is untouched.
    pub fn render(&mut self) -> (r: Vec<usize>)
        requires
            old(self).wf(),
        ensures
            final(self).wf(),
            final(self).soundfont_pool.workers() == old(self).soundfont_pool.workers(),
            final(self).midi_pool.cap() == old(self).midi_pool.cap(),
            final(self).midi_pool.jobs().len() == old(self).midi_pool.jobs().len(),
            r@.len() == rendering_count(final(self).midi_pool.jobs()) - rendering_count(
                old(self).midi_pool.jobs(),
            ),
            forall|i: int|
                0 <= i < r@.len() ==> #[trigger] r@[i] < old(self).midi_pool.jobs().len(),
            forall|j: int|
                0 <= j < old(self).midi_pool.jobs().len() ==> MIDIPool::started_or_same(
                    #[trigger] old(self).midi_pool.jobs()[j],
                    final(self).midi_pool.jobs()[j],
                ),
            forall|j: int|
                0 <= j < old(self).midi_pool.jobs().len() && final(self).midi_pool.jobs()[j]
                    != old(self).midi_pool.jobs()[j] ==> #[trigger] r@.contains(j as usize),
            rendering_count(final(self).midi_pool.jobs()) == old(self).midi_pool.cap()
                || forall|j: int|
                    0 <= j < final(self).midi_pool.jobs().len()
                        ==> !(#[trigger] final(self).midi_pool.jobs()[j].status is Idle),
    {
        self.midi_pool.run()
    }

    /// Starts the next waiting job, if the cap leaves room: the first Idle
    /// job moves to Rendering and its index comes back; otherwise nothing
    /// changes and None says the cap is reached or no job waits. The
    /// soundfont pool is untouched.
    pub fn spawn_next(&mut self) -> (r: Option<usize>)
        requires
            old(self).wf(),
        ensures
            final(self).wf(),
            final(self).soundfont_pool.workers() == old(self).soundfont_pool.workers(),
            final(self).midi_pool.cap() == old(self).midi_pool.cap(),
            r matches Some(i) ==> {
                &&& 0 <= i < old(self).midi_pool.jobs().len()
                &&& old(self).midi_pool.jobs()[i as int].status is Idle
                &&& forall|j: int|
                    0 <= j < i ==> !(#[trigger] old(self).midi_pool.jobs()[j].status is Idle)
                &&& rendering_count(old(self).midi_pool.jobs()) < old(self).midi_pool.cap()
                &&& final(self).midi_pool.jobs() == old(self).midi_pool.jobs().update(
                    i as int,
                    (MIDIRendererContainer {
                        status: MIDIRendererStatus::Rendering,
                        ..old(self).midi_pool.jobs()[i as int]
                    }),
                )
                &&& rendering_count(final(self).midi_pool.jobs()) == rendering_count(
                    old(self).midi_pool.jobs(),
                ) + 1
            },
            r is None ==> {
                &&& final(self).midi_pool.jobs() == old(self).midi_pool.jobs()
                &&& (rendering_count(old(self).midi_pool.jobs()) >= old(self).midi_pool.cap()
                    || forall|j: int|
                        0 <= j < old(self).midi_pool.jobs().len()
                            ==> !(#[trigger] old(self).midi_pool.jobs()[j].status is Idle))
            },
    {
        self.midi_pool.spawn_next()
    }

    /// Per-job statistics for the poller: a value for every job that has
    /// started and is still allowed to run, None for the rest.
    pub fn get_stats(&self) -> (r: Vec<Option<RenderStats>>)
        ensures
            r@.len() == self.midi_pool.jobs().len(),
            forall|i: int|
                0 <= i < r@.len() ==> #[trigger] r@[i] == (if !(self.midi_pool.jobs()[i].status
                    is Idle) && self.midi_pool.jobs()[i].allow {
                    Some(self.midi_pool.jobs()[i].stats)
                } else {
                    None
                }),
    {
        self.midi_pool.get_stats()
    }

    /// Whether the whole batch has finished rendering, with the status
    /// poll's bookkeeping applied to the job pool.
    pub fn has_finished(&mut self) -> (r: bool)
        requires
            old(self).wf(),
        ensures
            final(self).wf(),
            final(self).soundfont_pool.workers() == old(self).soundfont_pool.workers(),
            final(self).midi_pool.cap() == old(self).midi_pool.cap(),
            r == (pool_status(old(self).midi_pool.jobs()) is Finished),
            pool_status(old(self).midi_pool.jobs()) is Error
                ==> final(self).midi_pool.jobs().len() == 0,
            !(pool_status(old(self).midi_pool.jobs()) is Error)
                ==> final(self).midi_pool.jobs() == drop_finished_handles(
                    old(self).midi_pool.jobs(),
                ),
    {
        self.midi_pool.has_finished()
    }

    /// Cancels everything: soundfont loads lose their insertion permission
    /// and the whole job batch is dropped.
    pub fn cancel(&mut self)
        requires
            old(self).wf(),
        ensures
            final(self).wf(),
            final(self).midi_pool.jobs().len() == 0,
            forall|i: int| 0 <= i < final(self).soundfont_pool.workers().len()
                ==> !(#[trigger] final(self).soundfont_pool.workers()[i].allow),
    {
        self.soundfont_pool.cancel();
        self.midi_pool.cancel_all();
    }
}

} // verus!
