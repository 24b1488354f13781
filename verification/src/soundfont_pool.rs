//! Soundfont loading: one worker per distinct soundfont path, a shared
//! path-keyed cache with at most one entry per path, and the pool-wide
//! status aggregation the manager polls.

use vstd::prelude::*;
use crate::sf_list::{sf_items_view, ForteSFListItem, SFItemView};

verus! {

/// A loader worker's lifecycle.
#[derive(Clone, Copy, PartialEq, Eq, Structural, Debug)]
pub enum SoundfontWorkerStatus {
    Loading,
    Finished,
    Error,
}

/// One loader worker as the pool tracks it: its status and its cooperative
/// cancellation flag.
#[derive(Clone, Copy, PartialEq, Eq, Structural, Debug)]
pub struct SoundfontWorker {
    pub status: SoundfontWorkerStatus,
    pub allow: bool,
}

/// What a loader does when its parse completes.
#[derive(Clone, Copy, PartialEq, Eq, Structural, Debug)]
pub enum LoadCompletion {
    /// The bank loaded and the worker may still run: insert it into the
    /// cache and mark the worker Finished.
    InsertAndFinish,
    /// The bank loaded but the worker was cancelled: suppress the cache
    /// insertion, still mark the worker Finished.
    FinishWithoutInsert,
    /// The bank failed to parse or load: mark the worker Error.
    MarkError,
}

/// Decides a completing loader's action: a successful load is inserted
/// exactly when the worker is still allowed to run; a failed load marks an
/// error whether or not the worker was cancelled.
pub fn worker_completion(allow: bool, load_ok: bool) -> (r: LoadCompletion)
    ensures
        load_ok && allow ==> r is InsertAndFinish,
        load_ok && !allow ==> r is FinishWithoutInsert,
        !load_ok ==> r is MarkError,
{
    if load_ok {
        if allow {
            LoadCompletion::InsertAndFinish
        } else {
            LoadCompletion::FinishWithoutInsert
        }
    } else {
        LoadCompletion::MarkError
    }
}

/// The pool's aggregate status: any failed worker dominates, any still
/// loading comes next, and a pool whose workers all finished (or that never
/// had any) is Finished.
pub open spec fn sf_pool_status(s: Seq<SoundfontWorker>) -> SoundfontWorkerStatus {
    if exists|i: int| 0 <= i < s.len() && s[i].status is Error {
        SoundfontWorkerStatus::Error
    } else if exists|i: int| 0 <= i < s.len() && s[i].status is Loading {
        SoundfontWorkerStatus::Loading
    } else {
        SoundfontWorkerStatus::Finished
    }
}

/// The workers that are not yet finished, in order.
pub open spec fn unfinished_workers(s: Seq<SoundfontWorker>) -> Seq<SoundfontWorker> {
    s.filter(|w: SoundfontWorker| !(w.status is Finished))
}

/// The workers that are not yet finished, in order, with `allow` forced off
/// when the batch is being cancelled.
pub open spec fn prune_finished(s: Seq<SoundfontWorker>, cancel: bool) -> Seq<SoundfontWorker> {
    unfinished_workers(s).map_values(
        |w: SoundfontWorker| if cancel { SoundfontWorker { allow: false, ..w } } else { w },
    )
}

/// The parallel soundfont loader pool: one worker per distinct path.
pub struct SoundfontPool {
    workers: Vec<SoundfontWorker>,
}

impl SoundfontPool {
    /// The pool's workers.
    pub closed spec fn workers(&self) -> Seq<SoundfontWorker> {
        self.workers@
    }

    /// A fresh pool with one loading, allowed worker per soundfont.
    pub fn new(n_soundfonts: usize) -> (r: Self)
        ensures
            r.workers().len() == n_soundfonts,
            forall|i: int| 0 <= i < n_soundfonts ==> #[trigger] r.workers()[i]
                == (SoundfontWorker { status: SoundfontWorkerStatus::Loading, allow: true }),
    {
        let mut workers: Vec<SoundfontWorker> = Vec::new();
        let mut i: usize = 0;
        while i < n_soundfonts
            invariant
                i <= n_soundfonts,
                workers@.len() == i,
                forall|j: int| 0 <= j < i ==> #[trigger] workers@[j]
                    == (SoundfontWorker { status: SoundfontWorkerStatus::Loading, allow: true }),
            decreases n_soundfonts - i,
        {
            workers.push(SoundfontWorker { status: SoundfontWorkerStatus::Loading, allow: true });
            i = i + 1;
        }
        SoundfontPool { workers }
    }

    /// Records one worker's completion: Finished on a successful load,
    /// Error on a failed one.
    pub fn note_worker(&mut self, id: usize, load_ok: bool)
        requires
            id < old(self).workers().len(),
            old(self).workers()[id as int].status is Loading,
        ensures
            final(self).workers() == old(self).workers().update(
                id as int,
                (SoundfontWorker {
                    status: if load_ok {
                        SoundfontWorkerStatus::Finished
                    } else {
                        SoundfontWorkerStatus::Error
                    },
                    ..old(self).workers()[id as int]
                }),
            ),
    {
        let status = if load_ok {
            SoundfontWorkerStatus::Finished
        } else {
            SoundfontWorkerStatus::Error
        };
        let updated = SoundfontWorker { status, allow: self.workers[id].allow };
        self.workers.set(id, updated);
    }

    /// Revokes every worker's permission: a load already in flight still
    /// completes, but its cache insertion is suppressed.
    pub fn cancel(&mut self)
        ensures
            final(self).workers().len() == old(self).workers().len(),
            forall|i: int| 0 <= i < old(self).workers().len() ==> #[trigger] final(self).workers()[i]
                == (SoundfontWorker { allow: false, ..old(self).workers()[i] }),
    {
        let mut i: usize = 0;
        while i < self.workers.len()
            invariant
                i <= self.workers@.len(),
                self.workers@.len() == old(self).workers().len(),
                forall|j: int| 0 <= j < i ==> #[trigger] self.workers@[j]
                    == (SoundfontWorker { allow: false, ..old(self).workers()[j] }),
                forall|j: int| i <= j < self.workers@.len() ==> #[trigger] self.workers@[j]
                    == old(self).workers()[j],
            decreases self.workers@.len() - i,
        {
            let updated = SoundfontWorker { status: self.workers[i].status, allow: false };
            self.workers.set(i, updated);
            i = i + 1;
        }
    }

    /// The pool's aggregate status. Finished workers are pruned; when any
    /// worker failed, the whole remainder is cancelled and Error returned.
    pub fn status(&mut self) -> (r: SoundfontWorkerStatus)
        ensures
            r == sf_pool_status(old(self).workers()),
            final(self).workers() == prune_finished(old(self).workers(), r is Error),
    {
        let mut kept: Vec<SoundfontWorker> = Vec::new();
        let mut has_error: bool = false;
        let mut i: usize = 0;
        while i < self.workers.len()
            invariant
                i <= self.workers@.len(),
                self.workers@ == old(self).workers(),
                kept@ == unfinished_workers(self.workers@.take(i as int)),
                has_error == exists|j: int| 0 <= j < i && old(self).workers()[j].status is Error,
            decreases self.workers@.len() - i,
        {
            proof {
                reveal(Seq::filter);
                assert(self.workers@.take(i as int + 1).drop_last() =~= self.workers@.take(i as int));
                assert(self.workers@.take(i as int + 1).last() == self.workers@[i as int]);
            }
            let w = self.workers[i];
            if !matches!(w.status, SoundfontWorkerStatus::Finished) {
                kept.push(w);
            }
            if matches!(w.status, SoundfontWorkerStatus::Error) {
                has_error = true;
            }
            i = i + 1;
        }
        proof {
            assert(self.workers@.take(self.workers@.len() as int) =~= self.workers@);
        }
        self.workers = kept;
        if has_error {
            self.cancel();
            proof {
                assert(self.workers() =~= prune_finished(old(self).workers(), true));
            }
            SoundfontWorkerStatus::Error
        } else {
            proof {
                assert(self.workers() =~= prune_finished(old(self).workers(), false));
                lemma_filter_no_loading(old(self).workers());
            }
            if self.workers.len() > 0 {
                SoundfontWorkerStatus::Loading
            } else {
                SoundfontWorkerStatus::Finished
            }
        }
    }
}

/// One cache entry: a soundfont path and the handle under which the loaded
/// bank is shared.
pub struct CacheEntry {
    pub path: String,
    pub handle: usize,
}

/// The mathematical value of a cache entry.
pub ghost struct CacheEntryView {
    pub path: Seq<char>,
    pub handle: int,
}

impl View for CacheEntry {
    type V = CacheEntryView;

    open spec fn view(&self) -> CacheEntryView {
        CacheEntryView { path: self.path@, handle: self.handle as int }
    }
}

/// Whether some entry carries the path.
pub open spec fn cache_contains_path(s: Seq<CacheEntryView>, p: Seq<char>) -> bool {
    exists|i: int| 0 <= i < s.len() && s[i].path == p
}

/// No two entries carry the same path.
pub open spec fn cache_paths_unique(s: Seq<CacheEntryView>) -> bool {
    forall|i: int, j: int| 0 <= i < j < s.len() ==> #[trigger] s[i].path != #[trigger] s[j].path
}

/// The handle of the first entry carrying the path, if any.
pub open spec fn cache_spec_lookup(s: Seq<CacheEntryView>, p: Seq<char>) -> Option<int>
    decreases s.len(),
{
    if s.len() == 0 {
        None
    } else if s[0].path == p {
        Some(s[0].handle)
    } else {
        cache_spec_lookup(s.drop_first(), p)
    }
}

proof fn lemma_cache_lookup_skip(s: Seq<CacheEntryView>, p: Seq<char>, i: int)
    requires
        0 <= i <= s.len(),
        forall|j: int| 0 <= j < i ==> #[trigger] s[j].path != p,
    ensures
        cache_spec_lookup(s, p) == cache_spec_lookup(s.skip(i), p),
    decreases i,
{
    if i > 0 {
        lemma_cache_lookup_skip(s, p, i - 1);
        assert(s.skip(i - 1)[0] == s[i - 1]);
        assert(s.skip(i - 1).len() > 0);
        assert(cache_spec_lookup(s.skip(i - 1), p) == cache_spec_lookup(
            s.skip(i - 1).drop_first(),
            p,
        ));
        assert(s.skip(i - 1).drop_first() =~= s.skip(i));
    } else {
        assert(s.skip(0) =~= s);
    }
}

/// The shared soundfont cache, keyed by path: at most one loaded bank per
/// distinct soundfont path.
pub struct SoundfontCache {
    entries: Vec<CacheEntry>,
}

impl SoundfontCache {
    /// The cache's entries.
    pub closed spec fn entries(&self) -> Seq<CacheEntryView> {
        self.entries@.map_values(|e: CacheEntry| e@)
    }

    /// The cache's invariant: one entry per path.
    pub open spec fn wf(&self) -> bool {
        cache_paths_unique(self.entries())
    }

    /// An empty cache.
    pub fn new() -> (r: Self)
        ensures
            r.wf(),
            r.entries().len() == 0,
    {
        SoundfontCache { entries: Vec::new() }
    }

    /// How many banks the cache holds.
    pub fn len(&self) -> (r: usize)
        ensures
            r == self.entries().len(),
    {
        self.entries.len()
    }

    /// Whether the cache already holds the path.
    pub fn contains_path(&self, path: &String) -> (r: bool)
        ensures
            r == cache_contains_path(self.entries(), path@),
    {
        let mut i: usize = 0;
        while i < self.entries.len()
            invariant
                i <= self.entries@.len(),
                forall|j: int| 0 <= j < i ==> #[trigger] self.entries()[j].path != path@,
            decreases self.entries@.len() - i,
        {
            if self.entries[i].path == *path {
                assert(self.entries()[i as int].path == path@);
                return true;
            }
            i = i + 1;
        }
        false
    }

    /// Inserts a loaded bank under a path not yet present; the cache keeps
    /// exactly one entry per path.
    pub fn insert(&mut self, path: String, handle: usize)
        requires
            old(self).wf(),
            !cache_contains_path(old(self).entries(), path@),
        ensures
            final(self).wf(),
            final(self).entries() == old(self).entries().push(
                (CacheEntryView { path: path@, handle: handle as int }),
            ),
    {
        let ghost p = path@;
        self.entries.push(CacheEntry { path, handle });
        proof {
            assert(self.entries() =~= old(self).entries().push(
                CacheEntryView { path: p, handle: handle as int },
            ));
        }
    }

    /// Finds the handle loaded for a path, if its bank made it into the
    /// cache.
    pub fn lookup(&self, path: &String) -> (r: Option<usize>)
        ensures
            r is None ==> cache_spec_lookup(self.entries(), path@) is None,
            r matches Some(h) ==> cache_spec_lookup(self.entries(), path@) == Some(h as int),
    {
        let mut i: usize = 0;
        while i < self.entries.len()
            invariant
                i <= self.entries@.len(),
                forall|j: int| 0 <= j < i ==> #[trigger] self.entries()[j].path != path@,
            decreases self.entries@.len() - i,
        {
            if self.entries[i].path == *path {
                proof {
                    lemma_cache_lookup_skip(self.entries(), path@, i as int);
                    assert(self.entries().skip(i as int)[0] == self.entries()[i as int]);
                }
                return Some(self.entries[i].handle);
            }
            i = i + 1;
        }
        proof {
            lemma_cache_lookup_skip(self.entries(), path@, self.entries@.len() as int);
            assert(self.entries().skip(self.entries@.len() as int).len() == 0);
        }
        None
    }
}

/// The handles a channel's ordered soundfont list resolves to: one handle
/// per reference whose bank made it into the cache, in list order;
/// references whose load failed are skipped.
pub open spec fn spec_resolve(items: Seq<SFItemView>, cache: Seq<CacheEntryView>) -> Seq<int>
    decreases items.len(),
{
    if items.len() == 0 {
        Seq::empty()
    } else {
        spec_resolve(items.drop_last(), cache) + (match cache_spec_lookup(
            cache,
            items.last().path,
        ) {
            Some(h) => seq![h],
            None => Seq::empty(),
        })
    }
}

/// Resolves a channel's ordered soundfont references against the cache,
/// skipping entries whose bank never loaded.
pub fn resolve_soundfonts(list: &Vec<ForteSFListItem>, cache: &SoundfontCache) -> (r: Vec<usize>)
    ensures
        r@.map_values(|h: usize| h as int) == spec_resolve(sf_items_view(list@), cache.entries()),
{
    let ghost items = sf_items_view(list@);
    let mut out: Vec<usize> = Vec::new();
    let mut i: usize = 0;
    while i < list.len()
        invariant
            i <= list@.len(),
            items == sf_items_view(list@),
            out@.map_values(|h: usize| h as int) == spec_resolve(
                items.take(i as int),
                cache.entries(),
            ),
        decreases list@.len() - i,
    {
        proof {
            assert(items.take(i as int + 1).drop_last() =~= items.take(i as int));
            assert(items.take(i as int + 1).last() == items[i as int]);
        }
        match cache.lookup(&list[i].path) {
            Some(h) => {
                out.push(h);
                proof {
                    assert(items[i as int].path == list@[i as int]@.path);
                    assert(out@.map_values(|h: usize| h as int) =~= spec_resolve(
                        items.take(i as int + 1),
                        cache.entries(),
                    ));
                }
            },
            None => {
                proof {
                    assert(items[i as int].path == list@[i as int]@.path);
                    assert(out@.map_values(|h: usize| h as int) =~= spec_resolve(
                        items.take(i as int + 1),
                        cache.entries(),
                    ));
                }
            },
        }
        i = i + 1;
    }
    proof {
        assert(items.take(list@.len() as int) =~= items);
    }
    out
}

/// Law: in a well-formed cache a path names one entry only: any two entries
/// carrying it coincide, and every lookup of it answers that entry's handle.
pub proof fn lemma_cache_entry_unique(s: Seq<CacheEntryView>, p: Seq<char>, i: int, j: int)
    requires
        cache_paths_unique(s),
        0 <= i < s.len(),
        0 <= j < s.len(),
        s[i].path == p,
        s[j].path == p,
    ensures
        i == j,
        cache_spec_lookup(s, p) == Some(s[i].handle),
    decreases s.len(),
{
    if i != j {
        if i < j {
            assert(s[i].path != s[j].path);
        } else {
            assert(s[j].path != s[i].path);
        }
    }
    if i == 0 {
    } else {
        assert(s[0].path != p);
        let t = s.drop_first();
        assert(forall|a: int, b: int| 0 <= a < b < t.len() ==> #[trigger] t[a].path != #[trigger] t[b].path)
            by {
            assert(forall|a: int| 0 <= a < t.len() ==> #[trigger] t[a] == s[a + 1]);
        }
        assert(t[i - 1] == s[i]);
        lemma_cache_entry_unique(t, p, i - 1, i - 1);
    }
}

/// When no worker errored, what remains after pruning is exactly the
/// loading workers: the pruned pool is empty iff none is still loading.
proof fn lemma_filter_no_loading(s: Seq<SoundfontWorker>)
    requires
        forall|i: int| 0 <= i < s.len() ==> !(#[trigger] s[i].status is Error),
    ensures
        (unfinished_workers(s).len() == 0) == !(exists|i: int|
            0 <= i < s.len() && s[i].status is Loading),
    decreases s.len(),
{
    reveal(Seq::filter);
    if s.len() > 0 {
        let dl = s.drop_last();
        lemma_filter_no_loading(dl);
        assert(forall|i: int| 0 <= i < s.len() - 1 ==> #[trigger] dl[i] == s[i]);
        if s.last().status is Loading {
            assert(s[s.len() - 1].status is Loading);
            assert(unfinished_workers(s) == unfinished_workers(dl).push(s.last()));
        } else {
            assert(s.last().status is Finished);
            assert(unfinished_workers(s) == unfinished_workers(dl));
            if exists|i: int| 0 <= i < s.len() && s[i].status is Loading {
                let i = choose|i: int| 0 <= i < s.len() && s[i].status is Loading;
                assert(i < s.len() - 1);
                assert(dl[i].status is Loading);
            }
        }
    }
}

} // verus!
