//! The MIDI input list's logic: what a file must pass to enter the list,
//! how a loader failure reads as a list error, and the aggregate progress
//! fraction the interface shows across all running jobs.

use vstd::prelude::*;
use vstd::string::StringExecFns;
use vstd::arithmetic::div_mod::{lemma_div_is_ordered, lemma_div_multiples_vanish};
use crate::errors::{FileLoadError, MIDILoadErrorKind};
use crate::midi_pool::RenderStats;

verus! {

/// One entry of the MIDI input list; the length is the file's computed
/// play time in microseconds.
pub struct ForteListItem {
    pub selected: bool,
    pub path: String,
    pub filesize: u64,
    pub length_micros: u64,
    pub note_count: u64,
    pub context_menu_visible: bool,
    pub stats_visible: bool,
}

/// How a MIDI loader failure reads as a list error: every kind is a
/// corrupt-file report with its own wording.
pub fn map_midi_load_error(e: MIDILoadErrorKind) -> (r: FileLoadError)
    ensures
        e is CorruptChunks ==> (r matches FileLoadError::Corrupt(d) && d@ == "Corrupt chunks"@),
        e matches MIDILoadErrorKind::FilesystemError(fs) ==> (r matches FileLoadError::Corrupt(d)
            && d@ == "Filesystem error: "@ + fs@),
        e is FileTooBig ==> (r matches FileLoadError::Corrupt(d) && d@ == "MIDI file too big"@),
{
    match e {
        MIDILoadErrorKind::CorruptChunks => FileLoadError::Corrupt("Corrupt chunks".to_owned()),
        MIDILoadErrorKind::FilesystemError(fs) => {
            FileLoadError::Corrupt("Filesystem error: ".to_owned().concat(fs.as_str()))
        },
        MIDILoadErrorKind::FileTooBig => FileLoadError::Corrupt("MIDI file too big".to_owned()),
    }
}

/// Decides whether a selected MIDI file may enter the list, from what the
/// file system and the loader reported: a missing file is `FileNotFound`,
/// a non-`mid` extension is `InvalidFormat`, a loader failure is the
/// corresponding corrupt-file report, and anything else is accepted.
pub fn validate_midi_file(
    exists: bool,
    extension: Option<String>,
    load_error: Option<MIDILoadErrorKind>,
) -> (r: Result<(), FileLoadError>)
    ensures
        !exists ==> (r matches Err(e) && e is FileNotFound),
        exists && extension is None ==> (r matches Err(e) && e is InvalidFormat),
        extension matches Some(ext) ==> {
            &&& exists && ext@ != "mid"@ ==> (r matches Err(e) && e is InvalidFormat)
            &&& exists && ext@ == "mid"@ ==> {
                &&& load_error matches Some(le)
                    ==> (r matches Err(e) && e is Corrupt)
                &&& load_error is None ==> r is Ok
            }
        },
{
    if !exists {
        return Err(FileLoadError::FileNotFound);
    }
    match extension {
        None => Err(FileLoadError::InvalidFormat),
        Some(ext) => {
            let mid = "mid".to_owned();
            if ext == mid {
                match load_error {
                    Some(le) => Err(map_midi_load_error(le)),
                    None => Ok(()),
                }
            } else {
                Err(FileLoadError::InvalidFormat)
            }
        },
    }
}

/// One job's progress in millionths: elapsed render time over the file's
/// play time for a started job, zero for one without statistics.
pub open spec fn spec_ratio_ppm(s: Option<RenderStats>, length_micros: u64) -> int {
    match s {
        Some(st) => st.time_micros * 1_000_000 / (length_micros as int),
        None => 0,
    }
}

/// The sum of the first `n` jobs' progress ratios.
pub open spec fn sum_ratios_ppm(
    stats: Seq<Option<RenderStats>>,
    lengths: Seq<u64>,
    n: int,
) -> int
    decreases n,
{
    if n <= 0 {
        0
    } else {
        sum_ratios_ppm(stats, lengths, n - 1) + spec_ratio_ppm(stats[n - 1], lengths[n - 1])
    }
}

/// The aggregate progress across all jobs, in millionths: the mean of the
/// per-job time/length ratios. Undefined for an empty list, so one is
/// refused.
pub fn total_progress_ppm(stats: &Vec<Option<RenderStats>>, lengths: &Vec<u64>) -> (r: u64)
    requires
        stats@.len() == lengths@.len(),
        stats@.len() > 0,
        forall|i: int| 0 <= i < lengths@.len() ==> #[trigger] lengths@[i] > 0,
        forall|i: int| 0 <= i < stats@.len() ==> (#[trigger] stats@[i] matches Some(st)
            ==> st.time_micros * 1_000_000 <= u64::MAX),
    ensures
        r == sum_ratios_ppm(stats@, lengths@, stats@.len() as int) / (stats@.len() as int),
{
    let mut acc: u128 = 0;
    let mut i: usize = 0;
    while i < stats.len()
        invariant
            stats@.len() == lengths@.len(),
            i <= stats@.len(),
            forall|j: int| 0 <= j < lengths@.len() ==> #[trigger] lengths@[j] > 0,
            forall|j: int| 0 <= j < stats@.len() ==> (#[trigger] stats@[j] matches Some(st)
                ==> st.time_micros * 1_000_000 <= u64::MAX),
            acc == sum_ratios_ppm(stats@, lengths@, i as int),
            acc <= i * (u64::MAX as int),
        decreases stats@.len() - i,
    {
        let ratio: u64 = match stats[i] {
            Some(st) => {
                let num: u64 = st.time_micros * 1_000_000;
                num / lengths[i]
            },
            None => 0,
        };
        proof {
            assert(ratio <= u64::MAX);
            assert((i + 1) * (u64::MAX as int) == i * (u64::MAX as int) + u64::MAX)
                by (nonlinear_arith);
        }
        acc = acc + ratio as u128;
        i = i + 1;
    }
    let n = stats.len();
    proof {
        lemma_div_multiples_vanish(u64::MAX as int, n as int);
        lemma_div_is_ordered(acc as int, n as int * u64::MAX, n as int);
        assert(n as int * u64::MAX == u64::MAX * n as int) by (nonlinear_arith);
        assert(acc as int / (n as int) <= u64::MAX);
    }
    (acc / (n as u128)) as u64
}

} // verus!
