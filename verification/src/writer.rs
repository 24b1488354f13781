//! Codec writer configuration: which encoder a batch's settings select,
//! the parameters each encoder is constructed with, the output file's
//! name, and the planar split stereo encoders need.

use vstd::prelude::*;
use vstd::string::{StringExecFns, StrSliceExecFns};
use crate::settings::{OutputAudioFormat, PCMSampleFormat, RenderSettings};

verus! {

/// The sample rates the settings page offers; the first is also the floor
/// the Vorbis encoder is given.
pub const COMMON_SAMPLE_RATES: [u32; 12] = [
    8_000, 11_025, 16_000, 22_050, 44_100, 48_000, 82_200, 96_000, 176_400, 192_000, 352_800,
    384_000,
];

/// The bitrates the settings page offers for Vorbis and MP3.
pub const COMMON_BITRATES: [u32; 8] = [
    64_000, 80_000, 96_000, 128_000, 160_000, 192_000, 256_000, 320_000,
];

/// How WAV samples are encoded.
#[derive(Clone, Copy, PartialEq, Eq, Structural, Debug)]
pub enum WavSampleKind {
    Int,
    Float,
}

/// The WAV header fields a PCM sample format selects: 16-bit integer
/// samples or 32-bit float samples.
pub fn pcm_spec_params(format: PCMSampleFormat) -> (r: (u16, WavSampleKind))
    ensures
        format is Int16 ==> r == (16u16, WavSampleKind::Int),
        format is Float32 ==> r == (32u16, WavSampleKind::Float),
{
    match format {
        PCMSampleFormat::Int16 => (16, WavSampleKind::Int),
        PCMSampleFormat::Float32 => (32, WavSampleKind::Float),
    }
}

/// The parameters the Vorbis encoder is constructed with: the sample rate
/// floored to the lowest offered rate, and never fewer than two channels.
/// Both are positive, so the encoder's nonzero arguments exist.
pub fn vorbis_params(sample_rate: u32, channels: u16) -> (r: (u32, u8))
    requires
        channels <= 2,
    ensures
        r.0 == (if sample_rate >= 8000 { sample_rate as int } else { 8000int }),
        r.1 == (if channels >= 2 { channels as int } else { 2int }),
        r.0 > 0,
        r.1 >= 2,
{
    let rate = if sample_rate >= COMMON_SAMPLE_RATES[0] {
        sample_rate
    } else {
        COMMON_SAMPLE_RATES[0]
    };
    let ch: u8 = if channels >= 2 {
        channels as u8
    } else {
        2
    };
    (rate, ch)
}

/// The fixed MP3 bitrates the encoder accepts.
#[derive(Clone, Copy, PartialEq, Eq, Structural, Debug)]
pub enum LameBitrate {
    Kbps64,
    Kbps80,
    Kbps96,
    Kbps128,
    Kbps160,
    Kbps192,
    Kbps256,
    Kbps320,
}

/// Which fixed bitrate a requested bitrate selects: the matching step, or
/// 192 kbps for anything the encoder does not offer.
pub fn get_bitrate(bitrate: u32) -> (r: LameBitrate)
    ensures
        bitrate / 1000 == 64 ==> r is Kbps64,
        bitrate / 1000 == 80 ==> r is Kbps80,
        bitrate / 1000 == 96 ==> r is Kbps96,
        bitrate / 1000 == 128 ==> r is Kbps128,
        bitrate / 1000 == 160 ==> r is Kbps160,
        bitrate / 1000 == 192 ==> r is Kbps192,
        bitrate / 1000 == 256 ==> r is Kbps256,
        bitrate / 1000 == 320 ==> r is Kbps320,
        !(bitrate / 1000 == 64 || bitrate / 1000 == 80 || bitrate / 1000 == 96 || bitrate / 1000
            == 128 || bitrate / 1000 == 160 || bitrate / 1000 == 192 || bitrate / 1000 == 256
            || bitrate / 1000 == 320) ==> r is Kbps192,
{
    match bitrate / 1000 {
        64 => LameBitrate::Kbps64,
        80 => LameBitrate::Kbps80,
        96 => LameBitrate::Kbps96,
        128 => LameBitrate::Kbps128,
        160 => LameBitrate::Kbps160,
        192 => LameBitrate::Kbps192,
        256 => LameBitrate::Kbps256,
        320 => LameBitrate::Kbps320,
        _ => LameBitrate::Kbps192,
    }
}

/// The extension an output format writes under.
pub open spec fn spec_extension(format: OutputAudioFormat) -> Seq<char> {
    match format {
        OutputAudioFormat::Pcm { .. } => ".wav"@,
        OutputAudioFormat::Vorbis { .. } => ".ogg"@,
        OutputAudioFormat::Lame { .. } => ".mp3"@,
    }
}

/// The position of the last dot that splits off an extension: the last
/// dot beyond the name's first character, or none — a leading dot, as in
/// a hidden file's name, starts no extension.
pub open spec fn spec_last_dot(name: Seq<char>) -> int
    decreases name.len(),
{
    if name.len() == 0 {
        -1
    } else if name.last() == '.' && name.len() > 1 {
        name.len() - 1
    } else {
        spec_last_dot(name.drop_last())
    }
}

/// A file name's stem: everything before the extension dot, or the whole
/// name when it has no extension.
pub open spec fn spec_file_stem(name: Seq<char>) -> Seq<char> {
    if spec_last_dot(name) > 0 {
        name.take(spec_last_dot(name))
    } else {
        name
    }
}

proof fn lemma_last_dot_at(name: Seq<char>, d: int)
    requires
        0 < d < name.len(),
        name[d] == '.',
        forall|j: int| d < j < name.len() ==> name[j] != '.',
    ensures
        spec_last_dot(name) == d,
    decreases name.len(),
{
    if d == name.len() - 1 {
    } else {
        assert(name.last() != '.');
        assert(forall|j: int| 0 <= j < name.len() - 1 ==> #[trigger] name.drop_last()[j]
            == name[j]);
        lemma_last_dot_at(name.drop_last(), d);
    }
}

proof fn lemma_no_dot(name: Seq<char>)
    requires
        forall|j: int| 0 < j < name.len() ==> name[j] != '.',
    ensures
        spec_last_dot(name) <= 0,
    decreases name.len(),
{
    if name.len() > 1 {
        assert(name.last() != '.');
        assert(forall|j: int| 0 <= j < name.len() - 1 ==> #[trigger] name.drop_last()[j]
            == name[j]);
        lemma_no_dot(name.drop_last());
    } else if name.len() == 1 {
        lemma_no_dot(name.drop_last());
    }
}

/// The output file's name: the input file's stem with the format's
/// extension appended.
pub fn output_filename(filename: String, format: OutputAudioFormat) -> (r: String)
    ensures
        r@ == spec_file_stem(filename@) + spec_extension(format),
{
    let name = filename.as_str();
    let n = name.unicode_len();
    let mut last_dot: Option<usize> = None;
    let mut i: usize = if n == 0 {
        0
    } else {
        1
    };
    while i < n
        invariant
            i <= n,
            n > 0 ==> i >= 1,
            n == name@.len(),
            last_dot matches Some(d) ==> 0 < d < i && name@[d as int] == '.' && forall|j: int|
                d < j < i ==> name@[j] != '.',
            last_dot is None ==> forall|j: int| 0 < j < i ==> name@[j] != '.',
        decreases n - i,
    {
        if name.get_char(i) == '.' {
            last_dot = Some(i);
        }
        i = i + 1;
    }
    let stem = match last_dot {
        Some(d) => {
            proof {
                lemma_last_dot_at(name@, d as int);
            }
            name.substring_char(0, d).to_owned()
        },
        None => {
            proof {
                lemma_no_dot(name@);
                assert(name@.subrange(0, n as int) =~= name@);
            }
            name.substring_char(0, n).to_owned()
        },
    };
    match format {
        OutputAudioFormat::Pcm { .. } => stem.concat(".wav"),
        OutputAudioFormat::Vorbis { .. } => stem.concat(".ogg"),
        OutputAudioFormat::Lame { .. } => stem.concat(".mp3"),
    }
}

/// The encoder a writer plan constructs, with the parameters its format
/// calls for.
#[derive(Clone, Copy, PartialEq, Eq, Structural, Debug)]
pub enum WriterKind {
    Pcm { bits_per_sample: u16, sample_kind: WavSampleKind },
    Vorbis { sample_rate: u32, channels: u8, bitrate: u32 },
    Lame { bitrate: LameBitrate },
}

/// Everything the writer thread needs to construct its encoder: the output
/// file name, the stream's shape, and the format-specific parameters.
pub struct WriterPlan {
    pub filename: String,
    pub channels: u16,
    pub sample_rate: u32,
    pub kind: WriterKind,
}

/// Turns the batch settings and an input file's name into a writer plan:
/// the name gains the format's extension, and the encoder parameters are
/// derived exactly as each encoder requires.
pub fn plan_writer(settings: &RenderSettings, filename: String) -> (r: WriterPlan)
    ensures
        r.filename@ == spec_file_stem(filename@) + spec_extension(settings.audio_format),
        r.sample_rate == settings.sample_rate,
        settings.audio_channels is Mono ==> r.channels == 1,
        settings.audio_channels is Stereo ==> r.channels == 2,
        settings.audio_format matches OutputAudioFormat::Pcm { format } ==> (r.kind
            matches WriterKind::Pcm { bits_per_sample, sample_kind } && (format is Int16 ==> (
        bits_per_sample, sample_kind) == (16u16, WavSampleKind::Int)) && (format is Float32 ==> (
        bits_per_sample, sample_kind) == (32u16, WavSampleKind::Float))),
        settings.audio_format matches OutputAudioFormat::Vorbis { bitrate } ==> (r.kind
            matches WriterKind::Vorbis { sample_rate, channels, bitrate: b } && b == bitrate
            && sample_rate == (if settings.sample_rate >= 8000 {
            settings.sample_rate as int
        } else {
            8000int
        }) && channels >= 2),
        settings.audio_format matches OutputAudioFormat::Lame { bitrate } ==> (r.kind
            matches WriterKind::Lame { bitrate: b } && {
            let kbps = bitrate / 1000;
            &&& kbps == 64 ==> b is Kbps64
            &&& kbps == 80 ==> b is Kbps80
            &&& kbps == 96 ==> b is Kbps96
            &&& kbps == 128 ==> b is Kbps128
            &&& kbps == 160 ==> b is Kbps160
            &&& kbps == 192 ==> b is Kbps192
            &&& kbps == 256 ==> b is Kbps256
            &&& kbps == 320 ==> b is Kbps320
            &&& !(kbps == 64 || kbps == 80 || kbps == 96 || kbps == 128 || kbps == 160 || kbps
                == 192 || kbps == 256 || kbps == 320) ==> b is Kbps192
        }),
{
    let channels = settings.audio_channels.count();
    let filename = output_filename(filename, settings.audio_format);
    let kind = match settings.audio_format {
        OutputAudioFormat::Pcm { format } => {
            let (bits_per_sample, sample_kind) = pcm_spec_params(format);
            WriterKind::Pcm { bits_per_sample, sample_kind }
        },
        OutputAudioFormat::Vorbis { bitrate } => {
            let (sample_rate, vorbis_channels) = vorbis_params(settings.sample_rate, channels);
            WriterKind::Vorbis { sample_rate, channels: vorbis_channels, bitrate }
        },
        OutputAudioFormat::Lame { bitrate } => {
            WriterKind::Lame { bitrate: get_bitrate(bitrate) }
        },
    };
    WriterPlan { filename, channels, sample_rate: settings.sample_rate, kind }
}

/// De-interleaves a stereo block into its left and right channels: the
/// left signal takes the even-indexed samples, the right the odd-indexed
/// ones, each in order.
pub fn split_stereo<T: Copy>(vec: &[T]) -> (r: (Vec<T>, Vec<T>))
    ensures
        r.0@.len() == (vec@.len() + 1) / 2,
        r.1@.len() == vec@.len() / 2,
        forall|j: int| 0 <= j < r.0@.len() ==> #[trigger] r.0@[j] == vec@[2 * j],
        forall|j: int| 0 <= j < r.1@.len() ==> #[trigger] r.1@[j] == vec@[2 * j + 1],
{
    let mut left: Vec<T> = Vec::new();
    let mut right: Vec<T> = Vec::new();
    let mut i: usize = 0;
    while i < vec.len()
        invariant
            i <= vec@.len(),
            left@.len() == (i + 1) / 2,
            right@.len() == i / 2,
            forall|j: int| 0 <= j < left@.len() ==> #[trigger] left@[j] == vec@[2 * j],
            forall|j: int| 0 <= j < right@.len() ==> #[trigger] right@[j] == vec@[2 * j + 1],
        decreases vec@.len() - i,
    {
        if i % 2 == 0 {
            proof {
                assert(i == 2 * (i as int / 2)) by {
                    vstd::arithmetic::div_mod::lemma_fundamental_div_mod(i as int, 2);
                };
            }
            left.push(vec[i]);
        } else {
            proof {
                assert(i == 2 * (i as int / 2) + 1) by {
                    vstd::arithmetic::div_mod::lemma_fundamental_div_mod(i as int, 2);
                };
            }
            right.push(vec[i]);
        }
        i = i + 1;
    }
    (left, right)
}

} // verus!
