//! Error taxonomy: list-building failures and render-time failures.

use vstd::prelude::*;
use vstd::string::StringExecFns;

verus! {

/// Why a file could not be added to an input list.
#[derive(Debug)]
pub enum FileLoadError {
    InvalidFormat,
    FileNotFound,
    Corrupt(String),
}

/// Why a MIDI source could not be opened, as the loader reports it.
#[derive(Debug)]
pub enum MIDILoadErrorKind {
    CorruptChunks,
    FilesystemError(String),
    FileTooBig,
}

/// A render-time failure: opening the source, driving the synthesizer,
/// or constructing and feeding the audio writer.
#[derive(Debug)]
pub enum MIDIRendererError {
    Load(MIDILoadErrorKind),
    Renderer(String),
    Writer(String),
}

impl FileLoadError {
    /// A short human-readable description of the failure.
    pub fn message(&self) -> (r: String)
        ensures
            self is InvalidFormat ==> r@ == "Invalid File Format"@,
            self is FileNotFound ==> r@ == "File Not Found"@,
            self matches FileLoadError::Corrupt(d) ==> r@ == "File Corrupt: "@ + d@,
    {
        match self {
            FileLoadError::InvalidFormat => "Invalid File Format".to_owned(),
            FileLoadError::FileNotFound => "File Not Found".to_owned(),
            FileLoadError::Corrupt(detail) => "File Corrupt: ".to_owned().concat(detail.as_str()),
        }
    }
}

impl MIDIRendererError {
    /// A short human-readable description of the failure.
    pub fn message(&self) -> (r: String)
        ensures
            self matches MIDIRendererError::Load(k) ==> {
                &&& k is CorruptChunks ==> r@ == "MIDI Load Error: Corrupt Chunks"@
                &&& k is FileTooBig ==> r@ == "MIDI Load Error: File Too Big"@
                &&& k matches MIDILoadErrorKind::FilesystemError(d)
                    ==> r@ == "MIDI Load Error: Filesystem Error: "@ + d@
            },
            self matches MIDIRendererError::Renderer(d) ==> r@ == "Renderer Error: "@ + d@,
            self matches MIDIRendererError::Writer(d) ==> r@ == "Writer Error: "@ + d@,
    {
        match self {
            MIDIRendererError::Load(kind) => match kind {
                MIDILoadErrorKind::CorruptChunks => "MIDI Load Error: Corrupt Chunks".to_owned(),
                MIDILoadErrorKind::FilesystemError(fs) => {
                    "MIDI Load Error: Filesystem Error: ".to_owned().concat(fs.as_str())
                },
                MIDILoadErrorKind::FileTooBig => "MIDI Load Error: File Too Big".to_owned(),
            },
            MIDIRendererError::Renderer(detail) => {
                "Renderer Error: ".to_owned().concat(detail.as_str())
            },
            MIDIRendererError::Writer(detail) => "Writer Error: ".to_owned().concat(detail.as_str()),
        }
    }
}

} // verus!
