//! Soundfont list entries: the per-use options a channel attaches to a
//! soundfont path, and the checks a file must pass before it enters the list.

use vstd::prelude::*;
use crate::errors::FileLoadError;

verus! {

/// The soundfont formats the list accepts.
#[derive(Clone, Copy, PartialEq, Eq, Structural, Debug)]
pub enum SFFormat {
    Sfz,
}

impl Default for SFFormat {
    fn default() -> (r: Self)
        ensures
            r is Sfz,
    {
        SFFormat::Sfz
    }
}

/// The sample interpolation methods the synthesizer offers.
#[derive(Clone, Copy, PartialEq, Eq, Structural, Debug)]
pub enum InterpolatorDef {
    Nearest,
    Linear,
}

/// Per-use soundfont options: bank/preset override, release shape, effects,
/// and interpolation method.
#[derive(Clone, Copy, PartialEq, Eq, Debug)]
pub struct SoundfontInitOptionsDef {
    pub bank: Option<u8>,
    pub preset: Option<u8>,
    pub linear_release: bool,
    pub use_effects: bool,
    pub interpolator: InterpolatorDef,
}

impl Default for SoundfontInitOptionsDef {
    fn default() -> (r: Self)
        ensures
            r.bank is None,
            r.preset is None,
            !r.linear_release,
            r.use_effects,
            r.interpolator is Nearest,
    {
        SoundfontInitOptionsDef {
            bank: None,
            preset: None,
            linear_release: false,
            use_effects: true,
            interpolator: InterpolatorDef::Nearest,
        }
    }
}

/// One soundfont list entry. Its identity within a render batch is its path.
pub struct ForteSFListItem {
    pub id: usize,
    pub enabled: bool,
    pub selected: bool,
    pub format: SFFormat,
    pub path: String,
    pub init: SoundfontInitOptionsDef,
}

/// The mathematical value of a soundfont list entry.
pub ghost struct SFItemView {
    pub id: int,
    pub enabled: bool,
    pub selected: bool,
    pub format: SFFormat,
    pub path: Seq<char>,
    pub init: SoundfontInitOptionsDef,
}

impl View for ForteSFListItem {
    type V = SFItemView;

    open spec fn view(&self) -> SFItemView {
        SFItemView {
            id: self.id as int,
            enabled: self.enabled,
            selected: self.selected,
            format: self.format,
            path: self.path@,
            init: self.init,
        }
    }
}

/// The values of a sequence of soundfont list entries.
pub open spec fn sf_items_view(items: Seq<ForteSFListItem>) -> Seq<SFItemView> {
    items.map_values(|it: ForteSFListItem| it@)
}

impl ForteSFListItem {
    /// A field-for-field copy of the entry.
    pub fn duplicate(&self) -> (r: Self)
        ensures
            r@ == self@,
    {
        ForteSFListItem {
            id: self.id,
            enabled: self.enabled,
            selected: self.selected,
            format: self.format,
            path: self.path.clone(),
            init: self.init,
        }
    }
}

/// A field-for-field copy of a list of entries.
pub fn duplicate_sf_items(items: &Vec<ForteSFListItem>) -> (r: Vec<ForteSFListItem>)
    ensures
        sf_items_view(r@) == sf_items_view(items@),
{
    let mut out: Vec<ForteSFListItem> = Vec::new();
    let mut i: usize = 0;
    while i < items.len()
        invariant
            i <= items@.len(),
            out@.len() == i,
            forall|j: int| 0 <= j < i ==> #[trigger] out@[j]@ == items@[j]@,
        decreases items@.len() - i,
    {
        out.push(items[i].duplicate());
        i = i + 1;
    }
    proof {
        assert(sf_items_view(out@) =~= sf_items_view(items@));
    }
    out
}

/// The entry a freshly accepted soundfont file gets: enabled, unselected,
/// with bank and preset pinned to zero and linear interpolation.
pub fn build_soundfont_item(id: usize, path: String) -> (r: ForteSFListItem)
    ensures
        r.id == id,
        r.enabled,
        !r.selected,
        r.format is Sfz,
        r.path@ == path@,
        r.init.bank == Some(0u8),
        r.init.preset == Some(0u8),
        r.init.interpolator is Linear,
        !r.init.linear_release,
        r.init.use_effects,
{
    ForteSFListItem {
        id,
        enabled: true,
        selected: false,
        format: SFFormat::Sfz,
        path,
        init: SoundfontInitOptionsDef {
            bank: Some(0),
            preset: Some(0),
            linear_release: false,
            use_effects: true,
            interpolator: InterpolatorDef::Linear,
        },
    }
}

/// Decides whether a selected soundfont file may enter the list, from what
/// the file system and the format check reported: a missing file is
/// `FileNotFound`, a non-`sfz` extension is `InvalidFormat`, a failed
/// integrity parse is `Corrupt` with the parser's detail, and anything else
/// is accepted.
pub fn validate_soundfont_file(
    exists: bool,
    extension: Option<String>,
    parse_error: Option<String>,
) -> (r: Result<(), FileLoadError>)
    ensures
        !exists ==> (r matches Err(e) && e is FileNotFound),
        exists && extension is None ==> (r matches Err(e) && e is InvalidFormat),
        extension matches Some(ext) ==> {
            &&& exists && ext@ != "sfz"@ ==> (r matches Err(e) && e is InvalidFormat)
            &&& exists && ext@ == "sfz"@ ==> {
                &&& parse_error matches Some(d)
                    ==> (r matches Err(e) && e matches FileLoadError::Corrupt(c) && c@ == d@)
                &&& parse_error is None ==> r is Ok
            }
        },
{
    if !exists {
        return Err(FileLoadError::FileNotFound);
    }
    match extension {
        None => Err(FileLoadError::InvalidFormat),
        Some(ext) => {
            let sfz = "sfz".to_owned();
            if ext == sfz {
                match parse_error {
                    Some(detail) => Err(FileLoadError::Corrupt(detail)),
                    None => Ok(()),
                }
            } else {
                Err(FileLoadError::InvalidFormat)
            }
        },
    }
}

} // verus!
