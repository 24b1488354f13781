//! Interface-level selector enums: the active tab and the scope a synth
//! configuration page applies to.

use vstd::prelude::*;

verus! {

/// Which top-level page is active.
#[derive(Clone, Copy, PartialEq, Eq, Structural, Debug)]
pub enum ForteTab {
    Render,
    Synth,
    About,
}

impl Default for ForteTab {
    fn default() -> (r: Self)
        ensures
            r is Synth,
    {
        ForteTab::Synth
    }
}

/// Whether a configuration page applies to all channels at once or to each
/// channel individually.
#[derive(Clone, Copy, PartialEq, Eq, Structural, Debug)]
pub enum SynthCfgType {
    Global,
    PerChannel,
}

impl Default for SynthCfgType {
    fn default() -> (r: Self)
        ensures
            r is Global,
    {
        SynthCfgType::Global
    }
}

} // verus!
