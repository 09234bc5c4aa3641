//! The settings read from `~/.config/bw-tui/config.json`.
use vstd::prelude::*;
use crate::model::GenerateOptions;
use crate::text::to_string;

verus! {

/// The settings of the program. A key missing from the file keeps its
/// default.
#[derive(Debug, Clone)]
pub struct Config {
    /// How to call the Bitwarden client (may hold arguments).
    pub bw_cmd: String,
    /// How long a cached session stays valid, in seconds.
    pub session_max_age_secs: u64,
    /// How long a copied secret stays on the clipboard, in seconds.
    pub clipboard_clear_secs: u64,
    /// The generator's starting options.
    pub generator: GenerateOptions,
}

impl Config {
    /// The defaults: `bw`, a 30-minute session, a 9-second clipboard and the
    /// default generator options.
    pub open spec fn is_default(&self) -> bool {
        &&& self.bw_cmd@ == "bw"@
        &&& self.session_max_age_secs == 1800
        &&& self.clipboard_clear_secs == 9
        &&& self.generator == GenerateOptions::default_spec()
    }
}

impl Default for Config {
    fn default() -> (r: Self)
        ensures
            r.is_default(),
    {
        Config {
            bw_cmd: to_string("bw"),
            session_max_age_secs: 1800,
            clipboard_clear_secs: 9,
            generator: GenerateOptions::default(),
        }
    }
}

} // verus!
