//! The settings of a run.

use vstd::prelude::*;

verus! {

/// The path that records are written to when the settings name no other.
pub const DEFAULT_OUTPUT: &'static str = "out.csv";

/// The number of years that the query looks back when the settings name no
/// other.
pub const DEFAULT_YEARS: usize = 3;

/// The settings of a run.
#[derive(Clone, Debug, PartialEq, Eq)]
pub struct Config {
    /// Whether the run reports each request.
    pub debug: bool,
    /// How many years before the present the cutoff of the query lies.
    pub num_years_previous: usize,
    /// Where the records are written; nowhere if absent.
    pub csv: Option<String>,
}

impl Default for Config {
    fn default() -> (config: Config)
        ensures
            !config.debug,
            config.num_years_previous == DEFAULT_YEARS,
            config.csv.deep_view() == Some(DEFAULT_OUTPUT@),
    {
        Config {
            debug: false,
            num_years_previous: DEFAULT_YEARS,
            csv: Some(String::from_str(DEFAULT_OUTPUT)),
        }
    }
}

} // verus!
