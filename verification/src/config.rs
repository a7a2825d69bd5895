//! What a run is told: the wording it looks for, the centers it visits and
//! the pauses it keeps.

use vstd::prelude::*;
use vstd::string::StringExecFns;
use crate::filter::{EXCLUDED_BRAND, FIRST_DOSE_MARKER};

verus! {

/// The pause after each slot search, in milliseconds.
pub const PLACE_PAUSE_MS: u64 = 100;

/// The pause after each center, in milliseconds.
pub const CENTER_PAUSE_MS: u64 = 100;

/// The settings of a run.
#[derive(Debug, Clone, PartialEq, Eq)]
pub struct Config {
    /// A motive counts only if its name holds this text.
    pub marker_substring: String,
    /// A motive whose name holds this text is left out.
    pub excluded_substring: String,
    /// The identifiers of the centers, in the order in which they are visited.
    pub centers: Vec<String>,
    /// The pause after each slot search, in milliseconds.
    pub place_pause_ms: u64,
    /// The pause after each center, in milliseconds.
    pub center_pause_ms: u64,
    /// Whether the steps that found nothing are reported too.
    pub verbose: bool,
}

/// The texts of a list of strings.
pub open spec fn texts_of(names: Seq<String>) -> Seq<Seq<char>> {
    names.map_values(|s: String| s@)
}

/// The centers of the standard settings, in the order of their visit.
pub open spec fn standard_centers() -> Seq<Seq<char>> {
    seq![
        "centre-de-vaccination-covid-19-ville-de-paris"@,
        "centre-covid19-paris-5"@,
        "centre-de-vaccination-covid-19-mairie-du-6eme-arrondissement-de-paris"@,
        "centre-de-vaccination-mairie-du-7eme-paris"@,
        "centre-de-vaccination-covid-19-paris-8e"@,
        "centre-de-vaccination-covid-mairie-du-9eme-arrondissement"@,
        "centre-de-vaccination-paris-14e"@,
        "centre-de-vaccination-covid-paris-15e"@,
        "vaccinodrome-covid-19-porte-de-versailles"@,
        "centre-de-vaccination-covid-19-mairie-du-16eme-arrondissement"@,
        "centre-de-vaccination-covid-19-paris-17eme"@,
        "centre-de-vaccination-covid-19-stade-de-france"@,
    ]
}

impl Config {
    /// The standard settings: first injections that are not of the excluded
    /// brand, the twelve centers of Paris and around, and a tenth of a second
    /// after each search and each center.
    pub fn standard(verbose: bool) -> (config: Config)
        ensures
            config.marker_substring@ == FIRST_DOSE_MARKER@,
            config.excluded_substring@ == EXCLUDED_BRAND@,
            texts_of(config.centers@) == standard_centers(),
            config.place_pause_ms == PLACE_PAUSE_MS,
            config.center_pause_ms == CENTER_PAUSE_MS,
            config.verbose == verbose,
    {
        let mut centers: Vec<String> = Vec::new();
        centers.push(String::from_str("centre-de-vaccination-covid-19-ville-de-paris"));
        centers.push(String::from_str("centre-covid19-paris-5"));
        centers.push(
            String::from_str(
                "centre-de-vaccination-covid-19-mairie-du-6eme-arrondissement-de-paris",
            ),
        );
        centers.push(String::from_str("centre-de-vaccination-mairie-du-7eme-paris"));
        centers.push(String::from_str("centre-de-vaccination-covid-19-paris-8e"));
        centers.push(
            String::from_str("centre-de-vaccination-covid-mairie-du-9eme-arrondissement"),
        );
        centers.push(String::from_str("centre-de-vaccination-paris-14e"));
        centers.push(String::from_str("centre-de-vaccination-covid-paris-15e"));
        centers.push(String::from_str("vaccinodrome-covid-19-porte-de-versailles"));
        centers.push(
            String::from_str("centre-de-vaccination-covid-19-mairie-du-16eme-arrondissement"),
        );
        centers.push(String::from_str("centre-de-vaccination-covid-19-paris-17eme"));
        centers.push(String::from_str("centre-de-vaccination-covid-19-stade-de-france"));
        proof {
            assert(texts_of(centers@) =~= standard_centers());
        }
        Config {
            marker_substring: String::from_str(FIRST_DOSE_MARKER),
            excluded_substring: String::from_str(EXCLUDED_BRAND),
            centers,
            place_pause_ms: PLACE_PAUSE_MS,
            center_pause_ms: CENTER_PAUSE_MS,
            verbose,
        }
    }
}

} // verus!
