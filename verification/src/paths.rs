//! The allowed installation directories, and how they are found.
//!
//! The whitelist is built from the preferences and from the environment in
//! a fixed order of priority. Which directories exist is a question to the
//! disk; the cascade itself takes the answers as plain values.

use crate::config::{Config, ConfigView, DEFAULT_ROBLOX_PATH};
use vstd::prelude::*;
use crate::text::{chars_of, is_separator, separates};
use vstd::string::StringExecFns;

verus! {

/// `std::path::Path::exists` of the standard library: whether the path
/// points at something on disk. The answer depends on the disk and may
/// change from one call to the next, so nothing is claimed of it.
#[verifier::external_body]
pub(crate) fn path_exists(path: &str) -> (found: bool) {
    std::path::Path::new(path).exists()
}

/// The directories of the environment under which the game client installs
/// itself, where the environment names them.
#[derive(Debug, PartialEq, Eq)]
pub struct InstallEnvironment {
    /// The per-user directory for application data.
    pub local_app_data: Option<String>,
    /// The machine-wide directory for 32-bit programs.
    pub program_files_x86: Option<String>,
}

/// An `InstallEnvironment` with its texts as character sequences.
pub struct InstallEnvironmentView {
    pub local_app_data: Option<Seq<char>>,
    pub program_files_x86: Option<Seq<char>>,
}

impl View for InstallEnvironment {
    type V = InstallEnvironmentView;

    open spec fn view(&self) -> InstallEnvironmentView {
        InstallEnvironmentView {
            local_app_data: match self.local_app_data {
                Some(path) => Some(path@),
                None => None,
            },
            program_files_x86: match self.program_files_x86 {
                Some(path) => Some(path@),
                None => None,
            },
        }
    }
}

/// A directory, and whether it was found on disk.
#[derive(Debug, PartialEq, Eq)]
pub struct PathProbe {
    pub path: String,
    pub on_disk: bool,
}

/// A `PathProbe` with its text as a character sequence.
pub struct PathProbeView {
    pub path: Seq<char>,
    pub on_disk: bool,
}

impl View for PathProbe {
    type V = PathProbeView;

    open spec fn view(&self) -> PathProbeView {
        PathProbeView { path: self.path@, on_disk: self.on_disk }
    }
}

impl DeepView for PathProbe {
    type V = PathProbeView;

    open spec fn deep_view(&self) -> PathProbeView {
        self@
    }
}

/// Every candidate for the whitelist, each with the answer of the disk.
#[derive(Debug, PartialEq, Eq)]
pub struct InstallLocations {
    /// The directory from the preferences, where one is set and not empty.
    pub custom: Option<PathProbe>,
    /// Whether the default directory is on disk.
    pub default_on_disk: bool,
    /// The standard directories, in their order of priority: per-user,
    /// store-packaged, machine-wide.
    pub standard: Vec<PathProbe>,
}

/// `InstallLocations` with its texts as character sequences.
pub struct InstallLocationsView {
    pub custom: Option<PathProbeView>,
    pub default_on_disk: bool,
    pub standard: Seq<PathProbeView>,
}

impl View for InstallLocations {
    type V = InstallLocationsView;

    open spec fn view(&self) -> InstallLocationsView {
        InstallLocationsView {
            custom: match self.custom {
                Some(probe) => Some(probe@),
                None => None,
            },
            default_on_disk: self.default_on_disk,
            standard: self.standard.deep_view(),
        }
    }
}

/// The directories among `probes` that are on disk, in the same order.
pub open spec fn on_disk_paths(probes: Seq<PathProbeView>) -> Seq<Seq<char>>
    decreases probes.len(),
{
    if probes.len() == 0 {
        Seq::empty()
    } else if probes.last().on_disk {
        on_disk_paths(probes.drop_last()).push(probes.last().path)
    } else {
        on_disk_paths(probes.drop_last())
    }
}

/// The whitelist that the cascade yields:
/// the custom directory alone where it is on disk; else the default
/// directory alone where it is on disk; else all standard directories that
/// are on disk; and where there is none, the default directory all the same,
/// so that the whitelist is never empty.
pub open spec fn allowed_paths(locations: InstallLocationsView) -> Seq<Seq<char>> {
    if locations.custom is Some && locations.custom->0.path.len() > 0
        && locations.custom->0.on_disk {
        seq![locations.custom->0.path]
    } else if locations.default_on_disk {
        seq![DEFAULT_ROBLOX_PATH@]
    } else if on_disk_paths(locations.standard).len() > 0 {
        on_disk_paths(locations.standard)
    } else {
        seq![DEFAULT_ROBLOX_PATH@]
    }
}

/// The entry `name` of the directory `base`: the two with one separator
/// between them. A base that ends with a separator gets no second one, and
/// an empty base gives the name alone.
pub open spec fn entry_of(base: Seq<char>, name: Seq<char>) -> Seq<char> {
    if base.len() == 0 || is_separator(base.last()) {
        base + name
    } else {
        base + "\\"@ + name
    }
}

/// The standard directories that an environment gives, in their order of
/// priority.
pub open spec fn standard_directories(environment: InstallEnvironmentView) -> Seq<Seq<char>> {
    let per_user = match environment.local_app_data {
        Some(base) => seq![
            entry_of(entry_of(base, "Roblox"@), "Versions"@),
            entry_of(entry_of(base, "Packages"@), "ROBLOXCORPORATION.ROBLOX_55nm5eh3cm0pr"@),
        ],
        None => Seq::empty(),
    };
    let machine_wide = match environment.program_files_x86 {
        Some(base) => seq![entry_of(entry_of(base, "Roblox"@), "Versions"@)],
        None => Seq::empty(),
    };
    per_user + machine_wide
}

/// The directories that were probed, without the answers.
pub open spec fn probed_paths(probes: Seq<PathProbeView>) -> Seq<Seq<char>> {
    Seq::new(probes.len(), |i: int| probes[i].path)
}

/// Whether `locations` holds the candidates that the preferences and the
/// environment give, with some answer of the disk for each.
pub open spec fn locations_of(
    config: ConfigView,
    environment: InstallEnvironmentView,
    locations: InstallLocationsView,
) -> bool {
    &&& match config.custom_path() {
        Some(path) => locations.custom is Some && locations.custom->0.path == path,
        None => locations.custom is None,
    }
    &&& probed_paths(locations.standard) == standard_directories(environment)
}

/// Runs the cascade on candidates that have been probed.
pub fn build_allowed_paths(locations: &InstallLocations) -> (allowed: Vec<String>)
    ensures
        allowed.deep_view() == allowed_paths(locations@),
        allowed.len() > 0,
{
    let mut allowed: Vec<String> = Vec::new();
    match &locations.custom {
        Some(probe) => {
            if !probe.path.as_str().is_empty() && probe.on_disk {
                allowed.push(probe.path.clone());
                return allowed;
            }
        },
        None => {},
    }
    if locations.default_on_disk {
        allowed.push(String::from_str(DEFAULT_ROBLOX_PATH));
        return allowed;
    }
    let ghost probes = locations.standard.deep_view();
    let mut i: usize = 0;
    while i < locations.standard.len()
        invariant
            i <= locations.standard.len(),
            probes == locations.standard.deep_view(),
            allowed.deep_view() == on_disk_paths(probes.take(i as int)),
        decreases locations.standard.len() - i,
    {
        assert(probes.take(i + 1).drop_last() =~= probes.take(i as int));
        if locations.standard[i].on_disk {
            allowed.push(locations.standard[i].path.clone());
        }
        i += 1;
    }
    assert(probes.take(locations.standard.len() as int) =~= probes);
    if allowed.len() == 0 {
        allowed.push(String::from_str(DEFAULT_ROBLOX_PATH));
    }
    allowed
}

fn probe(path: String) -> (probe: PathProbe)
    ensures
        probe.path@ == path@,
{
    let on_disk = path_exists(path.as_str());
    PathProbe { path, on_disk }
}

/// The entry `name` of the directory `base`.
pub fn join(base: &str, name: &str) -> (path: String)
    ensures
        path@ == entry_of(base@, name@),
{
    let mut path = String::from_str(base);
    let text = chars_of(base);
    if text.len() > 0 && !separates(text[text.len() - 1]) {
        path.append("\\");
    }
    path.append(name);
    path
}

fn below(base: &String, first: &str, second: &str) -> (path: String)
    ensures
        path@ == entry_of(entry_of(base@, first@), second@),
{
    let inner = join(base.as_str(), first);
    join(inner.as_str(), second)
}

/// Asks the disk about every candidate that the preferences and the
/// environment give.
pub fn probe_locations(config: &Config, environment: &InstallEnvironment) -> (locations:
    InstallLocations)
    ensures
        locations_of(config@, environment@, locations@),
{
    let custom = match &config.custom_roblox_path {
        Some(path) => {
            if path.as_str().is_empty() {
                None
            } else {
                Some(probe(path.clone()))
            }
        },
        None => None,
    };
    let default_on_disk = path_exists(DEFAULT_ROBLOX_PATH);
    let mut standard: Vec<PathProbe> = Vec::new();
    match &environment.local_app_data {
        Some(base) => {
            standard.push(probe(below(base, "Roblox", "Versions")));
            standard.push(probe(below(base, "Packages", "ROBLOXCORPORATION.ROBLOX_55nm5eh3cm0pr")));
        },
        None => {},
    }
    match &environment.program_files_x86 {
        Some(base) => {
            standard.push(probe(below(base, "Roblox", "Versions")));
        },
        None => {},
    }
    let locations = InstallLocations { custom, default_on_disk, standard };
    assert(probed_paths(locations@.standard) =~= standard_directories(environment@));
    locations
}

/// The whitelist for these preferences in this environment. The disk is
/// asked which candidates exist; whatever it answers, the result is the
/// cascade on those answers.
pub fn detect_roblox_paths(config: &Config, environment: &InstallEnvironment) -> (allowed: Vec<
    String,
>)
    ensures
        exists|locations: InstallLocationsView|
            locations_of(config@, environment@, locations) && allowed.deep_view() == allowed_paths(
                locations,
            ),
        allowed.len() > 0,
{
    let locations = probe_locations(config, environment);
    let allowed = build_allowed_paths(&locations);
    allowed
}

/// The whitelist is never empty.
pub proof fn lemma_whitelist_is_never_empty(locations: InstallLocationsView)
    ensures
        allowed_paths(locations).len() > 0,
{
}

/// The whitelist holds nothing but candidates: the custom directory, the
/// default directory, or standard directories that are on disk.
pub proof fn lemma_allowed_paths_are_candidates(locations: InstallLocationsView, i: int)
    requires
        0 <= i < allowed_paths(locations).len(),
    ensures
        ({
            let path = allowed_paths(locations)[i];
            ||| locations.custom is Some && locations.custom->0.on_disk && path
                == locations.custom->0.path
            ||| path == DEFAULT_ROBLOX_PATH@
            ||| exists|k: int|
                0 <= k < locations.standard.len() && (#[trigger] locations.standard[k]).on_disk
                    && path == locations.standard[k].path
        }),
{
    lemma_on_disk_paths_are_probes(locations.standard, i);
}

/// Every directory among the ones on disk is one of the probes.
pub proof fn lemma_on_disk_paths_are_probes(probes: Seq<PathProbeView>, i: int)
    ensures
        0 <= i < on_disk_paths(probes).len() ==> exists|k: int|
            0 <= k < probes.len() && (#[trigger] probes[k]).on_disk && on_disk_paths(probes)[i]
                == probes[k].path,
    decreases probes.len(),
{
    if probes.len() > 0 && 0 <= i < on_disk_paths(probes).len() {
        let rest = probes.drop_last();
        if i < on_disk_paths(rest).len() {
            lemma_on_disk_paths_are_probes(rest, i);
            let k = choose|k: int|
                0 <= k < rest.len() && (#[trigger] rest[k]).on_disk && on_disk_paths(rest)[i]
                    == rest[k].path;
            assert(probes[k] == rest[k]);
        } else {
            assert(probes[probes.len() - 1].on_disk);
        }
    }
}

} // verus!
