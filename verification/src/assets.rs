//! Locating the bundled sound catalog on the host.
//!
//! The catalog file is probed at three conventional locations, in order: a
//! portable path next to the executable, the per-user data directory, and a
//! system-wide path. Only the probing itself is trusted; the selection logic
//! is verified.

use vstd::prelude::*;

use crate::text::first_found;
use crate::text::first_present_candidate;

verus! {

/// Whether a bundled asset catalog was found on this host.
#[derive(Debug, PartialEq, Eq, Structural)]
pub enum AssetStatus {
    Present,
    Missing,
}

/// Relies on std::path::Path::exists: whether something is present on disk
/// at this path right now. The answer depends on the state of the disk, so
/// nothing is promised of it.
#[verifier::external_body]
pub(crate) fn path_exists(p: &String) -> bool {
    std::path::Path::new(p.as_str()).exists()
}

/// Relies on directories::ProjectDirs: the per-user data directory for this
/// application, or None when no home directory can be determined. The answer
/// depends on the host environment, so nothing is promised of it.
#[verifier::external_body]
pub(crate) fn project_data_dir() -> Option<String> {
    directories::ProjectDirs::from("com", "tanin", "tanin")
        .map(|d| d.data_dir().to_string_lossy().into_owned())
}

/// The status a probe result maps to: `Present` exactly when a catalog
/// path was found.
pub fn asset_status_of(path: &Option<String>) -> (r: AssetStatus)
    ensures
        r == AssetStatus::Present <==> path is Some,
{
    match path {
        Some(_) => AssetStatus::Present,
        None => AssetStatus::Missing,
    }
}

/// Probes the three conventional catalog locations and reports whether any
/// of them holds a catalog file.
pub fn check_assets() -> (r: AssetStatus)
    ensures
        r == AssetStatus::Present || r == AssetStatus::Missing,
{
    let found = get_active_assets_path();
    asset_status_of(&found)
}

/// The catalog locations probed, in their fixed order: the portable path,
/// the per-user data directory's copy when that directory is known, and the
/// system-wide path.
pub open spec fn asset_candidates(data_dir: Option<Seq<char>>) -> Seq<Seq<char>> {
    match data_dir {
        Some(d) => seq![
            "assets/sounds.toml"@,
            d + "/assets/sounds.toml"@,
            "/usr/share/tanin/assets/sounds.toml"@,
        ],
        None => seq!["assets/sounds.toml"@, "/usr/share/tanin/assets/sounds.toml"@],
    }
}

/// The first catalog location that exists on disk, in the fixed probe order.
/// Which locations exist, and whether a per-user data directory is known,
/// depend on the host; the contract fixes the selection for every outcome of
/// the probes: the first location present is returned, and `None` comes back
/// exactly when none is present.
pub fn get_active_assets_path() -> (r: Option<String>)
    ensures
        exists|data_dir: Option<Seq<char>>, present: Seq<bool>|
            #![auto]
            present.len() == asset_candidates(data_dir).len() && first_found(
                asset_candidates(data_dir),
                present,
                r,
            ),
{
    let mut candidates: Vec<String> = Vec::new();
    candidates.push(String::from_str("assets/sounds.toml"));
    let data_dir = project_data_dir();
    let ghost dir_view: Option<Seq<char>> = match &data_dir {
        Some(d) => Some(d@),
        None => None,
    };
    if let Some(d) = data_dir {
        let mut user = d;
        user.append("/assets/sounds.toml");
        candidates.push(user);
    }
    candidates.push(String::from_str("/usr/share/tanin/assets/sounds.toml"));
    proof {
        assert(candidates.deep_view() =~= asset_candidates(dir_view));
    }
    let mut present: Vec<bool> = Vec::new();
    let mut i: usize = 0;
    while i < candidates.len()
        invariant
            candidates.deep_view() == asset_candidates(dir_view),
            0 <= i <= candidates@.len(),
            present@.len() == i as int,
        decreases candidates@.len() - i,
    {
        let found = path_exists(&candidates[i]);
        present.push(found);
        i = i + 1;
    }
    let r = first_present_candidate(&candidates, &present);
    proof {
        assert(present@.len() == asset_candidates(dir_view).len());
    }
    r
}

} // verus!
