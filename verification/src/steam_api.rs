//! Merging a fetched catalogue entry with what is installed locally.

use vstd::prelude::*;
use crate::data::{BaronyMod, DownloadStatus, SteamWorkshopMod};
use crate::filesystem::{is_mod_downloaded, spec_mod_folder};

verus! {

/// Where the catalogue is fetched from.
pub const CATALOGUE_ENDPOINT: &'static str =
    "https://raw.githubusercontent.com/arcticlimer/barony-mod-manager/master/data/mods.json";

/// The status a freshly listed mod starts with.
pub open spec fn spec_initial_status(installed: bool) -> DownloadStatus {
    if installed {
        DownloadStatus::Downloaded
    } else {
        DownloadStatus::NotDownloaded
    }
}

/// The status a freshly listed mod starts with, given whether its folder was
/// found on disk.
pub fn initial_status(installed: bool) -> (status: DownloadStatus)
    ensures
        status == spec_initial_status(installed),
{
    if installed {
        DownloadStatus::Downloaded
    } else {
        DownloadStatus::NotDownloaded
    }
}

/// Whether the entry names a preview image to fetch.
pub fn has_preview(workshop_data: &SteamWorkshopMod) -> (r: bool)
    ensures
        r == (workshop_data.preview_url@.len() > 0),
{
    !workshop_data.preview_url.as_str().is_empty()
}

/// Lists a catalogue entry with the status that the disk gives it: downloaded
/// when its folder exists under `barony_dir`, not downloaded otherwise. Looks
/// at the disk. An entry whose title has no folder name is never listed as
/// downloaded.
pub fn build_barony_mod(barony_dir: &str, workshop_data: SteamWorkshopMod) -> (built: BaronyMod)
    ensures
        built.workshop == workshop_data,
        built.negotiation is None,
        built.download_status is Downloaded || built.download_status is NotDownloaded,
        spec_mod_folder(barony_dir@, workshop_data.title@) is None ==> built.download_status
            is NotDownloaded,
{
    let installed = is_mod_downloaded(barony_dir, workshop_data.title.as_str());
    BaronyMod {
        download_status: initial_status(installed),
        negotiation: None,
        workshop: workshop_data,
    }
}

} // verus!
