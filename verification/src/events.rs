//! Turning the outcome of finished background work into the message that
//! reports it to the manager.

use vstd::prelude::*;
use crate::data::SteamWorkshopMod;
use crate::downloader_api::NegotiationError;
use crate::filesystem::FsError;
use crate::widgets::Message;

verus! {

/// Reports the outcome of fetching the catalogue for the load numbered
/// `load`: the catalogue itself, or the failure of that load.
pub fn fetched_message(
    load: u64,
    outcome: Result<Vec<SteamWorkshopMod>, NegotiationError>,
) -> (message: Message)
    ensures
        match outcome {
            Ok(catalogue) => message == Message::ModsFetched(load, catalogue),
            Err(error) => message matches Message::LoadFailed(failed, text) && failed == load
                && text@ == error.spec_text(),
        },
{
    match outcome {
        Ok(catalogue) => Message::ModsFetched(load, catalogue),
        Err(error) => Message::LoadFailed(load, error.text()),
    }
}

/// Reports the outcome of queueing a download for the negotiation numbered
/// `attempt`: the process token to poll with, or the failure of the download.
pub fn queued_message(id: String, attempt: u64, outcome: Result<String, NegotiationError>) -> (message:
    Message)
    ensures
        match outcome {
            Ok(uuid) => message == Message::PreparingModDownload(id, uuid, attempt),
            Err(error) => message matches Message::ModDownloadFailed(failed, text, number) && failed
                == id && text@ == error.spec_text() && number == attempt,
        },
{
    match outcome {
        Ok(uuid) => Message::PreparingModDownload(id, uuid, attempt),
        Err(error) => Message::ModDownloadFailed(id, error.text(), attempt),
    }
}

/// Reports the outcome of one status poll: ready, to be polled again, or the
/// failure of the download.
pub fn polled_message(
    id: String,
    uuid: String,
    attempt: u64,
    outcome: Result<bool, NegotiationError>,
) -> (message: Message)
    ensures
        match outcome {
            Ok(true) => message == Message::ModDownloadReady(id, uuid, attempt),
            Ok(false) => message == Message::PreparingModDownload(id, uuid, attempt),
            Err(error) => message matches Message::ModDownloadFailed(failed, text, number) && failed
                == id && text@ == error.spec_text() && number == attempt,
        },
{
    match outcome {
        Ok(true) => Message::ModDownloadReady(id, uuid, attempt),
        Ok(false) => Message::PreparingModDownload(id, uuid, attempt),
        Err(error) => Message::ModDownloadFailed(id, error.text(), attempt),
    }
}

/// Reports that fetching the archive failed.
pub fn transmit_failed_message(id: String, attempt: u64, error: &NegotiationError) -> (message:
    Message)
    ensures
        message matches Message::ModDownloadFailed(failed, text, number) && failed == id && text@
            == error.spec_text() && number == attempt,
{
    Message::ModDownloadFailed(id, error.text(), attempt)
}

/// Reports the outcome of unpacking a fetched archive: the mod is
/// downloaded, or the download failed.
pub fn installed_message(id: String, attempt: u64, outcome: Result<(), FsError>) -> (message:
    Message)
    ensures
        match outcome {
            Ok(_) => message == Message::ModDownloaded(id, attempt),
            Err(error) => message matches Message::ModDownloadFailed(failed, text, number) && failed
                == id && text@ == error.spec_text() && number == attempt,
        },
{
    match outcome {
        Ok(_) => Message::ModDownloaded(id, attempt),
        Err(error) => Message::ModDownloadFailed(id, error.text(), attempt),
    }
}

/// Reports the outcome of deleting a mod's folder. A folder that was already
/// gone counts as removed; any other failure is reported as such.
pub fn removal_message(id: String, outcome: Result<(), FsError>) -> (message: Message)
    ensures
        match outcome {
            Ok(_) => message == Message::ModRemoved(id),
            Err(FsError::NotFound) => message == Message::ModRemoved(id),
            Err(FsError::Io(detail)) => message == Message::ModRemovalFailed(id, detail),
        },
{
    match outcome {
        Ok(_) => Message::ModRemoved(id),
        Err(FsError::NotFound) => Message::ModRemoved(id),
        Err(FsError::Io(detail)) => Message::ModRemovalFailed(id, detail),
    }
}

} // verus!
