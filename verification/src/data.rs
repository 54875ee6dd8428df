//! Catalogue records and the per-mod download status.

use vstd::prelude::*;
use vstd::string::StringExecFns;

verus! {

/// Where a mod stands in its download lifecycle.
#[derive(Debug, Clone, PartialEq, Eq)]
pub enum DownloadStatus {
    Downloaded,
    NotDownloaded,
    Preparing,
    Downloading,
    ErrorOccurred(String),
}

impl DownloadStatus {
    /// A download may be started: nothing is installed and nothing is in flight.
    pub open spec fn accepts_download(self) -> bool {
        self is NotDownloaded || self is ErrorOccurred
    }

    /// The mod's folder is installed and may be removed.
    pub open spec fn accepts_removal(self) -> bool {
        self is Downloaded
    }

    /// A download has been started and has not yet concluded.
    pub open spec fn in_flight(self) -> bool {
        self is Preparing || self is Downloading
    }

    /// The text shown for this status.
    pub open spec fn spec_text(self) -> Seq<char> {
        match self {
            DownloadStatus::Downloaded => "Downloaded"@,
            DownloadStatus::NotDownloaded => "Not downloaded"@,
            DownloadStatus::Preparing => "Preparing download..."@,
            DownloadStatus::Downloading => "Downloading..."@,
            DownloadStatus::ErrorOccurred(err) => "Error occurred: "@ + err@ + "."@,
        }
    }

    /// Renders the status for display.
    pub fn text(&self) -> (out: String)
        ensures
            out@ == self.spec_text(),
    {
        match self {
            DownloadStatus::Downloaded => String::from_str("Downloaded"),
            DownloadStatus::NotDownloaded => String::from_str("Not downloaded"),
            DownloadStatus::Preparing => String::from_str("Preparing download..."),
            DownloadStatus::Downloading => String::from_str("Downloading..."),
            DownloadStatus::ErrorOccurred(err) => {
                let mut out = String::from_str("Error occurred: ");
                out.append(err.as_str());
                out.append(".");
                out
            },
        }
    }

    pub fn can_download(&self) -> (r: bool)
        ensures
            r == self.accepts_download(),
    {
        match self {
            DownloadStatus::NotDownloaded => true,
            DownloadStatus::ErrorOccurred(_) => true,
            _ => false,
        }
    }

    pub fn can_remove(&self) -> (r: bool)
        ensures
            r == self.accepts_removal(),
    {
        match self {
            DownloadStatus::Downloaded => true,
            _ => false,
        }
    }

    pub fn is_in_flight(&self) -> (r: bool)
        ensures
            r == self.in_flight(),
    {
        match self {
            DownloadStatus::Preparing => true,
            DownloadStatus::Downloading => true,
            _ => false,
        }
    }
}

/// Up and down votes of a workshop item.
#[derive(Debug, Clone, Copy, PartialEq, Eq)]
pub struct SteamWorkshopVoteData {
    pub up: u64,
    pub down: u64,
}

/// One entry of the remote catalogue. Timestamps are seconds since the Unix
/// epoch.
#[derive(Debug, Clone, PartialEq, Eq)]
pub struct SteamWorkshopMod {
    pub id: String,
    pub title: String,
    pub file_size: u64,
    pub preview_url: String,
    pub description: String,
    pub tags: Vec<String>,
    pub votes: SteamWorkshopVoteData,
    pub views: u64,
    pub time_created: i64,
    pub time_updated: i64,
}

/// The largest number of status polls asked for in one negotiation. At one
/// poll every half second this is five minutes.
pub const MAX_POLLS: u64 = 600;

/// The conversation with the download service about one mod. It exists while
/// the mod's download is in flight and is dropped when the download ends.
#[derive(Debug, Clone, PartialEq, Eq)]
pub struct DownloadNegotiation {
    /// The workshop id of the mod being downloaded.
    pub mod_id: String,
    /// The number this negotiation was started under. Every request made for
    /// it, and every report on it, carries the number.
    pub attempt: u64,
    /// The token the service answered the queue request with, once it has.
    pub process_token: Option<String>,
    /// How many status polls have been asked for so far.
    pub polls: u64,
}

impl DownloadNegotiation {
    /// The service has answered the queue request with the token `uuid`.
    pub open spec fn holds_token(self, uuid: Seq<char>) -> bool {
        self.process_token matches Some(token) && token@ == uuid
    }

    /// The number of polls after one more, which stops counting at the largest
    /// number it can hold.
    pub open spec fn spec_next_polls(self) -> u64 {
        if self.polls < u64::MAX {
            (self.polls + 1) as u64
        } else {
            self.polls
        }
    }

    /// Another poll may still be asked for.
    pub open spec fn may_poll(self) -> bool {
        self.polls < MAX_POLLS
    }

    /// Whether another poll may still be asked for.
    pub fn can_poll(&self) -> (r: bool)
        ensures
            r == self.may_poll(),
    {
        self.polls < MAX_POLLS
    }

    /// Whether the service has answered the queue request with `uuid`.
    pub fn has_token(&self, uuid: &String) -> (r: bool)
        ensures
            r == self.holds_token(uuid@),
    {
        match &self.process_token {
            Some(token) => *token == *uuid,
            None => false,
        }
    }

    /// The number of polls after one more.
    pub fn next_polls(&self) -> (count: u64)
        ensures
            count == self.spec_next_polls(),
    {
        if self.polls < u64::MAX {
            self.polls + 1
        } else {
            self.polls
        }
    }
}

/// A catalogue entry together with its local download status and, while a
/// download is in flight, the state of the conversation with the service.
#[derive(Debug, Clone, PartialEq, Eq)]
pub struct BaronyMod {
    pub workshop: SteamWorkshopMod,
    pub download_status: DownloadStatus,
    pub negotiation: Option<DownloadNegotiation>,
}

impl BaronyMod {
    /// The mod's negotiation is the one started under the number `attempt`.
    pub open spec fn negotiates_as(self, attempt: u64) -> bool {
        match self.negotiation {
            Some(negotiation) => negotiation.attempt == attempt,
            None => false,
        }
    }

    /// Whether the mod's negotiation is the one started under `attempt`.
    pub fn is_attempt(&self, attempt: u64) -> (r: bool)
        ensures
            r == self.negotiates_as(attempt),
    {
        match &self.negotiation {
            Some(negotiation) => negotiation.attempt == attempt,
            None => false,
        }
    }
}

} // verus!
