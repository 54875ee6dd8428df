//! The manager's state and the transition it makes for each message.

use vstd::prelude::*;
use vstd::string::StringExecFns;
use crate::data::{BaronyMod, DownloadNegotiation, DownloadStatus, SteamWorkshopMod};
use crate::downloader_api::NegotiationError;
use crate::filesystem::{barony_dir_valid, SettingsPersistance};
use crate::sorting::{ascending_by, descending_by, reverse_mods, sort_ascending};
use crate::tags::{collect_tags, tag_names, with_catalogue_tags};
use crate::text::{parse_u32, spec_parse_u32};
use crate::widgets::{Filter, Message, PickableTag, Sorter, SortingStrategy};

verus! {

/// Work the caller has to carry out after a transition. Each piece of work ends
/// by handing one or more messages back to the manager.
#[derive(Debug, Clone, PartialEq, Eq)]
pub enum Command {
    /// Nothing to do.
    Nothing,
    /// Deliver `LoadMods` once the event loop runs.
    ScheduleLoad,
    /// Fetch the catalogue for the load with this number; answer with
    /// `ModsFetched` or `LoadFailed`, carrying the number.
    FetchMods(u64),
    /// Resolve each entry's local status for the load with this number; answer
    /// with one `ModBuilt` per entry, carrying the number.
    BuildMods(u64, Vec<SteamWorkshopMod>),
    /// Ask the download service to queue the item; answer with
    /// `PreparingModDownload` carrying the process token, or `ModDownloadFailed`.
    /// Every answer to work on a download carries that work's `attempt`.
    QueueDownload { id: String, item_id: u32, attempt: u64 },
    /// After the poll delay, ask whether the download is prepared; answer with
    /// `ModDownloadReady`, `PreparingModDownload` or `ModDownloadFailed`.
    CheckStatus { id: String, uuid: String, attempt: u64 },
    /// Fetch the archive and unpack it into the mod's folder; answer with
    /// `ModDownloaded` or `ModDownloadFailed`.
    DownloadMod { id: String, uuid: String, attempt: u64, barony_dir: String, mod_title: String },
    /// Delete the mod's folder; answer with `ModRemoved` or `ModRemovalFailed`.
    RemoveMod { id: String, barony_dir: String, mod_title: String },
    /// Write the settings file.
    PersistSettings(SettingsPersistance),
}

/// Everything the manager remembers while it runs.
#[derive(Debug, Clone)]
pub struct BaronyModManager {
    pub mods: Option<Vec<BaronyMod>>,
    /// The number of the latest load of the catalogue. What arrives for an
    /// earlier load is dropped.
    pub load: u64,
    /// The number of the latest download negotiation started. What arrives
    /// for another negotiation than a mod's own is dropped.
    pub attempts: u64,
    pub query: String,
    /// The tags seen in the catalogue so far: a set, held as a list in which
    /// each tag stands once, in the order of first sight.
    pub tags: Vec<String>,
    pub selected_sorter: Option<Sorter>,
    pub selected_tag: Option<PickableTag>,
    pub sorting_strategy: Option<SortingStrategy>,
    pub selected_filter: Option<Filter>,
    pub loading_mods: bool,
    pub barony_dir_str: String,
    pub barony_dir_valid: bool,
    pub steam_api_key: Option<String>,
    pub should_exit: bool,
    pub error_message: Option<String>,
}

/// The position of the first mod at or after `from` whose workshop id is `id`.
pub open spec fn position_from(mods: Seq<BaronyMod>, id: Seq<char>, from: int) -> Option<int>
    decreases mods.len() - from,
{
    if from < 0 || from >= mods.len() {
        None
    } else if mods[from].workshop.id@ == id {
        Some(from)
    } else {
        position_from(mods, id, from + 1)
    }
}

/// The position of the first mod whose workshop id is `id`.
pub open spec fn position(mods: Seq<BaronyMod>, id: Seq<char>) -> Option<int> {
    position_from(mods, id, 0)
}

/// `after` is `before` with the status and the negotiation of the mod at `i`
/// replaced by `status` and `negotiation`.
pub open spec fn progress_replaced(
    before: Seq<BaronyMod>,
    after: Seq<BaronyMod>,
    i: int,
    status: DownloadStatus,
    negotiation: Option<DownloadNegotiation>,
) -> bool {
    &&& 0 <= i < before.len()
    &&& after.len() == before.len()
    &&& after[i].workshop == before[i].workshop
    &&& after[i].download_status == status
    &&& after[i].negotiation == negotiation
    &&& forall|j: int| 0 <= j < before.len() && j != i ==> #[trigger] after[j] == before[j]
}

/// The number that follows `number` when loads and negotiations are
/// numbered: the next one up, and zero after the largest.
pub open spec fn next_number(number: u64) -> u64 {
    if number < u64::MAX {
        (number + 1) as u64
    } else {
        0
    }
}

/// Computes the number that follows `number`.
pub fn number_after(number: u64) -> (next: u64)
    ensures
        next == next_number(number),
{
    if number < u64::MAX {
        number + 1
    } else {
        0
    }
}

/// The text stored as the status of a mod whose workshop id is not a number.
pub open spec fn invalid_id_text() -> Seq<char> {
    "the workshop id is not a number"@
}

/// The text shown in the error banner for a failure described by `detail`.
pub open spec fn banner_text(detail: Seq<char>) -> Seq<char> {
    "An error occurred: "@ + detail
}

/// Finds the first mod with the given workshop id.
pub fn find_mod(mods: &Vec<BaronyMod>, id: &String) -> (found: Option<usize>)
    ensures
        match found {
            Some(i) => position(mods@, id@) == Some(i as int) && i < mods.len(),
            None => position(mods@, id@) is None,
        },
{
    let mut i: usize = 0;
    while i < mods.len()
        invariant
            i <= mods.len(),
            position(mods@, id@) == position_from(mods@, id@, i as int),
        decreases mods.len() - i,
    {
        if mods[i].workshop.id == *id {
            return Some(i);
        }
        i += 1;
    }
    None
}

/// Replaces the status and the negotiation of the mod at `i`.
pub fn set_progress(
    mods: &mut Vec<BaronyMod>,
    i: usize,
    status: DownloadStatus,
    negotiation: Option<DownloadNegotiation>,
)
    requires
        i < old(mods).len(),
    ensures
        progress_replaced(old(mods)@, final(mods)@, i as int, status, negotiation),
{
    mods[i].download_status = status;
    mods[i].negotiation = negotiation;
}

impl BaronyModManager {
    /// The mods listed so far; empty while no catalogue is loaded.
    pub open spec fn mod_list(self) -> Seq<BaronyMod> {
        match self.mods {
            Some(mods) => mods@,
            None => Seq::empty(),
        }
    }

    /// The status of the mod that `id` names, if it is listed.
    pub open spec fn status_of(self, id: Seq<char>) -> Option<DownloadStatus> {
        match position(self.mod_list(), id) {
            Some(i) => Some(self.mod_list()[i].download_status),
            None => None,
        }
    }

    /// The negotiation of the mod that `id` names, if it is listed and has one.
    pub open spec fn negotiation_of(self, id: Seq<char>) -> Option<DownloadNegotiation> {
        match position(self.mod_list(), id) {
            Some(i) => self.mod_list()[i].negotiation,
            None => None,
        }
    }

    /// `post` is `pre` with the status and the negotiation of the mod at `i`
    /// replaced by `status` and `negotiation`.
    pub open spec fn progress_changed(
        pre: Self,
        post: Self,
        i: int,
        status: DownloadStatus,
        negotiation: Option<DownloadNegotiation>,
    ) -> bool {
        &&& pre.mods is Some
        &&& post.mods is Some
        &&& progress_replaced(pre.mod_list(), post.mod_list(), i, status, negotiation)
        &&& post == (Self { mods: post.mods, ..pre })
    }

    /// The order of the list after a sorter or a strategy has been picked: sorted
    /// by the sorter's key, then reversed when the strategy is descending.
    /// Without a sorter the order stays as it is. No mod is added, dropped or
    /// changed.
    pub open spec fn resorted(pre: Self, post: Self) -> bool {
        match (pre.selected_sorter, pre.mods) {
            (Some(sorter), Some(mods)) => {
                &&& post == (Self { mods: post.mods, ..pre })
                &&& post.mods is Some
                &&& post.mod_list().to_multiset() == pre.mod_list().to_multiset()
                &&& match sorter {
                    Sorter::NoSorter => post.mod_list() == (if pre.sorting_strategy == Some(
                        SortingStrategy::Descending,
                    ) {
                        pre.mod_list().reverse()
                    } else {
                        pre.mod_list()
                    }),
                    _ => if pre.sorting_strategy == Some(SortingStrategy::Descending) {
                        descending_by(post.mod_list(), sorter)
                    } else {
                        ascending_by(post.mod_list(), sorter)
                    },
                }
            },
            _ => post == pre,
        }
    }
}

/// Reorders the listed mods after a sorter or a strategy has been picked.
pub fn sort_mods(state: &mut BaronyModManager)
    ensures
        BaronyModManager::resorted(*old(state), *final(state)),
{
    let descending = match state.sorting_strategy {
        Some(SortingStrategy::Descending) => true,
        _ => false,
    };
    match state.selected_sorter {
        Some(sorter) => {
            match &mut state.mods {
                Some(mods) => {
                    let ghost before = mods@;
                    match sorter {
                        Sorter::NoSorter => {},
                        _ => {
                            sort_ascending(mods, sorter);
                        },
                    }
                    if descending {
                        let ghost sorted = mods@;
                        reverse_mods(mods);
                        proof {
                            sorted.lemma_reverse_to_multiset();
                        }
                    }
                },
                None => {},
            }
        },
        None => {},
    }
}

impl BaronyModManager {
    /// A download intent for `id`. It is taken up only when the install
    /// directory is valid, the mod is listed and no download of it is installed
    /// or in flight: the mod then starts preparing, a negotiation under a new
    /// number and without a token is opened for it, and the service is asked to
    /// queue it. An id that is not a number puts the mod in the error state
    /// instead. In every other case nothing happens.
    pub open spec fn download_step(pre: Self, id: String, post: Self, cmd: Command) -> bool {
        match position(pre.mod_list(), id@) {
            Some(i) => if pre.barony_dir_valid && pre.mod_list()[i].download_status.accepts_download() {
                match spec_parse_u32(id@) {
                    Some(item_id) => {
                        let attempt = next_number(pre.attempts);
                        &&& Self::progress_changed(
                            Self { attempts: attempt, ..pre },
                            post,
                            i,
                            DownloadStatus::Preparing,
                            Some(
                                DownloadNegotiation {
                                    mod_id: id,
                                    attempt,
                                    process_token: None,
                                    polls: 0,
                                },
                            ),
                        )
                        &&& cmd == (Command::QueueDownload { id, item_id, attempt })
                    },
                    None => {
                        &&& post.mod_list()[i].download_status matches DownloadStatus::ErrorOccurred(text)
                            && text@ == invalid_id_text()
                        &&& Self::progress_changed(
                            pre,
                            post,
                            i,
                            post.mod_list()[i].download_status,
                            None,
                        )
                        &&& cmd == Command::Nothing
                    },
                }
            } else {
                post == pre && cmd == Command::Nothing
            },
            None => post == pre && cmd == Command::Nothing,
        }
    }

    /// Whether a message that carries the token `uuid` and the number
    /// `attempt` belongs to the negotiation in progress for the mod at `i`:
    /// the mod is preparing, its negotiation was started under that number,
    /// and it either still waits for its token or holds this one.
    pub open spec fn expects_token(self, i: int, uuid: Seq<char>, attempt: u64) -> bool {
        let listed = self.mod_list()[i];
        listed.download_status is Preparing && match listed.negotiation {
            Some(negotiation) => negotiation.attempt == attempt && (negotiation.process_token
                is None || negotiation.holds_token(uuid)),
            None => false,
        }
    }

    /// Whether the mod at `i` is preparing under the token `uuid`, in the
    /// negotiation started under the number `attempt`.
    pub open spec fn prepares_under(self, i: int, uuid: Seq<char>, attempt: u64) -> bool {
        let listed = self.mod_list()[i];
        listed.download_status is Preparing && match listed.negotiation {
            Some(negotiation) => negotiation.attempt == attempt && negotiation.holds_token(uuid),
            None => false,
        }
    }

    /// The service answered the queue request with a process token, or a poll
    /// found the download not yet prepared. While the mod is preparing, the
    /// message carries the number of the mod's negotiation, and the token is
    /// the one the negotiation has or waits for, the negotiation keeps the
    /// token, counts one more poll, and the service is polled (again); but
    /// once the largest number of polls has been asked for, the download has
    /// timed out: the mod goes to the error state and nothing more is asked
    /// for. A message for anything else changes nothing.
    pub open spec fn preparing_step(
        pre: Self,
        id: String,
        uuid: String,
        attempt: u64,
        post: Self,
        cmd: Command,
    ) -> bool {
        match position(pre.mod_list(), id@) {
            Some(i) => if pre.expects_token(i, uuid@, attempt) && !pre.mod_list()[i].negotiation->0.may_poll() {
                &&& post.mod_list()[i].download_status matches DownloadStatus::ErrorOccurred(text)
                    && text@ == NegotiationError::TimedOut.spec_text()
                &&& Self::progress_changed(pre, post, i, post.mod_list()[i].download_status, None)
                &&& cmd == Command::Nothing
            } else if pre.expects_token(i, uuid@, attempt) {
                let negotiation = pre.mod_list()[i].negotiation->0;
                &&& Self::progress_changed(
                    pre,
                    post,
                    i,
                    DownloadStatus::Preparing,
                    Some(
                        DownloadNegotiation {
                            mod_id: negotiation.mod_id,
                            attempt,
                            process_token: Some(uuid),
                            polls: negotiation.spec_next_polls(),
                        },
                    ),
                )
                &&& cmd == (Command::CheckStatus { id, uuid, attempt })
            } else {
                post == pre && cmd == Command::Nothing
            },
            None => post == pre && cmd == Command::Nothing,
        }
    }

    /// A poll found the download prepared. A mod that is still preparing under
    /// the token and the number the message carries starts downloading, and
    /// its archive is to be fetched and unpacked. A message for anything else
    /// changes nothing.
    pub open spec fn ready_step(
        pre: Self,
        id: String,
        uuid: String,
        attempt: u64,
        post: Self,
        cmd: Command,
    ) -> bool {
        match position(pre.mod_list(), id@) {
            Some(i) => if pre.prepares_under(i, uuid@, attempt) {
                &&& Self::progress_changed(
                    pre,
                    post,
                    i,
                    DownloadStatus::Downloading,
                    pre.mod_list()[i].negotiation,
                )
                &&& cmd == (Command::DownloadMod {
                    id,
                    uuid,
                    attempt,
                    barony_dir: pre.barony_dir_str,
                    mod_title: pre.mod_list()[i].workshop.title,
                })
            } else {
                post == pre && cmd == Command::Nothing
            },
            None => post == pre && cmd == Command::Nothing,
        }
    }

    /// The mod that `id` names moves to `next` and drops its negotiation if it
    /// is listed and satisfies `from`; otherwise nothing changes.
    pub open spec fn guarded_status_step(
        pre: Self,
        id: Seq<char>,
        from: spec_fn(BaronyMod) -> bool,
        next: DownloadStatus,
        post: Self,
    ) -> bool {
        match position(pre.mod_list(), id) {
            Some(i) => if from(pre.mod_list()[i]) {
                Self::progress_changed(pre, post, i, next, None)
            } else {
                post == pre
            },
            None => post == pre,
        }
    }

    /// A removal intent for `id`. It is taken up only when the install directory
    /// is valid and the mod is listed as downloaded: its folder is then to be
    /// deleted. The status changes when the deletion is reported back.
    pub open spec fn remove_step(pre: Self, id: String, post: Self, cmd: Command) -> bool {
        &&& post == pre
        &&& cmd == match position(pre.mod_list(), id@) {
            Some(i) => if pre.barony_dir_valid && pre.mod_list()[i].download_status.accepts_removal() {
                Command::RemoveMod {
                    id,
                    barony_dir: pre.barony_dir_str,
                    mod_title: pre.mod_list()[i].workshop.title,
                }
            } else {
                Command::Nothing
            },
            None => Command::Nothing,
        }
    }

    /// The transition relation: `post` and `cmd` are what `message` makes of
    /// `pre`. `dir_valid` is the outcome of checking the install directory and
    /// matters only when the message changes that directory.
    pub open spec fn step(
        pre: Self,
        message: Message,
        dir_valid: bool,
        post: Self,
        cmd: Command,
    ) -> bool {
        match message {
            Message::ModSearchInputChanged(query) => {
                post == (Self { query, ..pre }) && cmd == Command::Nothing
            },
            Message::BaronyDirectoryPathChanged(path) => {
                &&& post == (Self { barony_dir_valid: dir_valid, barony_dir_str: path, ..pre })
                &&& cmd == Command::Nothing
            },
            Message::TagSelected(tag) => {
                post == (Self { selected_tag: Some(tag), ..pre }) && cmd == Command::Nothing
            },
            Message::FilterSelected(filter) => {
                post == (Self { selected_filter: Some(filter), ..pre }) && cmd == Command::Nothing
            },
            Message::SorterSelected(sorter) => {
                &&& Self::resorted(Self { selected_sorter: Some(sorter), ..pre }, post)
                &&& cmd == Command::Nothing
            },
            Message::SortingStrategySelected(strategy) => {
                &&& Self::resorted(Self { sorting_strategy: Some(strategy), ..pre }, post)
                &&& cmd == Command::Nothing
            },
            Message::CloseRequested => {
                &&& post == (Self { should_exit: true, ..pre })
                &&& cmd == Command::PersistSettings(
                    SettingsPersistance {
                        barony_directory_path: Some(pre.barony_dir_str),
                        steam_api_key: pre.steam_api_key,
                    },
                )
            },
            Message::LoadMods => {
                &&& post == (Self {
                    mods: None,
                    loading_mods: true,
                    load: next_number(pre.load),
                    ..pre
                })
                &&& cmd == Command::FetchMods(next_number(pre.load))
            },
            Message::ErrorHappened(detail) => {
                &&& post.error_message matches Some(text) && text@ == banner_text(detail@)
                &&& post == (Self { error_message: post.error_message, ..pre })
                &&& cmd == Command::Nothing
            },
            Message::ModsFetched(load, catalogue) => if load == pre.load {
                &&& tag_names(post.tags@) == with_catalogue_tags(tag_names(pre.tags@), catalogue@)
                &&& post == (Self { tags: post.tags, ..pre })
                &&& cmd == Command::BuildMods(load, catalogue)
            } else {
                post == pre && cmd == Command::Nothing
            },
            Message::LoadFailed(load, detail) => if load == pre.load {
                &&& post.error_message matches Some(text) && text@ == banner_text(detail@)
                &&& post == (Self {
                    error_message: post.error_message,
                    loading_mods: false,
                    ..pre
                })
                &&& cmd == Command::Nothing
            } else {
                post == pre && cmd == Command::Nothing
            },
            Message::ModBuilt(load, built) => if load == pre.load {
                &&& post.mods is Some
                &&& post.mod_list() == pre.mod_list().push(built)
                &&& post == (Self {
                    mods: post.mods,
                    loading_mods: false,
                    error_message: None,
                    ..pre
                })
                &&& cmd == Command::Nothing
            } else {
                post == pre && cmd == Command::Nothing
            },
            Message::DownloadMod(id) => Self::download_step(pre, id, post, cmd),
            Message::PreparingModDownload(id, uuid, attempt) => Self::preparing_step(
                pre,
                id,
                uuid,
                attempt,
                post,
                cmd,
            ),
            Message::ModDownloadReady(id, uuid, attempt) => Self::ready_step(
                pre,
                id,
                uuid,
                attempt,
                post,
                cmd,
            ),
            Message::ModDownloaded(id, attempt) => {
                &&& Self::guarded_status_step(
                    pre,
                    id@,
                    |m: BaronyMod| m.download_status is Downloading && m.negotiates_as(attempt),
                    DownloadStatus::Downloaded,
                    post,
                )
                &&& cmd == Command::Nothing
            },
            Message::ModDownloadFailed(id, reason, attempt) => {
                &&& Self::guarded_status_step(
                    pre,
                    id@,
                    |m: BaronyMod| m.download_status.in_flight() && m.negotiates_as(attempt),
                    DownloadStatus::ErrorOccurred(reason),
                    post,
                )
                &&& cmd == Command::Nothing
            },
            Message::RemoveMod(id) => Self::remove_step(pre, id, post, cmd),
            Message::ModRemoved(id) => {
                &&& Self::guarded_status_step(
                    pre,
                    id@,
                    |m: BaronyMod| m.download_status is Downloaded,
                    DownloadStatus::NotDownloaded,
                    post,
                )
                &&& cmd == Command::Nothing
            },
            Message::ModRemovalFailed(id, reason) => {
                &&& post.error_message matches Some(text) && text@ == banner_text(reason@)
                &&& post == (Self { error_message: post.error_message, ..pre })
                &&& cmd == Command::Nothing
            },
            Message::NoOp => post == pre && cmd == Command::Nothing,
        }
    }

    /// Gives the mod that `id` names the status `next`, and drops its
    /// negotiation, if it is listed and `from` admits its status.
    fn move_status(&mut self, id: &String, from: StatusGuard, next: DownloadStatus)
        ensures
            Self::guarded_status_step(
                *old(self),
                id@,
                |m: BaronyMod| from.admits(m),
                next,
                *final(self),
            ),
    {
        match &mut self.mods {
            Some(mods) => {
                match find_mod(mods, id) {
                    Some(i) => {
                        if from.check(&mods[i]) {
                            set_progress(mods, i, next, None);
                        }
                    },
                    None => {},
                }
            },
            None => {},
        }
    }

    /// Stores the banner text for a failure described by `detail`.
    fn show_error(&mut self, detail: &String)
        ensures
            final(self).error_message matches Some(text) && text@ == banner_text(detail@),
            *final(self) == (Self { error_message: final(self).error_message, ..*old(self) }),
    {
        let mut text = String::from_str("An error occurred: ");
        text.append(detail.as_str());
        self.error_message = Some(text);
    }

    /// Makes the transition for `message`. `dir_valid` is the outcome of checking
    /// the install directory that the message carries, if it carries one.
    pub fn apply(&mut self, message: Message, dir_valid: bool) -> (cmd: Command)
        ensures
            Self::step(*old(self), message, dir_valid, *final(self), cmd),
    {
        match message {
            Message::ModSearchInputChanged(query) => {
                self.query = query;
                Command::Nothing
            },
            Message::BaronyDirectoryPathChanged(path) => {
                self.barony_dir_valid = dir_valid;
                self.barony_dir_str = path;
                Command::Nothing
            },
            Message::TagSelected(tag) => {
                self.selected_tag = Some(tag);
                Command::Nothing
            },
            Message::FilterSelected(filter) => {
                self.selected_filter = Some(filter);
                Command::Nothing
            },
            Message::SorterSelected(sorter) => {
                self.selected_sorter = Some(sorter);
                sort_mods(self);
                Command::Nothing
            },
            Message::SortingStrategySelected(strategy) => {
                self.sorting_strategy = Some(strategy);
                sort_mods(self);
                Command::Nothing
            },
            Message::CloseRequested => {
                self.should_exit = true;
                Command::PersistSettings(
                    SettingsPersistance {
                        barony_directory_path: Some(self.barony_dir_str.clone()),
                        steam_api_key: clone_key(&self.steam_api_key),
                    },
                )
            },
            Message::LoadMods => {
                let load: u64 = number_after(self.load);
                self.mods = None;
                self.loading_mods = true;
                self.load = load;
                Command::FetchMods(load)
            },
            Message::ErrorHappened(detail) => {
                self.show_error(&detail);
                Command::Nothing
            },
            Message::ModsFetched(load, catalogue) => {
                if load != self.load {
                    return Command::Nothing;
                }
                collect_tags(&mut self.tags, &catalogue);
                Command::BuildMods(load, catalogue)
            },
            Message::LoadFailed(load, detail) => {
                if load != self.load {
                    return Command::Nothing;
                }
                self.show_error(&detail);
                self.loading_mods = false;
                Command::Nothing
            },
            Message::ModBuilt(load, built) => {
                if load != self.load {
                    return Command::Nothing;
                }
                self.loading_mods = false;
                self.error_message = None;
                match &mut self.mods {
                    Some(mods) => {
                        mods.push(built);
                    },
                    None => {
                        let mut mods: Vec<BaronyMod> = Vec::new();
                        mods.push(built);
                        self.mods = Some(mods);
                    },
                }
                Command::Nothing
            },
            Message::DownloadMod(id) => self.start_download(id),
            Message::PreparingModDownload(id, uuid, attempt) => self.keep_polling(
                id,
                uuid,
                attempt,
            ),
            Message::ModDownloadReady(id, uuid, attempt) => self.start_transfer(id, uuid, attempt),
            Message::ModDownloaded(id, attempt) => {
                self.move_status(
                    &id,
                    StatusGuard::Downloading(attempt),
                    DownloadStatus::Downloaded,
                );
                Command::Nothing
            },
            Message::ModDownloadFailed(id, reason, attempt) => {
                self.move_status(
                    &id,
                    StatusGuard::InFlight(attempt),
                    DownloadStatus::ErrorOccurred(reason),
                );
                Command::Nothing
            },
            Message::RemoveMod(id) => self.start_removal(id),
            Message::ModRemoved(id) => {
                self.move_status(&id, StatusGuard::Downloaded, DownloadStatus::NotDownloaded);
                Command::Nothing
            },
            Message::ModRemovalFailed(_id, reason) => {
                self.show_error(&reason);
                Command::Nothing
            },
            Message::NoOp => Command::Nothing,
        }
    }

    fn start_download(&mut self, id: String) -> (cmd: Command)
        ensures
            Self::download_step(*old(self), id, *final(self), cmd),
    {
        if !self.barony_dir_valid {
            return Command::Nothing;
        }
        match &mut self.mods {
            Some(mods) => {
                match find_mod(mods, &id) {
                    Some(i) => {
                        if mods[i].download_status.can_download() {
                            match parse_u32(id.as_str()) {
                                Some(item_id) => {
                                    let attempt = number_after(self.attempts);
                                    let negotiation = DownloadNegotiation {
                                        mod_id: id.clone(),
                                        attempt,
                                        process_token: None,
                                        polls: 0,
                                    };
                                    set_progress(
                                        mods,
                                        i,
                                        DownloadStatus::Preparing,
                                        Some(negotiation),
                                    );
                                    self.attempts = attempt;
                                    Command::QueueDownload { id, item_id, attempt }
                                },
                                None => {
                                    let text = String::from_str("the workshop id is not a number");
                                    set_progress(mods, i, DownloadStatus::ErrorOccurred(text), None);
                                    Command::Nothing
                                },
                            }
                        } else {
                            Command::Nothing
                        }
                    },
                    None => Command::Nothing,
                }
            },
            None => Command::Nothing,
        }
    }

    fn keep_polling(&mut self, id: String, uuid: String, attempt: u64) -> (cmd: Command)
        ensures
            Self::preparing_step(*old(self), id, uuid, attempt, *final(self), cmd),
    {
        match &mut self.mods {
            Some(mods) => {
                match find_mod(mods, &id) {
                    Some(i) => {
                        let next = match (&mods[i].download_status, &mods[i].negotiation) {
                            (DownloadStatus::Preparing, Some(negotiation)) => {
                                if negotiation.attempt == attempt && (
                                negotiation.process_token.is_none() || negotiation.has_token(
                                    &uuid,
                                )) {
                                    if negotiation.can_poll() {
                                        Some(
                                            Some(
                                                DownloadNegotiation {
                                                    mod_id: negotiation.mod_id.clone(),
                                                    attempt,
                                                    process_token: Some(uuid.clone()),
                                                    polls: negotiation.next_polls(),
                                                },
                                            ),
                                        )
                                    } else {
                                        Some(None)
                                    }
                                } else {
                                    None
                                }
                            },
                            _ => None,
                        };
                        match next {
                            Some(Some(negotiation)) => {
                                set_progress(
                                    mods,
                                    i,
                                    DownloadStatus::Preparing,
                                    Some(negotiation),
                                );
                                Command::CheckStatus { id, uuid, attempt }
                            },
                            Some(None) => {
                                let text = NegotiationError::TimedOut.text();
                                set_progress(mods, i, DownloadStatus::ErrorOccurred(text), None);
                                Command::Nothing
                            },
                            None => Command::Nothing,
                        }
                    },
                    None => Command::Nothing,
                }
            },
            None => Command::Nothing,
        }
    }

    fn start_transfer(&mut self, id: String, uuid: String, attempt: u64) -> (cmd: Command)
        ensures
            Self::ready_step(*old(self), id, uuid, attempt, *final(self), cmd),
    {
        match &mut self.mods {
            Some(mods) => {
                match find_mod(mods, &id) {
                    Some(i) => {
                        let ready = match (&mods[i].download_status, &mods[i].negotiation) {
                            (DownloadStatus::Preparing, Some(negotiation)) => negotiation.attempt
                                == attempt && negotiation.has_token(&uuid),
                            _ => false,
                        };
                        if ready {
                            let mod_title = mods[i].workshop.title.clone();
                            mods[i].download_status = DownloadStatus::Downloading;
                            Command::DownloadMod {
                                id,
                                uuid,
                                attempt,
                                barony_dir: self.barony_dir_str.clone(),
                                mod_title,
                            }
                        } else {
                            Command::Nothing
                        }
                    },
                    None => Command::Nothing,
                }
            },
            None => Command::Nothing,
        }
    }

    fn start_removal(&self, id: String) -> (cmd: Command)
        ensures
            Self::remove_step(*self, id, *self, cmd),
    {
        if !self.barony_dir_valid {
            return Command::Nothing;
        }
        match &self.mods {
            Some(mods) => {
                match find_mod(mods, &id) {
                    Some(i) => {
                        if mods[i].download_status.can_remove() {
                            Command::RemoveMod {
                                id,
                                barony_dir: self.barony_dir_str.clone(),
                                mod_title: mods[i].workshop.title.clone(),
                            }
                        } else {
                            Command::Nothing
                        }
                    },
                    None => Command::Nothing,
                }
            },
            None => Command::Nothing,
        }
    }
}

impl BaronyModManager {
    /// The state before anything has happened: no catalogue, nothing selected
    /// but the defaults, and the install directory taken from the settings (empty
    /// when they hold none).
    pub open spec fn is_initial(self, settings: SettingsPersistance, dir_valid: bool) -> bool {
        &&& self.mods is None
        &&& self.load == 0
        &&& self.attempts == 0
        &&& self.query@.len() == 0
        &&& self.tags@.len() == 0
        &&& self.selected_sorter == Some(Sorter::NoSorter)
        &&& self.selected_tag == Some(PickableTag::NoTag)
        &&& self.sorting_strategy == Some(SortingStrategy::Descending)
        &&& self.selected_filter == Some(Filter::NoFilter)
        &&& !self.loading_mods
        &&& match settings.barony_directory_path {
            Some(path) => self.barony_dir_str == path,
            None => self.barony_dir_str@.len() == 0,
        }
        &&& self.barony_dir_valid == dir_valid
        &&& self.steam_api_key == settings.steam_api_key
        &&& !self.should_exit
        &&& self.error_message is None
    }

    /// Builds the initial state from the stored settings and the outcome of
    /// checking the stored install directory.
    pub fn initial(settings: SettingsPersistance, dir_valid: bool) -> (state: Self)
        ensures
            state.is_initial(settings, dir_valid),
    {
        let barony_dir_str = match settings.barony_directory_path {
            Some(path) => path,
            None => String::new(),
        };
        BaronyModManager {
            mods: None,
            load: 0,
            attempts: 0,
            query: String::new(),
            tags: Vec::new(),
            selected_sorter: Some(Sorter::NoSorter),
            selected_tag: Some(PickableTag::NoTag),
            sorting_strategy: Some(SortingStrategy::Descending),
            selected_filter: Some(Filter::NoFilter),
            loading_mods: false,
            barony_dir_str,
            barony_dir_valid: dir_valid,
            steam_api_key: settings.steam_api_key,
            should_exit: false,
            error_message: None,
        }
    }

    /// Builds the initial state from the stored settings, checking the stored
    /// install directory on disk, and asks for the catalogue to be loaded.
    /// Without a stored directory, or with an empty one, the directory is
    /// invalid and the disk is not looked at.
    pub fn new(settings: SettingsPersistance) -> (start: (Self, Command))
        ensures
            start.0.is_initial(settings, start.0.barony_dir_valid),
            start.1 == Command::ScheduleLoad,
            match settings.barony_directory_path {
                Some(path) => path@.len() == 0 ==> !start.0.barony_dir_valid,
                None => !start.0.barony_dir_valid,
            },
    {
        let dir_valid = match &settings.barony_directory_path {
            Some(path) => barony_dir_valid(path.as_str()),
            None => false,
        };
        (Self::initial(settings, dir_valid), Command::ScheduleLoad)
    }

    /// Makes the transition for `message`. A message that changes the install
    /// directory has the new directory checked on disk, and the outcome is what
    /// the state holds afterwards; an empty directory is invalid. Every other
    /// message is handled without looking outside the state.
    pub fn update(&mut self, message: Message) -> (cmd: Command)
        ensures
            Self::step(*old(self), message, final(self).barony_dir_valid, *final(self), cmd),
            message matches Message::BaronyDirectoryPathChanged(path) ==> (path@.len() == 0
                ==> !final(self).barony_dir_valid),
    {
        let dir_valid = match &message {
            Message::BaronyDirectoryPathChanged(path) => barony_dir_valid(path.as_str()),
            _ => false,
        };
        self.apply(message, dir_valid)
    }
}

/// What must hold of a mod for a reported outcome to be applied to it still.
#[derive(Clone, Copy, Debug, PartialEq, Eq)]
pub enum StatusGuard {
    /// The mod is downloading in the negotiation with this number.
    Downloading(u64),
    /// The mod is preparing or downloading in the negotiation with this number.
    InFlight(u64),
    /// The mod is downloaded.
    Downloaded,
}

impl StatusGuard {
    /// Whether the mod `m` passes the guard.
    pub open spec fn admits(self, m: BaronyMod) -> bool {
        match self {
            StatusGuard::Downloading(attempt) => m.download_status is Downloading
                && m.negotiates_as(attempt),
            StatusGuard::InFlight(attempt) => m.download_status.in_flight() && m.negotiates_as(
                attempt,
            ),
            StatusGuard::Downloaded => m.download_status is Downloaded,
        }
    }

    /// Tests a mod against the guard.
    pub fn check(self, m: &BaronyMod) -> (r: bool)
        ensures
            r == self.admits(*m),
    {
        match self {
            StatusGuard::Downloading(attempt) => {
                let downloading = match m.download_status {
                    DownloadStatus::Downloading => true,
                    _ => false,
                };
                downloading && m.is_attempt(attempt)
            },
            StatusGuard::InFlight(attempt) => m.download_status.is_in_flight() && m.is_attempt(
                attempt,
            ),
            StatusGuard::Downloaded => m.download_status.can_remove(),
        }
    }
}

/// Copies an optional string.
fn clone_key(key: &Option<String>) -> (copy: Option<String>)
    ensures
        copy == *key,
{
    match key {
        Some(k) => Some(k.clone()),
        None => None,
    }
}

} // verus!
