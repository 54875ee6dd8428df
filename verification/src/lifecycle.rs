//! What holds of the manager's transitions, whatever the state and the message.

use vstd::prelude::*;
use crate::data::{BaronyMod, DownloadNegotiation, DownloadStatus, MAX_POLLS};
use crate::downloader_api::NegotiationError;
use crate::manager::{
    next_number,
    position,
    position_from,
    progress_replaced,
    BaronyModManager,
    Command,
};
use crate::text::spec_parse_u32;
use crate::widgets::Message;

verus! {

proof fn lemma_position_from_same_ids(
    before: Seq<BaronyMod>,
    after: Seq<BaronyMod>,
    id: Seq<char>,
    from: int,
)
    requires
        after.len() == before.len(),
        forall|j: int|
            0 <= j < before.len() ==> (#[trigger] after[j]).workshop.id@ == before[j].workshop.id@,
    ensures
        position_from(after, id, from) == position_from(before, id, from),
    decreases before.len() - from,
{
    if 0 <= from < before.len() {
        assert(after[from].workshop.id@ == before[from].workshop.id@);
        if before[from].workshop.id@ != id {
            lemma_position_from_same_ids(before, after, id, from + 1);
        }
    }
}

proof fn lemma_position_from_bounds(mods: Seq<BaronyMod>, id: Seq<char>, from: int)
    requires
        0 <= from,
    ensures
        position_from(mods, id, from) matches Some(i) ==> from <= i < mods.len()
            && mods[i].workshop.id@ == id,
    decreases mods.len() - from,
{
    if from < mods.len() && mods[from].workshop.id@ != id {
        lemma_position_from_bounds(mods, id, from + 1);
    }
}

/// A position that `position` reports lies in the list and holds a mod with
/// the id asked for.
pub proof fn lemma_position_is_valid(mods: Seq<BaronyMod>, id: Seq<char>)
    ensures
        position(mods, id) matches Some(i) ==> 0 <= i < mods.len() && mods[i].workshop.id@ == id,
{
    lemma_position_from_bounds(mods, id, 0);
}

/// Replacing one mod's status and negotiation moves no mod: every id is found
/// where it was.
pub proof fn lemma_progress_keeps_positions(
    before: Seq<BaronyMod>,
    after: Seq<BaronyMod>,
    i: int,
    status: DownloadStatus,
    negotiation: Option<DownloadNegotiation>,
    id: Seq<char>,
)
    requires
        progress_replaced(before, after, i, status, negotiation),
    ensures
        position(after, id) == position(before, id),
{
    assert forall|j: int| 0 <= j < before.len() implies (#[trigger] after[j]).workshop.id@
        == before[j].workshop.id@ by {
        if j != i {
            assert(after[j] == before[j]);
        }
    }
    lemma_position_from_same_ids(before, after, id, 0);
}

impl BaronyModManager {
    /// A change of progress shows under the changed mod's id and under no
    /// other: every mod with a different id keeps its status and negotiation.
    pub proof fn lemma_progress_is_local(
        pre: Self,
        post: Self,
        i: int,
        status: DownloadStatus,
        negotiation: Option<DownloadNegotiation>,
        id: Seq<char>,
    )
        requires
            Self::progress_changed(pre, post, i, status, negotiation),
        ensures
            position(pre.mod_list(), id) == Some(i) ==> post.status_of(id) == Some(status)
                && post.negotiation_of(id) == negotiation,
            position(pre.mod_list(), id) != Some(i) ==> post.status_of(id) == pre.status_of(id)
                && post.negotiation_of(id) == pre.negotiation_of(id),
    {
        lemma_progress_keeps_positions(
            pre.mod_list(),
            post.mod_list(),
            i,
            status,
            negotiation,
            id,
        );
        lemma_position_is_valid(pre.mod_list(), id);
    }

    /// Which intents a mod's status admits. A removal intent is dropped unless
    /// the mod is downloaded, and a download intent is dropped while the mod is
    /// downloaded, preparing or downloading: neither changes the state nor asks
    /// for any work. Intents for a mod that is not listed are dropped too.
    pub proof fn lemma_intent_dropped(
        pre: Self,
        intent: Message,
        dir_valid: bool,
        post: Self,
        cmd: Command,
    )
        requires
            Self::step(pre, intent, dir_valid, post, cmd),
            match intent {
                Message::RemoveMod(id) => pre.status_of(id@) != Some(DownloadStatus::Downloaded),
                Message::DownloadMod(id) => match pre.status_of(id@) {
                    Some(status) => status is Downloaded || status.in_flight(),
                    None => true,
                },
                _ => false,
            },
        ensures
            post == pre,
            cmd == Command::Nothing,
    {
    }

    /// Without a valid install directory no intent is taken up.
    pub proof fn lemma_invalid_directory_blocks_intents(
        pre: Self,
        intent: Message,
        dir_valid: bool,
        post: Self,
        cmd: Command,
    )
        requires
            Self::step(pre, intent, dir_valid, post, cmd),
            intent is DownloadMod || intent is RemoveMod,
            !pre.barony_dir_valid,
        ensures
            post == pre,
            cmd == Command::Nothing,
    {
    }

    /// A download intent for a listed mod that is absent or failed, with a
    /// valid install directory and a numeric id, starts the negotiation: the
    /// mod is preparing with a negotiation under a new number that has no token
    /// and no polls yet, every other mod is as it was, and the service is to be
    /// asked to queue the item under that number.
    pub proof fn lemma_download_starts(
        pre: Self,
        id: String,
        dir_valid: bool,
        post: Self,
        cmd: Command,
    )
        requires
            Self::step(pre, Message::DownloadMod(id), dir_valid, post, cmd),
            pre.barony_dir_valid,
            pre.status_of(id@) matches Some(status) && status.accepts_download(),
            spec_parse_u32(id@) is Some,
        ensures
            post.attempts == next_number(pre.attempts),
            post.status_of(id@) == Some(DownloadStatus::Preparing),
            post.negotiation_of(id@) == Some(
                DownloadNegotiation {
                    mod_id: id,
                    attempt: post.attempts,
                    process_token: None,
                    polls: 0,
                },
            ),
            cmd == (Command::QueueDownload {
                id,
                item_id: spec_parse_u32(id@)->0,
                attempt: post.attempts,
            }),
            forall|other: Seq<char>| other != id@ ==> post.status_of(other) == pre.status_of(other),
    {
        let i = position(pre.mod_list(), id@)->0;
        let attempt = next_number(pre.attempts);
        let numbered = Self { attempts: attempt, ..pre };
        let opened = Some(
            DownloadNegotiation { mod_id: id, attempt, process_token: None, polls: 0 },
        );
        assert forall|other: Seq<char>| other != id@ implies post.status_of(other)
            == pre.status_of(other) by {
            lemma_position_is_valid(pre.mod_list(), other);
            lemma_position_is_valid(pre.mod_list(), id@);
            Self::lemma_progress_is_local(
                numbered,
                post,
                i,
                DownloadStatus::Preparing,
                opened,
                other,
            );
        }
        Self::lemma_progress_is_local(numbered, post, i, DownloadStatus::Preparing, opened, id@);
    }

    /// A report belongs to the negotiation of the mod that `id` names: the mod
    /// has a negotiation, and it was started under the number `attempt`.
    pub open spec fn negotiates_as(self, id: Seq<char>, attempt: u64) -> bool {
        self.negotiation_of(id) matches Some(negotiation) && negotiation.attempt == attempt
    }

    /// While a mod is preparing and polls are left, the token the service
    /// answers with, and every poll under that token that finds the download
    /// not prepared, cause one more poll, provided the report carries the
    /// number of the mod's negotiation: the mod stays preparing, its
    /// negotiation holds the token and has counted the poll.
    pub proof fn lemma_poll_again(
        pre: Self,
        id: String,
        uuid: String,
        attempt: u64,
        dir_valid: bool,
        post: Self,
        cmd: Command,
    )
        requires
            Self::step(pre, Message::PreparingModDownload(id, uuid, attempt), dir_valid, post, cmd),
            pre.status_of(id@) == Some(DownloadStatus::Preparing),
            pre.negotiates_as(id@, attempt),
            pre.negotiation_of(id@) matches Some(negotiation) && (negotiation.process_token is None
                || negotiation.holds_token(uuid@)) && negotiation.may_poll(),
        ensures
            cmd == (Command::CheckStatus { id, uuid, attempt }),
            post.status_of(id@) == Some(DownloadStatus::Preparing),
            post.negotiates_as(id@, attempt),
            post.negotiation_of(id@) matches Some(negotiation) && negotiation.holds_token(uuid@)
                && negotiation.polls == pre.negotiation_of(id@)->0.spec_next_polls(),
    {
        let i = position(pre.mod_list(), id@)->0;
        let before = pre.mod_list()[i].negotiation->0;
        let after = Some(
            DownloadNegotiation {
                mod_id: before.mod_id,
                attempt,
                process_token: Some(uuid),
                polls: before.spec_next_polls(),
            },
        );
        Self::lemma_progress_is_local(pre, post, i, DownloadStatus::Preparing, after, id@);
    }

    /// Polling ends: once a negotiation has asked for the largest number of
    /// polls, the next report that the download is not prepared puts the mod
    /// in the error state, drops the negotiation and asks for nothing more.
    pub proof fn lemma_polling_times_out(
        pre: Self,
        id: String,
        uuid: String,
        attempt: u64,
        dir_valid: bool,
        post: Self,
        cmd: Command,
    )
        requires
            Self::step(pre, Message::PreparingModDownload(id, uuid, attempt), dir_valid, post, cmd),
            pre.status_of(id@) == Some(DownloadStatus::Preparing),
            pre.negotiates_as(id@, attempt),
            pre.negotiation_of(id@) matches Some(negotiation) && (negotiation.process_token is None
                || negotiation.holds_token(uuid@)) && !negotiation.may_poll(),
        ensures
            cmd == Command::Nothing,
            post.status_of(id@) matches Some(DownloadStatus::ErrorOccurred(text)) && text@
                == NegotiationError::TimedOut.spec_text(),
            post.negotiation_of(id@) is None,
    {
        let i = position(pre.mod_list(), id@)->0;
        Self::lemma_progress_is_local(
            pre,
            post,
            i,
            post.mod_list()[i].download_status,
            None,
            id@,
        );
    }

    /// No negotiation in the list has asked for more polls than the largest
    /// number allowed.
    pub open spec fn polls_within_limit(self) -> bool {
        forall|i: int|
            0 <= i < self.mod_list().len() ==> match (#[trigger] self.mod_list()[i]).negotiation {
                Some(negotiation) => negotiation.polls <= MAX_POLLS,
                None => true,
            }
    }

    /// No transition lets a negotiation ask for more polls than the largest
    /// number allowed, provided a mod that is added to the list has not.
    pub proof fn lemma_polls_are_bounded(
        pre: Self,
        message: Message,
        dir_valid: bool,
        post: Self,
        cmd: Command,
    )
        requires
            Self::step(pre, message, dir_valid, post, cmd),
            pre.polls_within_limit(),
            message matches Message::ModBuilt(_, built) ==> match built.negotiation {
                Some(negotiation) => negotiation.polls <= MAX_POLLS,
                None => true,
            },
        ensures
            post.polls_within_limit(),
    {
        let before = pre.mod_list();
        let after = post.mod_list();
        assert forall|i: int| 0 <= i < after.len() implies match (#[trigger] after[i]).negotiation {
            Some(negotiation) => negotiation.polls <= MAX_POLLS,
            None => true,
        } by {
            match message {
                Message::SorterSelected(_) | Message::SortingStrategySelected(_) => {
                    if after.to_multiset() == before.to_multiset() {
                        vstd::seq_lib::to_multiset_contains(after, after[i]);
                        vstd::seq_lib::to_multiset_contains(before, after[i]);
                        assert(after.contains(after[i]));
                        let k = choose|k: int| 0 <= k < before.len() && before[k] == after[i];
                        assert(before[k] == after[i]);
                    } else {
                        assert(after == before);
                    }
                },
                Message::ModBuilt(_, built) => {
                    if after != before && i < before.len() {
                        assert(after[i] == before[i]);
                    }
                },
                _ => {
                    if after != before {
                        assert(after.len() == before.len());
                        if after[i] != before[i] {
                        } else {
                            assert(after[i] == before[i]);
                        }
                    }
                },
            }
        }
    }

    /// What belongs to an earlier load of the catalogue is dropped: a fetched
    /// catalogue, a failure or a built mod that carries another number than the
    /// latest load's changes nothing and asks for nothing.
    pub proof fn lemma_earlier_load_dropped(
        pre: Self,
        message: Message,
        dir_valid: bool,
        post: Self,
        cmd: Command,
    )
        requires
            Self::step(pre, message, dir_valid, post, cmd),
            match message {
                Message::ModsFetched(load, _) => load != pre.load,
                Message::LoadFailed(load, _) => load != pre.load,
                Message::ModBuilt(load, _) => load != pre.load,
                _ => false,
            },
        ensures
            post == pre,
            cmd == Command::Nothing,
    {
    }

    /// A load starts under a number of its own and with an empty list, so that
    /// every mod in the list was built for the latest load.
    pub proof fn lemma_load_starts_afresh(
        pre: Self,
        dir_valid: bool,
        post: Self,
        cmd: Command,
    )
        requires
            Self::step(pre, Message::LoadMods, dir_valid, post, cmd),
        ensures
            post.load != pre.load,
            post.mods is None,
            post.loading_mods,
            cmd == Command::FetchMods(post.load),
    {
    }

    /// A poll under the negotiation's token and number that finds the download
    /// prepared moves a preparing mod to downloading, keeps its negotiation,
    /// and asks for the archive to be fetched and unpacked under the mod's
    /// title.
    pub proof fn lemma_poll_ready(
        pre: Self,
        id: String,
        uuid: String,
        attempt: u64,
        dir_valid: bool,
        post: Self,
        cmd: Command,
    )
        requires
            Self::step(pre, Message::ModDownloadReady(id, uuid, attempt), dir_valid, post, cmd),
            pre.status_of(id@) == Some(DownloadStatus::Preparing),
            pre.negotiates_as(id@, attempt),
            pre.negotiation_of(id@) matches Some(negotiation) && negotiation.holds_token(uuid@),
        ensures
            post.status_of(id@) == Some(DownloadStatus::Downloading),
            post.negotiation_of(id@) == pre.negotiation_of(id@),
            cmd == (Command::DownloadMod {
                id,
                uuid,
                attempt,
                barony_dir: pre.barony_dir_str,
                mod_title: pre.mod_list()[position(pre.mod_list(), id@)->0].workshop.title,
            }),
    {
        let i = position(pre.mod_list(), id@)->0;
        Self::lemma_progress_is_local(
            pre,
            post,
            i,
            DownloadStatus::Downloading,
            pre.mod_list()[i].negotiation,
            id@,
        );
    }

    /// How a download ends: a reported success makes a downloading mod
    /// downloaded, and a reported failure puts a preparing or downloading mod
    /// in the error state with the reported reason, provided the report carries
    /// the number of the mod's negotiation. Either way the negotiation is
    /// dropped and no more work is asked for.
    pub proof fn lemma_download_ends(
        pre: Self,
        outcome: Message,
        dir_valid: bool,
        post: Self,
        cmd: Command,
    )
        requires
            Self::step(pre, outcome, dir_valid, post, cmd),
            match outcome {
                Message::ModDownloaded(id, attempt) => pre.status_of(id@) == Some(
                    DownloadStatus::Downloading,
                ) && pre.negotiates_as(id@, attempt),
                Message::ModDownloadFailed(id, _, attempt) => pre.negotiates_as(id@, attempt) && (
                pre.status_of(id@) matches Some(status) && status.in_flight()),
                _ => false,
            },
        ensures
            cmd == Command::Nothing,
            match outcome {
                Message::ModDownloaded(id, _) => post.status_of(id@) == Some(
                    DownloadStatus::Downloaded,
                ) && post.negotiation_of(id@) is None,
                Message::ModDownloadFailed(id, reason, _) => post.status_of(id@) == Some(
                    DownloadStatus::ErrorOccurred(reason),
                ) && post.negotiation_of(id@) is None,
                _ => true,
            },
    {
        match outcome {
            Message::ModDownloaded(id, _) => {
                let i = position(pre.mod_list(), id@)->0;
                Self::lemma_progress_is_local(
                    pre,
                    post,
                    i,
                    DownloadStatus::Downloaded,
                    None,
                    id@,
                );
            },
            Message::ModDownloadFailed(id, reason, _) => {
                let i = position(pre.mod_list(), id@)->0;
                Self::lemma_progress_is_local(
                    pre,
                    post,
                    i,
                    DownloadStatus::ErrorOccurred(reason),
                    None,
                    id@,
                );
            },
            _ => {},
        }
    }

    /// A report on a download that carries another number than that of the
    /// mod's negotiation is dropped, whatever it reports: it belongs to a
    /// negotiation that has ended or was given up. The state stays as it is and
    /// no work is asked for.
    pub proof fn lemma_report_on_another_negotiation_dropped(
        pre: Self,
        report: Message,
        dir_valid: bool,
        post: Self,
        cmd: Command,
    )
        requires
            Self::step(pre, report, dir_valid, post, cmd),
            match report {
                Message::PreparingModDownload(id, _, attempt) => !pre.negotiates_as(id@, attempt),
                Message::ModDownloadReady(id, _, attempt) => !pre.negotiates_as(id@, attempt),
                Message::ModDownloaded(id, attempt) => !pre.negotiates_as(id@, attempt),
                Message::ModDownloadFailed(id, _, attempt) => !pre.negotiates_as(id@, attempt),
                _ => false,
            },
        ensures
            post == pre,
            cmd == Command::Nothing,
    {
    }

    /// An outcome that arrives for a mod no longer in the state it was reported
    /// for is dropped: a token or a poll result for a mod that is not preparing
    /// or that negotiates under another token, a failure for a mod that is not
    /// in flight, a success for a mod that is not downloading, a finished
    /// removal for a mod that is not downloaded. The state stays as it is and no
    /// work is asked for.
    pub proof fn lemma_late_outcome_dropped(
        pre: Self,
        outcome: Message,
        dir_valid: bool,
        post: Self,
        cmd: Command,
    )
        requires
            Self::step(pre, outcome, dir_valid, post, cmd),
            match outcome {
                Message::PreparingModDownload(id, uuid, _) => pre.status_of(id@) != Some(
                    DownloadStatus::Preparing,
                ) || match pre.negotiation_of(id@) {
                    Some(negotiation) => negotiation.process_token is Some
                        && !negotiation.holds_token(uuid@),
                    None => true,
                },
                Message::ModDownloadReady(id, uuid, _) => pre.status_of(id@) != Some(
                    DownloadStatus::Preparing,
                ) || match pre.negotiation_of(id@) {
                    Some(negotiation) => !negotiation.holds_token(uuid@),
                    None => true,
                },
                Message::ModDownloaded(id, _) => pre.status_of(id@) != Some(
                    DownloadStatus::Downloading,
                ),
                Message::ModDownloadFailed(id, _, _) => !(pre.status_of(id@) matches Some(status)
                    && status.in_flight()),
                Message::ModRemoved(id) => pre.status_of(id@) != Some(DownloadStatus::Downloaded),
                _ => false,
            },
        ensures
            post == pre,
            cmd == Command::Nothing,
    {
    }

    /// A removal intent for a downloaded mod, with a valid install directory,
    /// asks for the mod's folder to be deleted and leaves the state as it is;
    /// the report that the folder is gone then makes the mod not downloaded.
    pub proof fn lemma_removal(
        pre: Self,
        message: Message,
        dir_valid: bool,
        post: Self,
        cmd: Command,
    )
        requires
            Self::step(pre, message, dir_valid, post, cmd),
            match message {
                Message::RemoveMod(id) => pre.barony_dir_valid && pre.status_of(id@) == Some(
                    DownloadStatus::Downloaded,
                ),
                Message::ModRemoved(id) => pre.status_of(id@) == Some(DownloadStatus::Downloaded),
                _ => false,
            },
        ensures
            match message {
                Message::RemoveMod(id) => {
                    &&& post == pre
                    &&& cmd == (Command::RemoveMod {
                        id,
                        barony_dir: pre.barony_dir_str,
                        mod_title: pre.mod_list()[position(pre.mod_list(), id@)->0].workshop.title,
                    })
                },
                Message::ModRemoved(id) => {
                    &&& post.status_of(id@) == Some(DownloadStatus::NotDownloaded)
                    &&& cmd == Command::Nothing
                },
                _ => true,
            },
    {
        match message {
            Message::ModRemoved(id) => {
                let i = position(pre.mod_list(), id@)->0;
                Self::lemma_progress_is_local(
                    pre,
                    post,
                    i,
                    DownloadStatus::NotDownloaded,
                    None,
                    id@,
                );
            },
            _ => {},
        }
    }

    /// Every listed mod has a negotiation exactly while its download is in
    /// flight.
    pub open spec fn negotiations_match_statuses(self) -> bool {
        forall|i: int|
            0 <= i < self.mod_list().len() ==> ((#[trigger] self.mod_list()[i]).negotiation is Some
                <==> self.mod_list()[i].download_status.in_flight())
    }

    /// No transition breaks the pairing of negotiations and statuses, provided
    /// a mod that is added to the list comes with that pairing.
    pub proof fn lemma_negotiations_follow_statuses(
        pre: Self,
        message: Message,
        dir_valid: bool,
        post: Self,
        cmd: Command,
    )
        requires
            Self::step(pre, message, dir_valid, post, cmd),
            pre.negotiations_match_statuses(),
            message matches Message::ModBuilt(_, built) ==> (built.negotiation is Some
                <==> built.download_status.in_flight()),
        ensures
            post.negotiations_match_statuses(),
    {
        let before = pre.mod_list();
        let after = post.mod_list();
        match message {
            Message::SorterSelected(_) | Message::SortingStrategySelected(_) => {
                assert forall|i: int| 0 <= i < after.len() implies ((#[trigger] after[i]).negotiation
                    is Some <==> after[i].download_status.in_flight()) by {
                    if after.to_multiset() == before.to_multiset() {
                        vstd::seq_lib::to_multiset_contains(after, after[i]);
                        vstd::seq_lib::to_multiset_contains(before, after[i]);
                        assert(after.contains(after[i]));
                        let k = choose|k: int| 0 <= k < before.len() && before[k] == after[i];
                        assert(before[k] == after[i]);
                    } else {
                        assert(after == before);
                    }
                }
            },
            Message::ModBuilt(_, built) => {
                assert forall|i: int| 0 <= i < after.len() implies ((#[trigger] after[i]).negotiation
                    is Some <==> after[i].download_status.in_flight()) by {
                    if i < before.len() {
                        assert(after[i] == before[i]);
                    }
                }
            },
            _ => {
                assert forall|i: int| 0 <= i < after.len() implies ((#[trigger] after[i]).negotiation
                    is Some <==> after[i].download_status.in_flight()) by {
                    if after != before {
                        assert(after.len() == before.len());
                        if after[i] != before[i] {
                        } else {
                            assert(after[i] == before[i]);
                        }
                    }
                }
            },
        }
    }
}

} // verus!
