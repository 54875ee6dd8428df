//! What the list of mods shows: which mods pass the filters and what each
//! card offers.

use vstd::prelude::*;
use vstd::string::StringExecFns;
use vstd::utf8::encode_utf8;
use crate::data::{BaronyMod, DownloadStatus};
use crate::manager::BaronyModManager;
use crate::tags::{in_dictionary_order, sorted_tags, tag_names};
use crate::text::{contains_text, lowercase, occurs_in, push_char, to_lowercase};
use crate::widgets::{Filter, PickableTag};

verus! {

/// Whether a mod with `status` passes the download filter. No filter lets
/// every mod pass; the downloading filter also shows mods that are preparing.
pub open spec fn passes_filter(filter: Option<Filter>, status: DownloadStatus) -> bool {
    match filter {
        Some(Filter::Downloaded) => status is Downloaded,
        Some(Filter::NonDownloaded) => status is NotDownloaded,
        Some(Filter::Downloading) => status is Downloading || status is Preparing,
        Some(Filter::NoFilter) => true,
        None => true,
    }
}

/// Whether a mod with `tags` passes the tag selection: it must carry the
/// selected tag, if one is selected.
pub open spec fn passes_tag(selected: Option<PickableTag>, tags: Seq<String>) -> bool {
    match selected {
        Some(PickableTag::Tag(tag)) => exists|k: int|
            0 <= k < tags.len() && (#[trigger] tags[k])@ == tag@,
        Some(PickableTag::NoTag) => true,
        None => true,
    }
}

/// Whether a mod passes the search: an empty query matches everything, any
/// other must occur in the title or the description, letter case aside.
pub open spec fn passes_query(query: Seq<char>, title: Seq<char>, description: Seq<char>) -> bool {
    query.len() == 0 || occurs_in(lowercase(query), lowercase(title)) || occurs_in(
        lowercase(query),
        lowercase(description),
    )
}

/// Whether `m` is shown under the current filter, tag and query.
pub open spec fn is_shown(state: BaronyModManager, m: BaronyMod) -> bool {
    &&& passes_filter(state.selected_filter, m.download_status)
    &&& passes_tag(state.selected_tag, m.workshop.tags@)
    &&& passes_query(state.query@, m.workshop.title@, m.workshop.description@)
}

/// Tests a status against the download filter.
pub fn filter_admits(filter: &Option<Filter>, status: &DownloadStatus) -> (r: bool)
    ensures
        r == passes_filter(*filter, *status),
{
    match filter {
        Some(Filter::Downloaded) => match status {
            DownloadStatus::Downloaded => true,
            _ => false,
        },
        Some(Filter::NonDownloaded) => match status {
            DownloadStatus::NotDownloaded => true,
            _ => false,
        },
        Some(Filter::Downloading) => match status {
            DownloadStatus::Downloading => true,
            DownloadStatus::Preparing => true,
            _ => false,
        },
        Some(Filter::NoFilter) => true,
        None => true,
    }
}

/// Tests a mod's tags against the tag selection.
pub fn tag_admits(selected: &Option<PickableTag>, tags: &Vec<String>) -> (r: bool)
    ensures
        r == passes_tag(*selected, tags@),
{
    match selected {
        Some(PickableTag::Tag(tag)) => {
            let mut k: usize = 0;
            while k < tags.len()
                invariant
                    k <= tags.len(),
                    *selected == Some(PickableTag::Tag(*tag)),
                    forall|j: int| 0 <= j < k ==> (#[trigger] tags@[j])@ != tag@,
                decreases tags.len() - k,
            {
                if tags[k] == *tag {
                    assert(tags@[k as int]@ == tag@);
                    return true;
                }
                k += 1;
            }
            false
        },
        Some(PickableTag::NoTag) => true,
        None => true,
    }
}

/// Tests already lowercased texts against an already lowercased query.
/// `query_is_empty` tells whether the query as typed was empty.
pub fn lowered_query_admits(
    query_is_empty: bool,
    lowered_query: &str,
    lowered_title: &str,
    lowered_description: &str,
) -> (r: bool)
    ensures
        r == (query_is_empty || occurs_in(lowered_query@, lowered_title@) || occurs_in(
            lowered_query@,
            lowered_description@,
        )),
{
    query_is_empty || contains_text(lowered_title, lowered_query) || contains_text(
        lowered_description,
        lowered_query,
    )
}

/// Tests a mod's title and description against the search query.
pub fn query_admits(query: &str, title: &str, description: &str) -> (r: bool)
    ensures
        r == passes_query(query@, title@, description@),
{
    if query.is_empty() {
        return true;
    }
    let lowered_query = to_lowercase(query);
    let lowered_title = to_lowercase(title);
    let lowered_description = to_lowercase(description);
    lowered_query_admits(
        false,
        lowered_query.as_str(),
        lowered_title.as_str(),
        lowered_description.as_str(),
    )
}

/// Whether `m` is shown under the current filter, tag and query.
pub fn shows(state: &BaronyModManager, m: &BaronyMod) -> (r: bool)
    ensures
        r == is_shown(*state, *m),
{
    filter_admits(&state.selected_filter, &m.download_status) && tag_admits(
        &state.selected_tag,
        &m.workshop.tags,
    ) && query_admits(
        state.query.as_str(),
        m.workshop.title.as_str(),
        m.workshop.description.as_str(),
    )
}

/// The positions of the mods to show, in list order: exactly the listed mods
/// that pass the filter, the tag selection and the query.
pub fn visible_mods(state: &BaronyModManager) -> (shown: Vec<usize>)
    ensures
        forall|a: int, b: int| 0 <= a < b < shown@.len() ==> shown@[a] < shown@[b],
        forall|a: int|
            0 <= a < shown@.len() ==> (#[trigger] shown@[a]) < state.mod_list().len() && is_shown(
                *state,
                state.mod_list()[shown@[a] as int],
            ),
        forall|i: int|
            0 <= i < state.mod_list().len() && is_shown(*state, #[trigger] state.mod_list()[i])
                ==> exists|a: int| 0 <= a < shown@.len() && shown@[a] == i,
{
    let mut shown: Vec<usize> = Vec::new();
    match &state.mods {
        Some(mods) => {
            let mut i: usize = 0;
            while i < mods.len()
                invariant
                    i <= mods.len(),
                    state.mods == Some(*mods),
                    forall|a: int, b: int| 0 <= a < b < shown@.len() ==> shown@[a] < shown@[b],
                    forall|a: int|
                        0 <= a < shown@.len() ==> (#[trigger] shown@[a]) < i && is_shown(
                            *state,
                            mods@[shown@[a] as int],
                        ),
                    forall|j: int|
                        0 <= j < i && is_shown(*state, #[trigger] mods@[j]) ==> exists|a: int|
                            0 <= a < shown@.len() && shown@[a] == j,
                decreases mods.len() - i,
            {
                if shows(state, &mods[i]) {
                    let ghost before = shown@;
                    shown.push(i);
                    assert(shown@[before.len() as int] == i);
                    assert forall|j: int|
                        0 <= j < i + 1 && is_shown(*state, #[trigger] mods@[j]) implies exists|
                        a: int,
                    | 0 <= a < shown@.len() && shown@[a] == j by {
                        if j < i {
                            let a = choose|a: int| 0 <= a < before.len() && before[a] == j;
                            assert(shown@[a] == j);
                        }
                    }
                }
                i += 1;
            }
        },
        None => {},
    }
    shown
}

/// What the button on a mod's card does.
#[derive(Clone, Copy, Debug, PartialEq, Eq)]
pub enum CardAction {
    /// Offers to download the mod.
    Download,
    /// Shows that a download is under way; pressing it does nothing.
    Busy,
    /// Offers to remove the mod.
    Remove,
}

/// The action offered for a mod with `status`: download when it is absent or
/// failed, nothing while a download is under way, removal once it is there.
pub open spec fn spec_card_action(status: DownloadStatus) -> CardAction {
    if status.accepts_download() {
        CardAction::Download
    } else if status.in_flight() {
        CardAction::Busy
    } else {
        CardAction::Remove
    }
}

/// Picks the action offered on a mod's card.
pub fn card_action(status: &DownloadStatus) -> (action: CardAction)
    ensures
        action == spec_card_action(*status),
{
    match status {
        DownloadStatus::NotDownloaded => CardAction::Download,
        DownloadStatus::ErrorOccurred(_) => CardAction::Download,
        DownloadStatus::Downloading => CardAction::Busy,
        DownloadStatus::Preparing => CardAction::Busy,
        DownloadStatus::Downloaded => CardAction::Remove,
    }
}

/// The largest number of characters of a description that a card shows.
pub const PREVIEW_CHARS: usize = 2000;

/// The description as shown on a card: its first 2000 characters, followed by
/// an ellipsis when those take 2000 bytes or more in UTF-8.
pub open spec fn spec_preview(description: Seq<char>) -> Seq<char> {
    let head = if description.len() <= 2000 {
        description
    } else {
        description.take(2000)
    };
    if encode_utf8(head).len() >= 2000 {
        head + "..."@
    } else {
        head
    }
}

/// A text takes at most four bytes per character in UTF-8.
pub proof fn lemma_utf8_len_bound(chars: Seq<char>)
    ensures
        encode_utf8(chars).len() <= 4 * chars.len(),
    decreases chars.len(),
{
    if chars.len() > 0 {
        lemma_utf8_len_bound(chars.drop_first());
    }
}

/// Shortens a description for display on a card.
pub fn description_preview(description: &str) -> (preview: String)
    ensures
        preview@ == spec_preview(description@),
{
    let mut head = String::new();
    let mut taken: usize = 0;
    for c in it: description.chars()
        invariant
            it.seq() == description@,
            taken <= PREVIEW_CHARS,
            taken == if it.index() <= 2000 { it.index() } else { 2000 },
            head@ == description@.take(taken as int),
    {
        if taken < PREVIEW_CHARS {
            push_char(&mut head, c);
            taken += 1;
            assert(description@.take(taken as int) == description@.take(taken - 1).push(c));
        }
    }
    proof {
        if description@.len() <= 2000 {
            assert(description@.take(description@.len() as int) == description@);
        }
        lemma_utf8_len_bound(head@);
    }
    if head.as_str().len() >= PREVIEW_CHARS {
        head.append("...");
    }
    head
}

/// The version shown in the window title.
pub const VERSION: &'static str = "v0.3.2";

/// The window title.
pub fn window_title() -> (title: String)
    ensures
        title@ == "Barony Mod Manager "@ + VERSION@,
{
    let mut title = String::from_str("Barony Mod Manager ");
    title.append(VERSION);
    title
}

/// The label above the install directory input, which says whether the
/// directory is usable.
pub fn directory_label(valid: bool) -> (label: &'static str)
    ensures
        label@ == if valid {
            "Barony directory (VALID)"@
        } else {
            "Barony directory (INVALID)"@
        },
{
    if valid {
        "Barony directory (VALID)"
    } else {
        "Barony directory (INVALID)"
    }
}

/// What fills the main part of the window.
#[derive(Clone, Copy, Debug, PartialEq, Eq)]
pub enum MainSection {
    /// The error banner.
    Banner,
    /// The notice that the catalogue is being loaded.
    Loading,
    /// The notice that no catalogue has been loaded yet.
    NotLoaded,
    /// The cards of the visible mods.
    Cards,
}

/// What fills the main part of the window: an error takes precedence over the
/// loading notice, which takes precedence over the list.
pub open spec fn spec_main_section(state: BaronyModManager) -> MainSection {
    if state.error_message is Some {
        MainSection::Banner
    } else if state.loading_mods {
        MainSection::Loading
    } else if state.mods is None {
        MainSection::NotLoaded
    } else {
        MainSection::Cards
    }
}

/// Picks what fills the main part of the window.
pub fn main_section(state: &BaronyModManager) -> (section: MainSection)
    ensures
        section == spec_main_section(*state),
{
    if state.error_message.is_some() {
        MainSection::Banner
    } else if state.loading_mods {
        MainSection::Loading
    } else if state.mods.is_none() {
        MainSection::NotLoaded
    } else {
        MainSection::Cards
    }
}

/// The choices of the tag pick list: one per known tag, in dictionary order,
/// and the choice of no tag last.
pub fn tag_choices(state: &BaronyModManager) -> (choices: Vec<PickableTag>)
    ensures
        choices@.len() == state.tags@.len() + 1,
        choices@[state.tags@.len() as int] == PickableTag::NoTag,
        forall|k: int| 0 <= k < state.tags@.len() ==> (#[trigger] choices@[k]) is Tag,
        in_dictionary_order(choice_names(choices@.take(state.tags@.len() as int))),
        choice_names(choices@.take(state.tags@.len() as int)).to_multiset() == tag_names(
            state.tags@,
        ).to_multiset(),
{
    let sorted = sorted_tags(&state.tags);
    proof {
        tag_names(sorted@).to_multiset_ensures();
        tag_names(state.tags@).to_multiset_ensures();
    }
    let mut choices: Vec<PickableTag> = Vec::new();
    let mut k: usize = 0;
    while k < sorted.len()
        invariant
            k <= sorted.len(),
            choices@.len() == k,
            forall|j: int| 0 <= j < k ==> #[trigger] choices@[j] == PickableTag::Tag(sorted@[j]),
        decreases sorted.len() - k,
    {
        choices.push(PickableTag::Tag(sorted[k].clone()));
        k += 1;
    }
    choices.push(PickableTag::NoTag);
    proof {
        let named = choices@.take(state.tags@.len() as int);
        assert(choice_names(named) =~= tag_names(sorted@));
    }
    choices
}

/// The texts of `choices`, in order.
pub open spec fn choice_names(choices: Seq<PickableTag>) -> Seq<Seq<char>> {
    choices.map_values(|choice: PickableTag| choice.spec_text())
}

} // verus!
