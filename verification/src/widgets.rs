//! The messages the manager reacts to and the choices offered by its pick lists.

use vstd::prelude::*;
use vstd::std_specs::cmp::PartialEqSpecImpl;
use vstd::string::StringExecFns;
use crate::data::{BaronyMod, SteamWorkshopMod};

verus! {

/// Every event the manager can be told about.
#[derive(Clone, Debug)]
pub enum Message {
    // Events raised by the user interface
    ModSearchInputChanged(String),
    BaronyDirectoryPathChanged(String),
    TagSelected(PickableTag),
    FilterSelected(Filter),
    SorterSelected(Sorter),
    SortingStrategySelected(SortingStrategy),
    CloseRequested,
    LoadMods,
    ErrorHappened(String),
    // Events raised by finished background work. Those that belong to a load
    // of the catalogue carry the number of that load.
    ModsFetched(u64, Vec<SteamWorkshopMod>),
    LoadFailed(u64, String),
    ModBuilt(u64, BaronyMod),
    DownloadMod(String),
    // Reports on a download carry the number of the negotiation they belong
    // to, after the mod's id and what else they tell.
    PreparingModDownload(String, String, u64),
    ModDownloadReady(String, String, u64),
    ModDownloaded(String, u64),
    ModDownloadFailed(String, String, u64),
    RemoveMod(String),
    ModRemoved(String),
    ModRemovalFailed(String, String),
    // Misc
    NoOp,
}

/// A tag offered for filtering, or no tag at all.
#[derive(Debug, Clone, Hash, Eq, PartialEq, Ord, PartialOrd)]
pub enum PickableTag {
    Tag(String),
    NoTag,
}

/// Possible fields that can be used to sort the mods.
#[derive(Clone, Copy, Debug)]
pub enum Sorter {
    VoteScore,
    Views,
    Size,
    Updated,
    Created,
    NoSorter,
}

/// How the list of mods is laid out.
pub enum ViewStyle {
    Fancy,
    Simple,
}

/// Which mods are shown, by download status.
#[derive(Clone, Copy, Debug, PartialEq, Eq)]
pub enum Filter {
    Downloaded,
    NonDownloaded,
    Downloading,
    NoFilter,
}

/// The direction in which sorted mods are listed.
#[derive(Clone, Copy, Debug, PartialEq, Eq)]
pub enum SortingStrategy {
    Ascending,
    Descending,
}

impl PickableTag {
    /// The text shown for this choice.
    pub open spec fn spec_text(self) -> Seq<char> {
        match self {
            PickableTag::Tag(tag) => tag@,
            PickableTag::NoTag => "None"@,
        }
    }

    /// Renders the choice for display.
    pub fn text(&self) -> (out: String)
        ensures
            out@ == self.spec_text(),
    {
        match self {
            PickableTag::Tag(tag) => tag.clone(),
            PickableTag::NoTag => String::from_str("None"),
        }
    }
}

impl Default for PickableTag {
    fn default() -> (tag: PickableTag)
        ensures
            tag == PickableTag::NoTag,
    {
        PickableTag::NoTag
    }
}

impl Sorter {
    /// Every sorter, in the order in which they are offered.
    pub const ALL: [Sorter; 6] = [
        Sorter::VoteScore,
        Sorter::Views,
        Sorter::Size,
        Sorter::Updated,
        Sorter::Created,
        Sorter::NoSorter,
    ];

    /// The text shown for this choice.
    pub open spec fn spec_text(self) -> Seq<char> {
        match self {
            Sorter::VoteScore => "Vote score"@,
            Sorter::Views => "Views"@,
            Sorter::Size => "Size"@,
            Sorter::Updated => "Date updated"@,
            Sorter::Created => "Date created"@,
            Sorter::NoSorter => "Nothing"@,
        }
    }

    /// Renders the choice for display.
    pub fn text(&self) -> (out: &'static str)
        ensures
            out@ == self.spec_text(),
    {
        match self {
            Sorter::VoteScore => "Vote score",
            Sorter::Views => "Views",
            Sorter::Size => "Size",
            Sorter::Updated => "Date updated",
            Sorter::Created => "Date created",
            Sorter::NoSorter => "Nothing",
        }
    }
}

/// No sorter counts as equal to any sorter, itself included, so a pick list
/// never shows one as already chosen.
impl PartialEq for Sorter {
    fn eq(&self, _other: &Self) -> (r: bool) {
        false
    }
}

impl PartialEqSpecImpl for Sorter {
    open spec fn obeys_eq_spec() -> bool {
        true
    }

    open spec fn eq_spec(&self, _other: &Self) -> bool {
        false
    }
}

impl Eq for Sorter {

}

impl Default for Sorter {
    fn default() -> (sorter: Sorter)
        ensures
            sorter is NoSorter,
    {
        Sorter::NoSorter
    }
}

/// No view style counts as equal to any view style, itself included.
impl PartialEq for ViewStyle {
    fn eq(&self, _other: &Self) -> (r: bool) {
        false
    }
}

impl PartialEqSpecImpl for ViewStyle {
    open spec fn obeys_eq_spec() -> bool {
        true
    }

    open spec fn eq_spec(&self, _other: &Self) -> bool {
        false
    }
}

impl Eq for ViewStyle {

}

impl Default for ViewStyle {
    fn default() -> (style: ViewStyle)
        ensures
            style is Fancy,
    {
        ViewStyle::Fancy
    }
}

impl Filter {
    /// Every filter, in the order in which they are offered.
    pub const ALL: [Filter; 4] = [
        Filter::Downloading,
        Filter::Downloaded,
        Filter::NonDownloaded,
        Filter::NoFilter,
    ];

    /// The text shown for this choice.
    pub open spec fn spec_text(self) -> Seq<char> {
        match self {
            Filter::Downloaded => "Downloaded"@,
            Filter::NonDownloaded => "Non Downloaded"@,
            Filter::Downloading => "Downloading"@,
            Filter::NoFilter => "None"@,
        }
    }

    /// Renders the choice for display.
    pub fn text(&self) -> (out: &'static str)
        ensures
            out@ == self.spec_text(),
    {
        match self {
            Filter::Downloaded => "Downloaded",
            Filter::NonDownloaded => "Non Downloaded",
            Filter::Downloading => "Downloading",
            Filter::NoFilter => "None",
        }
    }
}

impl Default for Filter {
    fn default() -> (filter: Filter)
        ensures
            filter == Filter::NoFilter,
    {
        Filter::NoFilter
    }
}

impl SortingStrategy {
    /// Both strategies, in the order in which they are offered.
    pub const ALL: [SortingStrategy; 2] = [SortingStrategy::Descending, SortingStrategy::Ascending];

    /// The text shown for this choice.
    pub open spec fn spec_text(self) -> Seq<char> {
        match self {
            SortingStrategy::Ascending => "Ascending"@,
            SortingStrategy::Descending => "Descending"@,
        }
    }

    /// Renders the choice for display.
    pub fn text(&self) -> (out: &'static str)
        ensures
            out@ == self.spec_text(),
    {
        match self {
            SortingStrategy::Ascending => "Ascending",
            SortingStrategy::Descending => "Descending",
        }
    }
}

impl Default for SortingStrategy {
    fn default() -> (strategy: SortingStrategy)
        ensures
            strategy == SortingStrategy::Descending,
    {
        SortingStrategy::Descending
    }
}

} // verus!
