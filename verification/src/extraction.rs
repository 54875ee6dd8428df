//! Turning a downloaded archive into the writes that install a mod.

use vstd::prelude::*;
use vstd::string::{StrSliceExecFns, StringExecFns};
use crate::archive::{
    entry_views,
    read_archive,
    unpacked,
    zip_items,
    ArchiveEntry,
    EntryView,
    ItemView,
};
use crate::containment::{is_inside, safe_path, stays_inside};
use crate::filesystem::{join_path, mod_folder, spec_join, spec_mod_folder, FsError};

verus! {

/// One write to carry out, in the order given.
#[derive(Debug, Clone, PartialEq, Eq)]
pub enum WriteOp {
    /// Create the directory at `path` with every missing ancestor, then apply
    /// `mode` where the platform has permission bits.
    CreateDir { path: String, mode: Option<u32> },
    /// Create the missing ancestors of `path`, write `data` to the file at
    /// `path`, replacing what is there, then apply `mode` where the platform
    /// has permission bits.
    WriteFile { path: String, data: Vec<u8>, mode: Option<u32> },
}

/// A write as plain values.
pub enum OpView {
    CreateDir { path: Seq<char>, mode: Option<u32> },
    WriteFile { path: Seq<char>, data: Seq<u8>, mode: Option<u32> },
}

impl OpView {
    /// The path the write touches.
    pub open spec fn target(self) -> Seq<char> {
        match self {
            OpView::CreateDir { path, .. } => path,
            OpView::WriteFile { path, .. } => path,
        }
    }
}

impl View for WriteOp {
    type V = OpView;

    open spec fn view(&self) -> OpView {
        match *self {
            WriteOp::CreateDir { path, mode } => OpView::CreateDir { path: path@, mode },
            WriteOp::WriteFile { path, data, mode } => OpView::WriteFile {
                path: path@,
                data: data@,
                mode,
            },
        }
    }
}

/// The views of `ops`, in order.
pub open spec fn op_views(ops: Seq<WriteOp>) -> Seq<OpView> {
    ops.map_values(|op: WriteOp| op@)
}

/// An entry whose recorded name ends in `/` stands for a directory.
pub open spec fn names_directory(name: Seq<char>) -> bool {
    name.len() > 0 && name.last() == '/'
}

/// The path an entry is unpacked to, relative to the folder: its enclosed
/// path, provided that path stays inside the folder. Every other entry is
/// skipped.
pub open spec fn safe_relative(entry: EntryView) -> Option<Seq<char>> {
    safe_path(entry.enclosed)
}

/// The write that unpacks one entry under `folder`, unless the entry is
/// skipped.
pub open spec fn entry_op(folder: Seq<char>, entry: EntryView) -> Option<OpView> {
    match safe_relative(entry) {
        Some(relative) => Some(
            if names_directory(entry.name) {
                OpView::CreateDir { path: spec_join(folder, relative), mode: entry.unix_mode }
            } else {
                OpView::WriteFile {
                    path: spec_join(folder, relative),
                    data: entry.data,
                    mode: entry.unix_mode,
                }
            },
        ),
        None => None,
    }
}

/// The writes that unpack `entries` under `folder`: first the folder itself,
/// then one write per enclosed entry, in archive order.
pub open spec fn spec_plan(folder: Seq<char>, entries: Seq<EntryView>) -> Seq<OpView>
    decreases entries.len(),
{
    if entries.len() == 0 {
        seq![OpView::CreateDir { path: folder, mode: None }]
    } else {
        let before = spec_plan(folder, entries.drop_last());
        match entry_op(folder, entries.last()) {
            Some(op) => before.push(op),
            None => before,
        }
    }
}

/// Whether a recorded name stands for a directory.
pub fn is_directory_name(name: &str) -> (r: bool)
    ensures
        r == names_directory(name@),
{
    let n = name.unicode_len();
    n > 0 && name.get_char(n - 1) == '/'
}

/// Plans the write for one entry.
pub fn plan_entry(folder: &str, entry: ArchiveEntry) -> (planned: Option<WriteOp>)
    ensures
        match planned {
            Some(op) => entry_op(folder@, entry@) == Some(op@),
            None => entry_op(folder@, entry@) is None,
        },
{
    let directory = is_directory_name(entry.name.as_str());
    match entry.enclosed {
        Some(relative) => {
            if !is_inside(relative.as_str()) {
                return None;
            }
            let path = join_path(folder, relative.as_str());
            if directory {
                Some(WriteOp::CreateDir { path, mode: entry.unix_mode })
            } else {
                Some(WriteOp::WriteFile { path, data: entry.data, mode: entry.unix_mode })
            }
        },
        None => None,
    }
}

/// Plans the writes that unpack `entries` under `folder`.
pub fn plan_writes(folder: &str, entries: Vec<ArchiveEntry>) -> (ops: Vec<WriteOp>)
    ensures
        op_views(ops@) == spec_plan(folder@, entry_views(entries@)),
{
    let ghost views = entry_views(entries@);
    let mut ops: Vec<WriteOp> = Vec::new();
    ops.push(WriteOp::CreateDir { path: String::from_str(folder), mode: None });
    assert(op_views(ops@) =~= spec_plan(folder@, views.take(0)));
    for entry in it: entries
        invariant
            it.seq() == entries@,
            views == entry_views(entries@),
            op_views(ops@) == spec_plan(folder@, views.take(it.index() as int)),
    {
        let ghost k = it.index() as int;
        let ghost before = ops@;
        assert(views.take(k + 1).drop_last() == views.take(k));
        assert(views.take(k + 1).last() == entry@);
        match plan_entry(folder, entry) {
            Some(op) => {
                ops.push(op);
                assert(op_views(ops@) =~= op_views(before).push(op@));
            },
            None => {},
        }
    }
    assert(views.take(views.len() as int) == views);
    ops
}

/// What `extraction_plan` answers: the plan for the archive's unpacked
/// entries under the mod's folder when the title has a folder and the archive
/// can be read, an `Io` failure otherwise.
pub open spec fn plan_outcome(
    folder: Option<Seq<char>>,
    items: Option<Seq<ItemView>>,
    outcome: Result<Vec<WriteOp>, FsError>,
) -> bool {
    if folder is Some && items is Some && unpacked(items->0) is Some {
        &&& outcome matches Ok(ops)
        &&& op_views(ops@) == spec_plan(folder->0, unpacked(items->0)->0)
    } else {
        outcome matches Err(FsError::Io(_))
    }
}

/// Plans the installation of the mod titled `mod_title` from the archive held
/// in `zip_bytes`. Nothing is written: the caller carries out the writes in
/// order and treats the first that fails as the failure of the installation.
/// A plan begins by creating the mod's folder, the one the install check looks
/// for and removal deletes, and none of its writes leaves that folder. Every
/// entry that the plan unpacks is placed under its recorded name, and that
/// name stays inside the folder.
pub fn extraction_plan(barony_path: &str, mod_title: &str, zip_bytes: Vec<u8>) -> (outcome: Result<
    Vec<WriteOp>,
    FsError,
>)
    ensures
        plan_outcome(spec_mod_folder(barony_path@, mod_title@), zip_items(zip_bytes@), outcome),
        outcome matches Ok(ops) ==> {
            let folder = spec_mod_folder(barony_path@, mod_title@);
            &&& folder is Some
            &&& ops@.len() >= 1
            &&& ops@[0]@ == (OpView::CreateDir { path: folder->0, mode: None })
            &&& forall|k: int| 0 <= k < ops@.len() ==> lies_under(folder->0, (#[trigger] ops@[k])@.target())
        },
        outcome matches Ok(ops) ==> {
            let entries = unpacked(zip_items(zip_bytes@)->0)->0;
            forall|k: int|
                0 <= k < entries.len() ==> (#[trigger] entries[k]).enclosed == Some(entries[k].name)
                    && stays_inside(entries[k].name)
        },
{
    let folder = match mod_folder(barony_path, mod_title) {
        Some(folder) => folder,
        None => {
            return Err(FsError::Io(String::from_str("the mod's title leaves no folder name")));
        },
    };
    match read_archive(zip_bytes) {
        Ok(entries) => {
            let ops = plan_writes(folder.as_str(), entries);
            proof {
                lemma_plan_stays_under_folder(folder@, entry_views(entries@));
                assert forall|k: int| 0 <= k < ops@.len() implies lies_under(
                    folder@,
                    (#[trigger] ops@[k])@.target(),
                ) by {
                    assert(op_views(ops@)[k] == ops@[k]@);
                }
                assert(op_views(ops@)[0] == ops@[0]@);
                let unpacked_entries = unpacked(zip_items(zip_bytes@)->0)->0;
                assert forall|k: int| 0 <= k < unpacked_entries.len() implies (
                #[trigger] unpacked_entries[k]).enclosed == Some(unpacked_entries[k].name)
                    && stays_inside(unpacked_entries[k].name) by {
                    assert(unpacked_entries[k] == entries@[k]@);
                }
            }
            Ok(ops)
        },
        Err(text) => Err(FsError::Io(text)),
    }
}

/// The folder to delete when the mod titled `mod_title` is removed. A title
/// without a folder name has nothing installed, which is reported as
/// `NotFound`.
pub fn removal_target(barony_path: &str, mod_title: &str) -> (target: Result<String, FsError>)
    ensures
        match spec_mod_folder(barony_path@, mod_title@) {
            Some(folder) => target matches Ok(path) && path@ == folder,
            None => target == Err::<String, FsError>(FsError::NotFound),
        },
{
    match mod_folder(barony_path, mod_title) {
        Some(folder) => Ok(folder),
        None => Err(FsError::NotFound),
    }
}

/// Classifies a failed deletion of a mod's folder: a folder that was not
/// there is reported as `NotFound`, anything else as an `Io` failure with the
/// given description.
pub fn deletion_failure(folder_missing: bool, detail: String) -> (error: FsError)
    ensures
        error == if folder_missing {
            FsError::NotFound
        } else {
            FsError::Io(detail)
        },
{
    if folder_missing {
        FsError::NotFound
    } else {
        FsError::Io(detail)
    }
}

/// `path` is the folder itself or lies inside it: it is the folder followed
/// by a relative path that never climbs out.
pub open spec fn lies_under(folder: Seq<char>, path: Seq<char>) -> bool {
    path == folder || exists|relative: Seq<char>|
        stays_inside(relative) && path == #[trigger] spec_join(folder, relative)
}

/// No write of a plan leaves the folder the archive is unpacked to: the first
/// write creates that folder, and every write touches the folder or a path
/// inside it.
pub proof fn lemma_plan_stays_under_folder(folder: Seq<char>, entries: Seq<EntryView>)
    ensures
        spec_plan(folder, entries).len() >= 1,
        spec_plan(folder, entries)[0] == (OpView::CreateDir { path: folder, mode: None }),
        forall|k: int|
            0 <= k < spec_plan(folder, entries).len() ==> lies_under(
                folder,
                (#[trigger] spec_plan(folder, entries)[k]).target(),
            ),
    decreases entries.len(),
{
    if entries.len() > 0 {
        lemma_plan_stays_under_folder(folder, entries.drop_last());
        match safe_relative(entries.last()) {
            Some(relative) => {
                assert(lies_under(folder, spec_join(folder, relative)));
            },
            None => {},
        }
    }
}

/// An entry whose path is not enclosed, or climbs out of the folder, changes
/// nothing: the plan is the plan for the other entries.
pub proof fn lemma_unsafe_entry_is_skipped(
    folder: Seq<char>,
    before: Seq<EntryView>,
    entry: EntryView,
    after: Seq<EntryView>,
)
    requires
        safe_relative(entry) is None,
    ensures
        spec_plan(folder, before.push(entry) + after) == spec_plan(folder, before + after),
    decreases after.len(),
{
    if after.len() == 0 {
        assert(before.push(entry) + after == before.push(entry));
        assert(before + after == before);
        assert(before.push(entry).drop_last() == before);
    } else {
        lemma_unsafe_entry_is_skipped(folder, before, entry, after.drop_last());
        assert((before.push(entry) + after).drop_last() == before.push(entry) + after.drop_last());
        assert((before + after).drop_last() == before + after.drop_last());
    }
}

} // verus!
