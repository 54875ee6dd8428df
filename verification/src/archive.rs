//! Reading the entries of a downloaded zip archive.

use vstd::prelude::*;
use vstd::string::StringExecFns;
use std::io::Cursor;
use zip::read::ZipArchive;
use zip::result::{InvalidPassword, ZipError};
use crate::containment::{has_safe_path, safe_path, stays_inside};

verus! {

#[verifier::external_type_specification]
#[verifier::external_body]
#[verifier::reject_recursive_types(R)]
pub struct ExZipArchive<R>(ZipArchive<R>);

#[verifier::external_type_specification]
#[verifier::external_body]
#[verifier::reject_recursive_types(T)]
pub struct ExCursor<T>(Cursor<T>);

#[verifier::external_type_specification]
#[verifier::external_body]
pub struct ExZipError(ZipError);

#[verifier::external_type_specification]
#[verifier::external_body]
pub struct ExInvalidPassword(InvalidPassword);

/// What an archive records about one entry, apart from its contents.
#[derive(Debug, Clone, PartialEq, Eq)]
pub struct EntryHeader {
    /// The entry's path as recorded in the archive.
    pub name: String,
    /// The recorded path again, present only when the archive reader finds,
    /// by the path rules of the platform it runs on, that it stays inside the
    /// folder the archive is unpacked to.
    pub enclosed: Option<String>,
    /// The entry's Unix permission bits, if the archive records any.
    pub unix_mode: Option<u32>,
}

/// An entry header as plain values.
pub struct HeaderView {
    pub name: Seq<char>,
    pub enclosed: Option<Seq<char>>,
    pub unix_mode: Option<u32>,
}

impl HeaderView {
    /// The enclosed path, where there is one, is the recorded name.
    pub open spec fn names_itself(self) -> bool {
        self.enclosed matches Some(path) ==> path == self.name
    }

    /// Whether an entry with this header is unpacked: it has an enclosed path,
    /// and that path stays inside the folder.
    pub open spec fn is_unpacked(self) -> bool {
        safe_path(self.enclosed) is Some
    }
}

impl View for EntryHeader {
    type V = HeaderView;

    open spec fn view(&self) -> HeaderView {
        HeaderView {
            name: self.name@,
            enclosed: match self.enclosed {
                Some(path) => Some(path@),
                None => None,
            },
            unix_mode: self.unix_mode,
        }
    }
}

/// One entry of an archive, fully read.
#[derive(Debug, Clone, PartialEq, Eq)]
pub struct ArchiveEntry {
    /// The entry's path as recorded in the archive.
    pub name: String,
    /// The recorded path again, present only when it stays inside the folder
    /// the archive is unpacked to.
    pub enclosed: Option<String>,
    /// The entry's Unix permission bits, if the archive records any.
    pub unix_mode: Option<u32>,
    /// The entry's uncompressed contents.
    pub data: Vec<u8>,
}

/// An archive entry as plain values.
pub struct EntryView {
    pub name: Seq<char>,
    pub enclosed: Option<Seq<char>>,
    pub unix_mode: Option<u32>,
    pub data: Seq<u8>,
}

impl View for ArchiveEntry {
    type V = EntryView;

    open spec fn view(&self) -> EntryView {
        EntryView {
            name: self.name@,
            enclosed: match self.enclosed {
                Some(path) => Some(path@),
                None => None,
            },
            unix_mode: self.unix_mode,
            data: self.data@,
        }
    }
}

/// The entry made of a header and the contents that go with it.
pub open spec fn entry_of(header: HeaderView, data: Seq<u8>) -> EntryView {
    EntryView { name: header.name, enclosed: header.enclosed, unix_mode: header.unix_mode, data }
}

/// What an archive holds at one position of its directory: the entry's
/// header, or `None` where the header cannot be read, and the entry's
/// contents, or `None` where they cannot be read (they are encrypted,
/// compressed by an unsupported method, or damaged).
pub struct ItemView {
    pub header: Option<HeaderView>,
    pub data: Option<Seq<u8>>,
}

/// What an opened archive holds, position by position in directory order, as
/// the archive reader sees it on the platform the library is built for.
pub uninterp spec fn archive_items(archive: ZipArchive<Cursor<Vec<u8>>>) -> Seq<ItemView>;

/// What the archive made of `bytes` holds, or `None` where `bytes` are not a
/// zip archive.
pub uninterp spec fn zip_items(bytes: Seq<u8>) -> Option<Seq<ItemView>>;

/// Opens the archive held in `bytes`.
///
/// Trusted: calls `zip::ZipArchive::new` on an in-memory cursor. It succeeds
/// exactly on the byte strings that are zip archives, and what the opened
/// archive holds depends on the bytes alone.
#[verifier::external_body]
fn open_archive(bytes: Vec<u8>) -> (opened: Result<ZipArchive<Cursor<Vec<u8>>>, ZipError>)
    ensures
        match opened {
            Ok(archive) => zip_items(bytes@) == Some(archive_items(archive)),
            Err(_) => zip_items(bytes@) is None,
        },
{
    ZipArchive::new(Cursor::new(bytes))
}

/// The number of entries in the archive.
///
/// Trusted: calls `zip::ZipArchive::len`, the number of files the archive
/// contains.
#[verifier::external_body]
fn entry_count(archive: &ZipArchive<Cursor<Vec<u8>>>) -> (count: usize)
    ensures
        count == archive_items(*archive).len(),
{
    archive.len()
}

/// Reads the header of the entry at `index`: its recorded name, its enclosed
/// path and its mode. The contents are not touched.
///
/// Trusted: calls `zip::ZipArchive::by_index_raw`, then `ZipFile::name`,
/// `ZipFile::enclosed_name` and `ZipFile::unix_mode` on the entry. Reading
/// leaves what the archive holds unchanged and fails exactly where the header
/// cannot be read. The enclosed path, where the reader gives one, is the
/// recorded name.
#[verifier::external_body]
fn read_header(archive: &mut ZipArchive<Cursor<Vec<u8>>>, index: usize) -> (header: Result<
    EntryHeader,
    ZipError,
>)
    requires
        index < archive_items(*old(archive)).len(),
    ensures
        archive_items(*final(archive)) == archive_items(*old(archive)),
        match header {
            Ok(h) => archive_items(*old(archive))[index as int].header == Some(h@)
                && h@.names_itself(),
            Err(_) => archive_items(*old(archive))[index as int].header is None,
        },
{
    let file = archive.by_index_raw(index)?;
    Ok(EntryHeader {
        name: file.name().to_string(),
        enclosed: file.enclosed_name().and_then(|p| p.to_str()).map(|s| s.to_string()),
        unix_mode: file.unix_mode(),
    })
}

/// Reads the contents of the entry at `index`.
///
/// Trusted: calls `zip::ZipArchive::by_index_decrypt` with the empty
/// password, then `Read::read_to_end` on the entry. Reading leaves what the
/// archive holds unchanged and fails, in one of two ways, exactly where the
/// contents cannot be read.
#[verifier::external_body]
fn read_contents(archive: &mut ZipArchive<Cursor<Vec<u8>>>, index: usize) -> (contents: Result<
    Result<Vec<u8>, InvalidPassword>,
    ZipError,
>)
    requires
        index < archive_items(*old(archive)).len(),
    ensures
        archive_items(*final(archive)) == archive_items(*old(archive)),
        match contents {
            Ok(Ok(data)) => archive_items(*old(archive))[index as int].data == Some(data@),
            _ => archive_items(*old(archive))[index as int].data is None,
        },
{
    let mut file = match archive.by_index_decrypt(index, &[])? {
        Ok(file) => file,
        Err(refused) => return Ok(Err(refused)),
    };
    let mut data = Vec::new();
    std::io::Read::read_to_end(&mut file, &mut data)?;
    Ok(Ok(data))
}

/// Describes a failure reported by the zip reader.
///
/// Trusted: calls `to_string` on `zip::result::ZipError`. The wording is the
/// reader's own, so nothing is claimed about it.
#[verifier::external_body]
fn zip_error_text(error: &ZipError) -> String {
    error.to_string()
}

/// The entries that are unpacked from an archive holding `items`, in
/// directory order, or `None` where reading fails. Every header must be
/// readable. An entry that is skipped (its path is not enclosed or climbs out
/// of the folder) is passed over whatever its contents; the contents of every
/// other entry must be readable.
pub open spec fn unpacked(items: Seq<ItemView>) -> Option<Seq<EntryView>>
    decreases items.len(),
{
    if items.len() == 0 {
        Some(Seq::empty())
    } else {
        match (unpacked(items.drop_last()), items.last().header) {
            (Some(before), Some(header)) => if !header.is_unpacked() {
                Some(before)
            } else {
                match items.last().data {
                    Some(data) => Some(before.push(entry_of(header, data))),
                    None => None,
                }
            },
            _ => None,
        }
    }
}

/// The views of `entries`, in order.
pub open spec fn entry_views(entries: Seq<ArchiveEntry>) -> Seq<EntryView> {
    entries.map_values(|e: ArchiveEntry| e@)
}

/// What `read_archive` answers for an archive holding `items`, or for bytes
/// that are no archive: the unpacked entries where reading succeeds, a
/// failure otherwise.
pub open spec fn read_outcome(
    items: Option<Seq<ItemView>>,
    outcome: Result<Vec<ArchiveEntry>, String>,
) -> bool {
    match items {
        Some(items) => match unpacked(items) {
            Some(entries) => outcome matches Ok(read) && entry_views(read@) == entries,
            None => outcome is Err,
        },
        None => outcome is Err,
    }
}

/// Once reading has failed on the first entries, it has failed on all.
pub proof fn lemma_unpacked_stays_failed(items: Seq<ItemView>, k: int)
    requires
        0 <= k <= items.len(),
        unpacked(items.take(k)) is None,
    ensures
        unpacked(items) is None,
    decreases items.len() - k,
{
    if k < items.len() {
        assert(items.take(k + 1).drop_last() == items.take(k));
        lemma_unpacked_stays_failed(items, k + 1);
    } else {
        assert(items.take(k) == items);
    }
}

/// An entry that is skipped makes no difference, whether or not its contents
/// can be read: the archive unpacks as it would without it.
pub proof fn lemma_skipped_item_is_passed_over(
    before: Seq<ItemView>,
    item: ItemView,
    after: Seq<ItemView>,
)
    requires
        item.header matches Some(header) && !header.is_unpacked(),
    ensures
        unpacked(before.push(item) + after) == unpacked(before + after),
    decreases after.len(),
{
    if after.len() == 0 {
        assert(before.push(item) + after == before.push(item));
        assert(before + after == before);
        assert(before.push(item).drop_last() == before);
    } else {
        lemma_skipped_item_is_passed_over(before, item, after.drop_last());
        assert((before.push(item) + after).drop_last() == before.push(item) + after.drop_last());
        assert((before + after).drop_last() == before + after.drop_last());
    }
}

/// An entry whose recorded name climbs out of the folder is skipped, whatever
/// the archive reader makes of it, as long as the reader's enclosed path is
/// the recorded name wherever it gives one.
pub proof fn lemma_climbing_name_is_skipped(header: HeaderView)
    requires
        header.names_itself(),
        !stays_inside(header.name),
    ensures
        !header.is_unpacked(),
{
}

/// Reads the entries to unpack from the archive held in `bytes`, in directory
/// order. Entries whose path is not enclosed or climbs out of the folder are
/// left out, and their contents are not read. Fails, with a description of
/// the failure, when `bytes` are not a zip archive, when a header cannot be
/// read, or when the contents of an entry that is not left out cannot be read.
/// Every entry handed out has its recorded name as its enclosed path, and
/// that path stays inside the folder.
pub fn read_archive(bytes: Vec<u8>) -> (outcome: Result<Vec<ArchiveEntry>, String>)
    ensures
        read_outcome(zip_items(bytes@), outcome),
        outcome matches Ok(read) ==> forall|k: int|
            0 <= k < read@.len() ==> (#[trigger] read@[k])@.enclosed == Some(read@[k]@.name)
                && stays_inside(read@[k]@.name),
{
    let ghost raw = bytes@;
    let mut archive = match open_archive(bytes) {
        Ok(archive) => archive,
        Err(error) => {
            return Err(zip_error_text(&error));
        },
    };
    let ghost items = archive_items(archive);
    let count = entry_count(&archive);
    let mut entries: Vec<ArchiveEntry> = Vec::new();
    let mut i: usize = 0;
    assert(items.take(0) == Seq::<ItemView>::empty());
    while i < count
        invariant
            i <= count,
            count == items.len(),
            raw == bytes@,
            zip_items(raw) == Some(items),
            archive_items(archive) == items,
            unpacked(items.take(i as int)) == Some(entry_views(entries@)),
            forall|k: int|
                0 <= k < entries@.len() ==> (#[trigger] entries@[k])@.enclosed == Some(
                    entries@[k]@.name,
                ) && stays_inside(entries@[k]@.name),
        decreases count - i,
    {
        proof {
            assert(items.take(i + 1).drop_last() == items.take(i as int));
            assert(items.take(i + 1).last() == items[i as int]);
        }
        let header = match read_header(&mut archive, i) {
            Ok(header) => header,
            Err(error) => {
                proof {
                    lemma_unpacked_stays_failed(items, i + 1);
                }
                return Err(zip_error_text(&error));
            },
        };
        if has_safe_path(&header.enclosed) {
            let data = match read_contents(&mut archive, i) {
                Ok(Ok(data)) => data,
                Ok(Err(_)) => {
                    proof {
                        lemma_unpacked_stays_failed(items, i + 1);
                    }
                    return Err(String::from_str("an entry of the archive is encrypted"));
                },
                Err(error) => {
                    proof {
                        lemma_unpacked_stays_failed(items, i + 1);
                    }
                    return Err(zip_error_text(&error));
                },
            };
            let ghost before = entries@;
            let entry = ArchiveEntry {
                name: header.name,
                enclosed: header.enclosed,
                unix_mode: header.unix_mode,
                data,
            };
            entries.push(entry);
            proof {
                assert(entry@ == entry_of(header@, data@));
                assert(entry_views(entries@) =~= entry_views(before).push(entry@));
            }
        }
        i += 1;
    }
    proof {
        assert(items.take(items.len() as int) == items);
    }
    Ok(entries)
}

} // verus!
