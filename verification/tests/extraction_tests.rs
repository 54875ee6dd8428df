use std::io::{Cursor, Read, Write};
use std::path::Path;

use barony_mod_manager::archive::{read_archive, ArchiveEntry};
use barony_mod_manager::containment::is_inside;
use barony_mod_manager::data::{BaronyMod, DownloadStatus, SteamWorkshopMod, SteamWorkshopVoteData};
use barony_mod_manager::events::{installed_message, polled_message, queued_message, removal_message};
use barony_mod_manager::extraction::{
    deletion_failure, extraction_plan, is_directory_name, plan_entry, plan_writes, removal_target,
    WriteOp,
};
use barony_mod_manager::filesystem::{barony_dir_valid, is_mod_downloaded, FsError};
use barony_mod_manager::manager::{BaronyModManager, Command};
use barony_mod_manager::filesystem::SettingsPersistance;
use barony_mod_manager::steam_api::build_barony_mod;
use barony_mod_manager::widgets::Message;
use tempfile::{Builder, NamedTempFile, TempDir};
use zip::write::FileOptions;
use zip::{CompressionMethod, ZipWriter};

enum Item<'a> {
    File(&'a str, &'a [u8], Option<u32>),
    Dir(&'a str),
}

fn archive_of(items: &[Item]) -> Vec<u8> {
    let mut writer = ZipWriter::new(Cursor::new(Vec::new()));
    for item in items {
        match item {
            Item::File(name, data, mode) => {
                let mut options =
                    FileOptions::default().compression_method(CompressionMethod::Deflated);
                if let Some(mode) = mode {
                    options = options.unix_permissions(*mode);
                }
                writer.start_file(*name, options).unwrap();
                writer.write_all(data).unwrap();
            }
            Item::Dir(name) => {
                writer.add_directory(*name, FileOptions::default()).unwrap();
            }
        }
    }
    writer.finish().unwrap().into_inner()
}

struct Written {
    dirs: Vec<TempDir>,
    files: Vec<NamedTempFile>,
}

fn make_dirs(path: &Path, written: &mut Written) {
    if path.exists() {
        return;
    }
    let parent = path.parent().unwrap();
    make_dirs(parent, written);
    let name = path.file_name().unwrap();
    written.dirs.push(Builder::new().prefix(name).rand_bytes(0).tempdir_in(parent).unwrap());
}

fn carry_out(ops: &[WriteOp], written: &mut Written) {
    for op in ops {
        match op {
            WriteOp::CreateDir { path, .. } => make_dirs(Path::new(path), written),
            WriteOp::WriteFile { path, data, .. } => {
                let path = Path::new(path);
                let parent = path.parent().unwrap();
                make_dirs(parent, written);
                let name = path.file_name().unwrap();
                let mut file =
                    Builder::new().prefix(name).rand_bytes(0).tempfile_in(parent).unwrap();
                file.write_all(data).unwrap();
                file.flush().unwrap();
                written.files.push(file);
            }
        }
    }
}

fn install_dir() -> (TempDir, TempDir, String) {
    let root = tempfile::tempdir().unwrap();
    let mods = Builder::new().prefix("mods").rand_bytes(0).tempdir_in(root.path()).unwrap();
    let dir = root.path().to_str().unwrap().to_string();
    (root, mods, dir)
}

fn entry(name: &str, enclosed: Option<&str>, mode: Option<u32>, data: &[u8]) -> ArchiveEntry {
    ArchiveEntry {
        name: name.to_string(),
        enclosed: enclosed.map(|p| p.to_string()),
        unix_mode: mode,
        data: data.to_vec(),
    }
}

#[test]
fn read_archive_lists_every_entry_in_order() {
    let bytes = archive_of(&[
        Item::Dir("docs/"),
        Item::File("docs/readme.txt", b"hello", Some(0o644)),
        Item::File("run.sh", b"#!/bin/sh\n", Some(0o755)),
    ]);
    let entries = read_archive(bytes).unwrap();
    assert_eq!(entries.len(), 3);
    assert_eq!(entries[0].name, "docs/");
    assert_eq!(entries[0].enclosed, Some("docs/".to_string()));
    assert!(entries[0].data.is_empty());
    assert_eq!(entries[1].name, "docs/readme.txt");
    assert_eq!(entries[1].enclosed, Some("docs/readme.txt".to_string()));
    assert_eq!(entries[1].data, b"hello".to_vec());
    assert_eq!(entries[1].unix_mode.map(|m| m & 0o777), Some(0o644));
    assert_eq!(entries[2].name, "run.sh");
    assert_eq!(entries[2].data, b"#!/bin/sh\n".to_vec());
    assert_eq!(entries[2].unix_mode.map(|m| m & 0o777), Some(0o755));
}

#[test]
fn read_archive_leaves_out_escaping_entries() {
    let bytes = archive_of(&[
        Item::File("../../evil", b"x", None),
        Item::File("/etc/passwd", b"y", None),
        Item::File("fine.txt", b"z", None),
        Item::File("a/../../b", b"w", None),
    ]);
    let entries = read_archive(bytes).unwrap();
    assert_eq!(entries.len(), 1);
    assert_eq!(entries[0].name, "fine.txt");
    assert_eq!(entries[0].enclosed, Some("fine.txt".to_string()));
    assert_eq!(entries[0].data, b"z".to_vec());
}

fn damage_contents_of(bytes: &mut Vec<u8>, name: &[u8]) {
    let at = bytes.windows(name.len()).position(|w| w == name).unwrap() + name.len();
    bytes[at] ^= 0xff;
    bytes[at + 1] ^= 0xff;
}

#[test]
fn damaged_contents_of_a_skipped_entry_do_not_matter() {
    let mut bytes = archive_of(&[
        Item::File("../../evil", b"some content to damage", None),
        Item::File("kept.txt", b"kept", None),
    ]);
    damage_contents_of(&mut bytes, b"../../evil");
    let entries = read_archive(bytes.clone()).unwrap();
    assert_eq!(entries.len(), 1);
    assert_eq!(entries[0].name, "kept.txt");
    assert_eq!(entries[0].data, b"kept".to_vec());
    let ops = extraction_plan("/games/barony", "Foo", bytes).unwrap();
    assert_eq!(ops.len(), 2);
}

fn le16(n: u16) -> Vec<u8> {
    n.to_le_bytes().to_vec()
}

fn le32(n: u32) -> Vec<u8> {
    n.to_le_bytes().to_vec()
}

fn central_record(name: &[u8], extra: &[u8], flags: u16, method: u16, crc: u32, size: u32, offset: u32) -> Vec<u8> {
    let mut record = Vec::new();
    record.extend(le32(0x0201_4b50));
    record.extend(le16(20));
    record.extend(le16(20));
    record.extend(le16(flags));
    record.extend(le16(method));
    record.extend(le16(0));
    record.extend(le16(0x21));
    record.extend(le32(crc));
    record.extend(le32(size));
    record.extend(le32(size));
    record.extend(le16(name.len() as u16));
    record.extend(le16(extra.len() as u16));
    record.extend(le16(0));
    record.extend(le16(0));
    record.extend(le16(0));
    record.extend(le32(0));
    record.extend(le32(offset));
    record.extend_from_slice(name);
    record.extend_from_slice(extra);
    record
}

fn local_record(name: &[u8], flags: u16, method: u16, crc: u32, data: &[u8]) -> Vec<u8> {
    let mut record = Vec::new();
    record.extend(le32(0x0403_4b50));
    record.extend(le16(20));
    record.extend(le16(flags));
    record.extend(le16(method));
    record.extend(le16(0));
    record.extend(le16(0x21));
    record.extend(le32(crc));
    record.extend(le32(data.len() as u32));
    record.extend(le32(data.len() as u32));
    record.extend(le16(name.len() as u16));
    record.extend(le16(0));
    record.extend_from_slice(name);
    record.extend_from_slice(data);
    record
}

fn end_record(entries: u16, directory_size: u32, directory_offset: u32) -> Vec<u8> {
    let mut record = Vec::new();
    record.extend(le32(0x0605_4b50));
    record.extend(le16(0));
    record.extend(le16(0));
    record.extend(le16(entries));
    record.extend(le16(entries));
    record.extend(le32(directory_size));
    record.extend(le32(directory_offset));
    record.extend(le16(0));
    record
}

#[test]
fn hand_made_archive_is_read() {
    let mut bytes = local_record(b"a", 0, 0, 0xe8b7_be43, b"a");
    let directory_offset = bytes.len() as u32;
    let directory = central_record(b"a", &[], 0, 0, 0xe8b7_be43, 1, 0);
    bytes.extend_from_slice(&directory);
    bytes.extend(end_record(1, directory.len() as u32, directory_offset));
    let entries = read_archive(bytes).unwrap();
    assert_eq!(entries.len(), 1);
    assert_eq!(entries[0].name, "a");
    assert_eq!(entries[0].data, b"a".to_vec());
}

#[test]
fn header_offset_beyond_all_bounds_is_refused() {
    let mut extra = Vec::new();
    extra.extend(le16(1));
    extra.extend(le16(8));
    extra.extend_from_slice(&u64::MAX.to_le_bytes());
    let directory = central_record(b"a", &extra, 0, 0, 0, 0, u32::MAX);
    assert_eq!(directory.len(), 59);
    let mut bytes = vec![0u8];
    bytes.extend_from_slice(&directory);
    bytes.extend(end_record(1, 59, 0));
    assert_eq!(bytes.len(), 82);
    assert!(read_archive(bytes.clone()).is_err());
    assert!(matches!(extraction_plan("/games/barony", "Foo", bytes), Err(FsError::Io(_))));
}

#[test]
fn entry_marked_for_a_cipher_without_being_encrypted_is_refused() {
    let mut extra = Vec::new();
    extra.extend(le16(0x9901));
    extra.extend(le16(7));
    extra.extend(le16(2));
    extra.extend_from_slice(b"AE");
    extra.push(3);
    extra.extend(le16(0));
    let mut bytes = local_record(b"a", 0, 0, 0xe8b7_be43, b"a");
    let directory_offset = bytes.len() as u32;
    let directory = central_record(b"a", &extra, 0, 0, 0xe8b7_be43, 1, 0);
    bytes.extend_from_slice(&directory);
    bytes.extend(end_record(1, directory.len() as u32, directory_offset));
    assert!(read_archive(bytes).is_err());
}

#[test]
fn encrypted_entry_is_refused() {
    let mut bytes = local_record(b"a", 1, 0, 0xe8b7_be43, b"0123456789abcdef");
    let directory_offset = bytes.len() as u32;
    let directory = central_record(b"a", &[], 1, 0, 0xe8b7_be43, 16, 0);
    bytes.extend_from_slice(&directory);
    bytes.extend(end_record(1, directory.len() as u32, directory_offset));
    assert!(read_archive(bytes).is_err());
}

#[test]
fn read_archive_accepts_empty_archive() {
    let entries = read_archive(archive_of(&[])).unwrap();
    assert!(entries.is_empty());
}

#[test]
fn read_archive_rejects_bytes_that_are_no_archive() {
    assert!(read_archive(b"this is not a zip file".to_vec()).is_err());
    assert!(read_archive(Vec::new()).is_err());
}

#[test]
fn read_archive_rejects_damaged_entry() {
    let mut bytes = archive_of(&[Item::File("a.txt", b"some content to damage", None)]);
    damage_contents_of(&mut bytes, b"a.txt");
    assert!(read_archive(bytes).is_err());
}

#[test]
fn directory_names_end_in_a_slash() {
    assert!(is_directory_name("docs/"));
    assert!(is_directory_name("/"));
    assert!(!is_directory_name("docs"));
    assert!(!is_directory_name(""));
    assert!(!is_directory_name("docs/readme.txt"));
}

#[test]
fn plan_entry_places_entries_under_folder() {
    let file = plan_entry("/b/mods/Foo/", entry("a/b.txt", Some("a/b.txt"), Some(0o644), b"hi"));
    assert_eq!(
        file,
        Some(WriteOp::WriteFile {
            path: "/b/mods/Foo/a/b.txt".to_string(),
            data: b"hi".to_vec(),
            mode: Some(0o644),
        })
    );
    let dir = plan_entry("/b/mods/Foo", entry("a/", Some("a/"), None, b""));
    assert_eq!(dir, Some(WriteOp::CreateDir { path: "/b/mods/Foo/a/".to_string(), mode: None }));
}

#[test]
fn plan_entry_skips_unsafe_entries() {
    assert_eq!(plan_entry("/b/mods/Foo/", entry("../../evil", None, None, b"x")), None);
    assert_eq!(plan_entry("/b/mods/Foo/", entry("../evil", Some("../evil"), None, b"x")), None);
    assert_eq!(plan_entry("/b/mods/Foo/", entry("/evil", Some("/evil"), None, b"x")), None);
    assert_eq!(plan_entry("/b/mods/Foo/", entry("a/../../evil", Some("a/../../evil"), None, b"x")), None);
}

#[test]
fn plan_writes_starts_with_the_folder() {
    let ops = plan_writes("/b/mods/Foo/", Vec::new());
    assert_eq!(ops, vec![WriteOp::CreateDir { path: "/b/mods/Foo/".to_string(), mode: None }]);
}

#[test]
fn plan_writes_keeps_archive_order_and_skips_unsafe_entries() {
    let ops = plan_writes(
        "/b/mods/Foo/",
        vec![
            entry("one.txt", Some("one.txt"), None, b"1"),
            entry("../../evil", None, None, b"x"),
            entry("sub/", Some("sub/"), Some(0o755), b""),
            entry("sub/two.txt", Some("sub/two.txt"), None, b"2"),
        ],
    );
    assert_eq!(
        ops,
        vec![
            WriteOp::CreateDir { path: "/b/mods/Foo/".to_string(), mode: None },
            WriteOp::WriteFile {
                path: "/b/mods/Foo/one.txt".to_string(),
                data: b"1".to_vec(),
                mode: None,
            },
            WriteOp::CreateDir { path: "/b/mods/Foo/sub/".to_string(), mode: Some(0o755) },
            WriteOp::WriteFile {
                path: "/b/mods/Foo/sub/two.txt".to_string(),
                data: b"2".to_vec(),
                mode: None,
            },
        ]
    );
}

#[test]
fn extraction_plan_unpacks_into_cleaned_folder() {
    let bytes = archive_of(&[
        Item::File("a.txt", b"alpha", None),
        Item::File("nested/b.txt", b"beta", None),
    ]);
    let ops = extraction_plan("/games/barony", "Foo/Bar", bytes).unwrap();
    assert_eq!(ops.len(), 3);
    assert_eq!(
        ops[0],
        WriteOp::CreateDir { path: "/games/barony/mods/FooBar/".to_string(), mode: None }
    );
    match &ops[1] {
        WriteOp::WriteFile { path, data, .. } => {
            assert_eq!(path, "/games/barony/mods/FooBar/a.txt");
            assert_eq!(data, &b"alpha".to_vec());
        }
        other => panic!("unexpected {:?}", other),
    }
    match &ops[2] {
        WriteOp::WriteFile { path, data, .. } => {
            assert_eq!(path, "/games/barony/mods/FooBar/nested/b.txt");
            assert_eq!(data, &b"beta".to_vec());
        }
        other => panic!("unexpected {:?}", other),
    }
}

#[test]
fn extraction_plan_skips_path_escape_and_keeps_the_rest() {
    let bytes = archive_of(&[
        Item::File("../../evil", b"x", None),
        Item::File("good.txt", b"ok", None),
    ]);
    let ops = extraction_plan("/games/barony", "Foo", bytes).unwrap();
    assert_eq!(ops.len(), 2);
    for op in &ops {
        let path = match op {
            WriteOp::CreateDir { path, .. } => path,
            WriteOp::WriteFile { path, .. } => path,
        };
        assert!(path.starts_with("/games/barony/mods/Foo/"));
        assert!(!path.contains(".."));
    }
    match &ops[1] {
        WriteOp::WriteFile { path, data, .. } => {
            assert_eq!(path, "/games/barony/mods/Foo/good.txt");
            assert_eq!(data, &b"ok".to_vec());
        }
        other => panic!("unexpected {:?}", other),
    }
}

#[test]
fn extraction_plan_fails_on_invalid_archive() {
    let outcome = extraction_plan("/games/barony", "Foo", b"garbage".to_vec());
    assert!(matches!(outcome, Err(FsError::Io(_))));
}

#[test]
fn extraction_plan_fails_for_title_without_folder_name() {
    let bytes = archive_of(&[Item::File("a.txt", b"alpha", None)]);
    assert!(matches!(extraction_plan("/games/barony", "", bytes.clone()), Err(FsError::Io(_))));
    assert!(matches!(extraction_plan("/games/barony", "<>:?*", bytes.clone()), Err(FsError::Io(_))));
    assert!(matches!(extraction_plan("/games/barony", "..", bytes.clone()), Err(FsError::Io(_))));
    assert!(matches!(extraction_plan("/games/barony", "/./", bytes), Err(FsError::Io(_))));
}

#[test]
fn removal_target_is_the_cleaned_folder() {
    assert_eq!(
        removal_target("/games/barony", "Foo/Bar"),
        Ok("/games/barony/mods/FooBar/".to_string())
    );
    assert_eq!(removal_target("/games/barony", ""), Err(FsError::NotFound));
    assert_eq!(removal_target("/games/barony", "///"), Err(FsError::NotFound));
    assert_eq!(removal_target("/games/barony", ".."), Err(FsError::NotFound));
    assert_eq!(removal_target("/games/barony", "."), Err(FsError::NotFound));
}

#[test]
fn paths_inside_and_outside() {
    assert!(is_inside(""));
    assert!(is_inside("a"));
    assert!(is_inside("a/b/c.txt"));
    assert!(is_inside("a/../b"));
    assert!(is_inside("./a"));
    assert!(is_inside("a//b"));
    assert!(is_inside("a/.."));
    assert!(is_inside("a/b/../../c"));
    assert!(is_inside("..a/b"));
    assert!(is_inside("a/..."));
    assert!(!is_inside(".."));
    assert!(!is_inside("../a"));
    assert!(!is_inside("../../evil"));
    assert!(!is_inside("a/../../b"));
    assert!(!is_inside("/a"));
    assert!(!is_inside("/"));
    assert!(!is_inside("a/b/../../../c"));
    assert!(!is_inside("./.."));
}

#[test]
fn valid_install_directory_needs_mods_folder() {
    let root = tempfile::tempdir().unwrap();
    let dir = root.path().to_str().unwrap().to_string();
    assert!(!barony_dir_valid(&dir));
    let _mods = Builder::new().prefix("mods").rand_bytes(0).tempdir_in(root.path()).unwrap();
    assert!(barony_dir_valid(&dir));
    let trailing = format!("{}/", dir);
    assert!(barony_dir_valid(&trailing));
}

#[test]
fn install_directory_with_mods_file_is_invalid() {
    let root = tempfile::tempdir().unwrap();
    let dir = root.path().to_str().unwrap().to_string();
    let _file = Builder::new().prefix("mods").rand_bytes(0).tempfile_in(root.path()).unwrap();
    assert!(!barony_dir_valid(&dir));
}

#[test]
fn file_is_not_a_valid_install_directory() {
    let root = tempfile::tempdir().unwrap();
    let file = Builder::new().prefix("barony").rand_bytes(0).tempfile_in(root.path()).unwrap();
    assert!(!barony_dir_valid(file.path().to_str().unwrap()));
}

#[test]
fn installed_mod_is_found_by_cleaned_title() {
    let (_root, mods, dir) = install_dir();
    assert!(!is_mod_downloaded(&dir, "Foo/Bar"));
    let _folder = Builder::new().prefix("FooBar").rand_bytes(0).tempdir_in(mods.path()).unwrap();
    assert!(is_mod_downloaded(&dir, "Foo/Bar"));
    assert!(is_mod_downloaded(&dir, "FooBar"));
    assert!(is_mod_downloaded(&dir, "Foo?Bar*"));
    assert!(!is_mod_downloaded(&dir, "Foo"));
}

#[test]
fn title_without_folder_name_is_never_installed() {
    let (_root, _mods, dir) = install_dir();
    assert!(!is_mod_downloaded(&dir, ""));
    assert!(!is_mod_downloaded(&dir, "///"));
    assert!(!is_mod_downloaded(&dir, "<>:|?*\\"));
    assert!(!is_mod_downloaded(&dir, "."));
    assert!(!is_mod_downloaded(&dir, ".."));
    assert!(!is_mod_downloaded(&dir, "../"));
}

#[test]
fn extraction_then_install_check_agree() {
    let (_root, _mods, dir) = install_dir();
    let bytes = archive_of(&[Item::File("a.txt", b"alpha", None)]);
    let ops = extraction_plan(&dir, "My: Mod?", bytes).unwrap();
    let mut written = Written { dirs: Vec::new(), files: Vec::new() };
    carry_out(&ops, &mut written);
    assert!(is_mod_downloaded(&dir, "My: Mod?"));
    let target = removal_target(&dir, "My: Mod?").unwrap();
    assert!(Path::new(&target).is_dir());
    written.files.clear();
    written.dirs.clear();
    assert!(!is_mod_downloaded(&dir, "My: Mod?"));
}

#[test]
fn empty_archive_still_installs_the_folder() {
    let (_root, _mods, dir) = install_dir();
    let ops = extraction_plan(&dir, "Empty", archive_of(&[])).unwrap();
    let mut written = Written { dirs: Vec::new(), files: Vec::new() };
    carry_out(&ops, &mut written);
    assert!(is_mod_downloaded(&dir, "Empty"));
}

#[test]
fn path_escape_writes_nothing_outside_the_folder() {
    let (root, _mods, dir) = install_dir();
    let bytes = archive_of(&[
        Item::File("../../evil", b"x", None),
        Item::File("kept.txt", b"kept", None),
    ]);
    let ops = extraction_plan(&dir, "Safe", bytes).unwrap();
    let mut written = Written { dirs: Vec::new(), files: Vec::new() };
    carry_out(&ops, &mut written);
    assert!(root.path().join("mods/Safe/kept.txt").is_file());
    assert!(!root.path().join("evil").exists());
    assert!(!root.path().parent().unwrap().join("evil").exists());
    assert!(!root.path().join("mods/evil").exists());
}

#[test]
fn catalogue_entry_is_listed_with_status_from_disk() {
    let (_root, mods, dir) = install_dir();
    let _folder = Builder::new().prefix("Present").rand_bytes(0).tempdir_in(mods.path()).unwrap();
    let record = |id: &str, title: &str| SteamWorkshopMod {
        id: id.to_string(),
        title: title.to_string(),
        file_size: 1,
        preview_url: String::new(),
        description: String::new(),
        tags: vec!["maps".to_string()],
        votes: SteamWorkshopVoteData { up: 1, down: 2 },
        views: 3,
        time_created: 4,
        time_updated: 5,
    };
    let present = build_barony_mod(&dir, record("1", "Present"));
    assert_eq!(present.download_status, DownloadStatus::Downloaded);
    assert_eq!(present.workshop, record("1", "Present"));
    let absent = build_barony_mod(&dir, record("2", "Absent"));
    assert_eq!(absent.download_status, DownloadStatus::NotDownloaded);
    let unnamed = build_barony_mod(&dir, record("3", ""));
    assert_eq!(unnamed.download_status, DownloadStatus::NotDownloaded);
}

#[test]
fn download_runs_end_to_end() {
    let (root, _mods, dir) = install_dir();
    let record = SteamWorkshopMod {
        id: "42".to_string(),
        title: "Foo/Bar".to_string(),
        file_size: 10,
        preview_url: String::new(),
        description: String::new(),
        tags: Vec::new(),
        votes: SteamWorkshopVoteData { up: 0, down: 0 },
        views: 0,
        time_created: 0,
        time_updated: 0,
    };
    let settings =
        SettingsPersistance { barony_directory_path: Some(dir.clone()), steam_api_key: None };
    let (mut state, start) = BaronyModManager::new(settings);
    assert_eq!(start, Command::ScheduleLoad);
    assert!(state.barony_dir_valid);
    let built: BaronyMod = build_barony_mod(&dir, record);
    assert_eq!(built.download_status, DownloadStatus::NotDownloaded);
    assert_eq!(state.update(Message::LoadMods), Command::FetchMods(1));
    state.update(Message::ModBuilt(1, built));

    let id = "42".to_string();
    let mut cmd = state.update(Message::DownloadMod(id.clone()));
    assert_eq!(cmd, Command::QueueDownload { id: id.clone(), item_id: 42, attempt: 1 });
    cmd = state.update(queued_message(id.clone(), 1, Ok("abc".to_string())));
    assert_eq!(cmd, Command::CheckStatus { id: id.clone(), uuid: "abc".to_string(), attempt: 1 });
    cmd = state.update(polled_message(id.clone(), "abc".to_string(), 1, Ok(false)));
    assert_eq!(cmd, Command::CheckStatus { id: id.clone(), uuid: "abc".to_string(), attempt: 1 });
    assert_eq!(state.mods.as_ref().unwrap()[0].download_status, DownloadStatus::Preparing);
    cmd = state.update(polled_message(id.clone(), "abc".to_string(), 1, Ok(true)));
    assert_eq!(state.mods.as_ref().unwrap()[0].download_status, DownloadStatus::Downloading);
    let (barony_dir, mod_title) = match cmd {
        Command::DownloadMod { id: sent, uuid, attempt, barony_dir, mod_title } => {
            assert_eq!(sent, "42");
            assert_eq!(uuid, "abc");
            assert_eq!(attempt, 1);
            (barony_dir, mod_title)
        }
        other => panic!("unexpected {:?}", other),
    };
    assert_eq!(barony_dir, dir);
    assert_eq!(mod_title, "Foo/Bar");

    let bytes = archive_of(&[
        Item::File("first.txt", b"one", None),
        Item::File("second.txt", b"two", None),
    ]);
    let ops = extraction_plan(&barony_dir, &mod_title, bytes).unwrap();
    let mut written = Written { dirs: Vec::new(), files: Vec::new() };
    carry_out(&ops, &mut written);
    cmd = state.update(installed_message(id.clone(), 1, Ok(())));
    assert_eq!(cmd, Command::Nothing);
    assert_eq!(state.mods.as_ref().unwrap()[0].download_status, DownloadStatus::Downloaded);

    let folder = root.path().join("mods").join("FooBar");
    assert!(folder.is_dir());
    assert!(folder.join("first.txt").is_file());
    assert!(folder.join("second.txt").is_file());
    assert_eq!(written.files.len(), 2);
    let mut content = String::new();
    written.files[0].reopen().unwrap().read_to_string(&mut content).unwrap();
    assert_eq!(content, "one");
    assert!(is_mod_downloaded(&dir, "Foo/Bar"));

    cmd = state.update(Message::RemoveMod(id.clone()));
    let target = match cmd {
        Command::RemoveMod { barony_dir, mod_title, .. } => {
            removal_target(&barony_dir, &mod_title).unwrap()
        }
        other => panic!("unexpected {:?}", other),
    };
    assert_eq!(Path::new(&target), folder.join(""));
    written.files.clear();
    written.dirs.clear();
    cmd = state.update(removal_message(id, Ok(())));
    assert_eq!(cmd, Command::Nothing);
    assert_eq!(state.mods.as_ref().unwrap()[0].download_status, DownloadStatus::NotDownloaded);
    assert!(!is_mod_downloaded(&dir, "Foo/Bar"));
}

#[test]
fn missing_folder_is_told_apart_from_other_failures() {
    assert_eq!(deletion_failure(true, "No such file or directory".to_string()), FsError::NotFound);
    assert_eq!(
        deletion_failure(false, "permission denied".to_string()),
        FsError::Io("permission denied".to_string())
    );
}
