//! Shape of the on-disk mod collection: folder names, install checks and the
//! writes that unpack an archive.

use vstd::prelude::*;
use vstd::string::{StrSliceExecFns, StringExecFns};
use crate::text::push_char;

verus! {

/// Why work on the mod collection failed.
#[derive(Debug, Clone, PartialEq, Eq)]
pub enum FsError {
    /// The archive could not be read, or a file or directory could not be
    /// written or deleted. The text describes the failure.
    Io(String),
    /// The mod's folder does not exist.
    NotFound,
}

impl FsError {
    /// The description shown to the user.
    pub open spec fn spec_text(self) -> Seq<char> {
        match self {
            FsError::Io(detail) => detail@,
            FsError::NotFound => "the mod's folder does not exist"@,
        }
    }

    /// Describes the failure.
    pub fn text(&self) -> (out: String)
        ensures
            out@ == self.spec_text(),
    {
        match self {
            FsError::Io(detail) => detail.clone(),
            FsError::NotFound => String::from_str("the mod's folder does not exist"),
        }
    }
}

/// What is kept between runs.
#[derive(Debug, Clone, PartialEq, Eq)]
pub struct SettingsPersistance {
    pub barony_directory_path: Option<String>,
    pub steam_api_key: Option<String>,
}

/// Characters that may not appear in a folder name on at least one supported
/// platform.
pub open spec fn is_forbidden_char(c: char) -> bool {
    c == '<' || c == '>' || c == ':' || c == '/' || c == '\\' || c == '|' || c == '?' || c == '*'
}

/// The folder name derived from a title: the title with every forbidden
/// character dropped and everything else kept in order.
pub open spec fn spec_clean_filename(s: Seq<char>) -> Seq<char> {
    s.filter(|c: char| !is_forbidden_char(c))
}

fn forbidden_char(c: char) -> (r: bool)
    ensures
        r == is_forbidden_char(c),
{
    c == '<' || c == '>' || c == ':' || c == '/' || c == '\\' || c == '|' || c == '?' || c == '*'
}

/// Removes the characters that would make the operating system reject a mod's
/// folder name.
pub fn clean_filename(filename: &str) -> (cleaned: String)
    ensures
        cleaned@ == spec_clean_filename(filename@),
        forall|i: int| 0 <= i < cleaned@.len() ==> !is_forbidden_char(#[trigger] cleaned@[i]),
{
    let mut cleaned = String::new();
    for c in it: filename.chars()
        invariant
            it.seq() == filename@,
            cleaned@ == spec_clean_filename(filename@.take(it.index() as int)),
    {
        proof {
            let k = it.index() as int;
            reveal(Seq::filter);
            assert(filename@.take(k + 1).drop_last() == filename@.take(k));
        }
        if !forbidden_char(c) {
            push_char(&mut cleaned, c);
        }
    }
    proof {
        assert(filename@.take(filename@.len() as int) == filename@);
        lemma_clean_filename_is_clean(filename@);
    }
    cleaned
}

impl Default for SettingsPersistance {
    /// The settings of a first run: nothing is known yet.
    fn default() -> (settings: SettingsPersistance)
        ensures
            settings.barony_directory_path is None,
            settings.steam_api_key is None,
    {
        SettingsPersistance { barony_directory_path: None, steam_api_key: None }
    }
}

/// A cleaned name holds no forbidden character.
pub proof fn lemma_clean_filename_is_clean(s: Seq<char>)
    ensures
        forall|i: int|
            0 <= i < spec_clean_filename(s).len() ==> !is_forbidden_char(
                #[trigger] spec_clean_filename(s)[i],
            ),
    decreases s.len(),
{
    reveal(Seq::filter);
    if s.len() > 0 {
        lemma_clean_filename_is_clean(s.drop_last());
    }
}

/// A name without forbidden characters is its own cleaned name.
pub proof fn lemma_clean_name_is_kept(s: Seq<char>)
    requires
        forall|i: int| 0 <= i < s.len() ==> !is_forbidden_char(#[trigger] s[i]),
    ensures
        spec_clean_filename(s) == s,
    decreases s.len(),
{
    reveal(Seq::filter);
    if s.len() > 0 {
        lemma_clean_name_is_kept(s.drop_last());
        assert(s.drop_last().push(s.last()) == s);
    }
}

/// Cleaning a name twice gives what cleaning it once gives.
pub proof fn lemma_clean_filename_idempotent(s: Seq<char>)
    ensures
        spec_clean_filename(spec_clean_filename(s)) == spec_clean_filename(s),
{
    lemma_clean_filename_is_clean(s);
    lemma_clean_name_is_kept(spec_clean_filename(s));
}

/// Two titles that clean to the same name share one folder.
pub proof fn lemma_folder_depends_on_clean_name(
    barony_path: Seq<char>,
    first: Seq<char>,
    second: Seq<char>,
)
    requires
        spec_clean_filename(first) == spec_clean_filename(second),
    ensures
        spec_mod_folder(barony_path, first) == spec_mod_folder(barony_path, second),
{
}

/// `rel` placed under `base`: a `/` goes between the two unless `base` is empty
/// or already ends in one.
pub open spec fn spec_join(base: Seq<char>, rel: Seq<char>) -> Seq<char> {
    if base.len() == 0 || base.last() == '/' {
        base + rel
    } else {
        base + "/"@ + rel
    }
}

/// The directory that holds one folder per installed mod.
pub open spec fn spec_mods_dir(barony_path: Seq<char>) -> Seq<char> {
    spec_join(barony_path, "mods/"@)
}

/// Whether `name` can name a folder of its own: it is not empty and is
/// neither of the two names that stand for a directory itself and for its
/// parent.
pub open spec fn names_a_folder(name: Seq<char>) -> bool {
    name.len() > 0 && name != "."@ && name != ".."@
}

/// The folder of the mod titled `mod_title`: the cleaned title, directly under
/// the mods directory. A title whose cleaned form cannot name a folder has
/// none.
pub open spec fn spec_mod_folder(barony_path: Seq<char>, mod_title: Seq<char>) -> Option<
    Seq<char>,
> {
    let name = spec_clean_filename(mod_title);
    if names_a_folder(name) {
        Some(spec_mods_dir(barony_path) + name + "/"@)
    } else {
        None
    }
}

/// Places `rel` under `base`.
pub fn join_path(base: &str, rel: &str) -> (joined: String)
    ensures
        joined@ == spec_join(base@, rel@),
{
    let n = base.unicode_len();
    let mut joined = String::from_str(base);
    if n > 0 && base.get_char(n - 1) != '/' {
        joined.append("/");
    }
    joined.append(rel);
    joined
}

/// The path of the directory that holds the installed mods.
pub fn mods_dir(barony_path: &str) -> (dir: String)
    ensures
        dir@ == spec_mods_dir(barony_path@),
{
    join_path(barony_path, "mods/")
}

/// The path of the folder that belongs to the mod titled `mod_title`, if the
/// title leaves a name that a folder can have.
pub fn mod_folder(barony_path: &str, mod_title: &str) -> (folder: Option<String>)
    ensures
        match folder {
            Some(path) => spec_mod_folder(barony_path@, mod_title@) == Some(path@),
            None => spec_mod_folder(barony_path@, mod_title@) is None,
        },
{
    let name = clean_filename(mod_title);
    if name.as_str().is_empty() || name == String::from_str(".") || name == String::from_str("..") {
        None
    } else {
        let mut path = mods_dir(barony_path);
        path.append(name.as_str());
        path.append("/");
        Some(path)
    }
}

/// Whether anything exists at `path`.
///
/// Trusted: calls `std::path::Path::exists`. The answer depends on the disk, so
/// nothing is claimed about it.
#[verifier::external_body]
fn path_exists(path: &str) -> bool {
    std::path::Path::new(path).exists()
}

/// Whether `path` names a directory.
///
/// Trusted: calls `std::path::Path::is_dir`. The answer depends on the disk, so
/// nothing is claimed about it.
#[verifier::external_body]
fn path_is_dir(path: &str) -> bool {
    std::path::Path::new(path).is_dir()
}

/// The verdict on an install directory, from what was found on disk: the
/// directory and its `mods/` subdirectory must both exist and be directories.
pub fn install_dir_verdict(
    root_exists: bool,
    root_is_dir: bool,
    mods_exists: bool,
    mods_is_dir: bool,
) -> (valid: bool)
    ensures
        valid == (root_exists && root_is_dir && mods_exists && mods_is_dir),
{
    root_exists && root_is_dir && mods_exists && mods_is_dir
}

/// Whether `dir` is a usable install directory: it exists, is a directory and
/// holds a `mods/` subdirectory. Looks at the disk, at `dir` and at its
/// `mods/` and nowhere else; the empty path names no directory and is
/// answered without looking.
pub fn barony_dir_valid(dir: &str) -> (valid: bool)
    ensures
        dir@.len() == 0 ==> !valid,
{
    if dir.is_empty() {
        return false;
    }
    let mods = mods_dir(dir);
    install_dir_verdict(
        path_exists(dir),
        path_is_dir(dir),
        path_exists(mods.as_str()),
        path_is_dir(mods.as_str()),
    )
}

/// The verdict on whether a mod is installed, from what was found on disk: a
/// mod without a folder name is never installed, any other is installed when
/// its folder exists.
pub fn install_verdict(folder: &Option<String>, folder_exists: bool) -> (installed: bool)
    ensures
        installed == (folder is Some && folder_exists),
{
    match folder {
        Some(_) => folder_exists,
        None => false,
    }
}

/// Whether the mod titled `mod_title` is installed under `barony_path`. Looks
/// at the disk, at the mod's folder and nowhere else; a title without a folder
/// name (the empty title among them) is reported as not installed without
/// looking.
pub fn is_mod_downloaded(barony_path: &str, mod_title: &str) -> (installed: bool)
    ensures
        spec_mod_folder(barony_path@, mod_title@) is None ==> !installed,
        mod_title@.len() == 0 ==> !installed,
{
    let folder = mod_folder(barony_path, mod_title);
    let found = match &folder {
        Some(path) => path_exists(path.as_str()),
        None => false,
    };
    proof {
        if mod_title@.len() == 0 {
            reveal(Seq::filter);
        }
    }
    install_verdict(&folder, found)
}

/// The manager's own directory under the user's data directory.
pub open spec fn spec_settings_dir(data_dir: Seq<char>) -> Seq<char> {
    spec_join(data_dir, "barony-mod-manager"@)
}

/// The settings file inside the manager's own directory.
pub open spec fn spec_settings_file(data_dir: Seq<char>) -> Seq<char> {
    spec_join(spec_settings_dir(data_dir), "settings.json"@)
}

/// The path of the manager's own directory under the user's data directory.
pub fn settings_dir(data_dir: &str) -> (dir: String)
    ensures
        dir@ == spec_settings_dir(data_dir@),
{
    join_path(data_dir, "barony-mod-manager")
}

/// The path of the settings file under the user's data directory.
pub fn settings_file(data_dir: &str) -> (file: String)
    ensures
        file@ == spec_settings_file(data_dir@),
{
    let dir = settings_dir(data_dir);
    join_path(dir.as_str(), "settings.json")
}

} // verus!
