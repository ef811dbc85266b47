//! Decisions of the installer: where the old tree is kept, which single
//! directory an archive unpacks to, and which configuration entries move over.
use vstd::prelude::*;
use crate::text::{find_char, first_index, slice_string, str_eq};
use crate::error::UpdateError;

verus! {

/// Name for the entry names that `zip::ZipArchive` lists for an archive's bytes,
/// or none where the bytes do not open as an archive.
pub uninterp spec fn zip_listing(b: Seq<u8>) -> Option<Seq<Seq<char>>>;

/// `zip::result::ZipError`, why an archive could not be read, carried through opaque.
#[verifier::external_type_specification]
#[verifier::external_body]
pub struct ExZipError(zip::result::ZipError);

/// Relies on `zip::ZipArchive::new` and `ZipArchive::file_names`: the names of
/// the entries in the archive's central directory, in their stored order.
#[verifier::external_body]
fn zip_entry_names(bytes: &[u8]) -> (r: Result<Vec<String>, zip::result::ZipError>)
    ensures
        r is Ok <==> zip_listing(bytes@) is Some,
        r matches Ok(v) ==> v@.map_values(|s: String| s@) == zip_listing(bytes@)->Some_0,
{
    let archive = zip::ZipArchive::new(std::io::Cursor::new(bytes))?;
    let names: Result<Vec<String>, zip::result::ZipError> =
        archive.file_names().map(|n| n.map(|c| c.into_owned())).collect();
    names
}

/// The first path component of an entry name, where the name has a `/`.
pub open spec fn top_of(name: Seq<char>) -> Option<Seq<char>> {
    match first_index(name, '/') {
        Some(i) => Some(name.subrange(0, i)),
        None => None,
    }
}

/// Every entry lies under the directory `root`.
pub open spec fn all_under(names: Seq<Seq<char>>, root: Seq<char>) -> bool {
    forall|i: int| 0 <= i < names.len() ==> #[trigger] top_of(names[i]) == Some(root)
}

/// The single top-level directory of a non-empty listing, if there is exactly one
/// and no entry stands beside it.
pub open spec fn archive_root_spec(names: Seq<Seq<char>>) -> Option<Seq<char>> {
    if names.len() > 0 && top_of(names[0]) is Some && all_under(names, top_of(names[0])->Some_0) {
        top_of(names[0])
    } else {
        None
    }
}

pub open spec fn empty_archive_msg() -> Seq<char> {
    "Zip archive is empty"@
}

pub open spec fn root_msg() -> Seq<char> {
    "Zip archive must contain exactly one item in the root"@
}

pub open spec fn unreadable_archive_msg() -> Seq<char> {
    "Invalid zip archive"@
}

/// What `archive_root` returns for a listing.
pub open spec fn archive_root_result(names: Seq<Seq<char>>) -> Result<Seq<char>, Seq<char>> {
    if names.len() == 0 {
        Err(empty_archive_msg())
    } else {
        match archive_root_spec(names) {
            Some(root) => Ok(root),
            None => Err(root_msg()),
        }
    }
}

/// The error text, where `r` is a `Malformed` failure.
pub open spec fn malformed_text<T>(r: Result<T, UpdateError>) -> Option<Seq<char>> {
    match r {
        Err(UpdateError::Malformed(m)) => Some(m@),
        _ => None,
    }
}

/// First component of an entry name, where it has a `/`.
fn top_component(name: &str) -> (r: Option<String>)
    ensures
        r matches Some(t) ==> top_of(name@) == Some(t@),
        r is None ==> top_of(name@) is None,
{
    match find_char(name, '/') {
        Some(i) => Some(slice_string(name, 0, i)),
        None => None,
    }
}

/// The directory that an archive with these entry names unpacks to.
pub fn archive_root(names: &Vec<String>) -> (r: Result<String, UpdateError>)
    ensures
        archive_root_result(names@.map_values(|s: String| s@)) matches Ok(root) ==> (r matches Ok(t) && t@ == root),
        archive_root_result(names@.map_values(|s: String| s@)) matches Err(m) ==> malformed_text(r) == Some(m),
{
    let ghost view = names@.map_values(|s: String| s@);
    if names.len() == 0 {
        return Err(UpdateError::Malformed(String::from_str("Zip archive is empty")));
    }
    let first = match top_component(names[0].as_str()) {
        Some(t) => t,
        None => {
            return Err(UpdateError::Malformed(String::from_str("Zip archive must contain exactly one item in the root")));
        },
    };
    let mut i: usize = 1;
    while i < names.len()
        invariant
            view == names@.map_values(|s: String| s@),
            names@.len() > 0,
            1 <= i <= names@.len(),
            top_of(view[0]) == Some(first@),
            forall|k: int| 0 <= k < i ==> #[trigger] top_of(view[k]) == Some(first@),
        decreases names@.len() - i,
    {
        let same = match top_component(names[i].as_str()) {
            Some(t) => str_eq(t.as_str(), first.as_str()),
            None => false,
        };
        if !same {
            assert(top_of(view[i as int]) != Some(first@));
            return Err(UpdateError::Malformed(String::from_str("Zip archive must contain exactly one item in the root")));
        }
        i = i + 1;
    }
    assert(all_under(view, first@));
    Ok(first)
}

/// The directory that the archive in `bytes` unpacks to.
pub fn check_archive(bytes: &[u8]) -> (r: Result<String, UpdateError>)
    ensures
        zip_listing(bytes@) is None ==> malformed_text(r) == Some(unreadable_archive_msg()),
        zip_listing(bytes@) matches Some(names) ==> (archive_root_result(names) matches Ok(root) ==> (r matches Ok(t) && t@ == root)),
        zip_listing(bytes@) matches Some(names) ==> (archive_root_result(names) matches Err(m) ==> malformed_text(r) == Some(m)),
{
    match zip_entry_names(bytes) {
        Ok(names) => archive_root(&names),
        Err(_) => Err(UpdateError::Malformed(String::from_str("Invalid zip archive"))),
    }
}

/// A listing whose entries lie under two different top-level directories has no root.
pub proof fn lemma_two_roots_rejected(names: Seq<Seq<char>>, i: int, j: int)
    requires
        0 <= i < names.len(),
        0 <= j < names.len(),
        top_of(names[i]) is Some,
        top_of(names[j]) is Some,
        top_of(names[i]) != top_of(names[j]),
    ensures
        archive_root_spec(names) is None,
        archive_root_result(names) == Err::<Seq<char>, Seq<char>>(root_msg()),
{
    if archive_root_spec(names) is Some {
        assert(top_of(names[i]) == top_of(names[0]));
        assert(top_of(names[j]) == top_of(names[0]));
    }
}

/// `"<dir_name> - <version>"`, with `unknown` for a missing version.
pub open spec fn backup_name_spec(dir_name: Seq<char>, version: Option<Seq<char>>) -> Seq<char> {
    dir_name + " - "@ + match version {
        Some(v) => v,
        None => "unknown"@,
    }
}

/// The characters of an optional string.
pub open spec fn opt_view(s: Option<String>) -> Option<Seq<char>> {
    match s {
        Some(v) => Some(v@),
        None => None,
    }
}

/// Name of the entry under the backup root that keeps a replaced package.
pub fn backup_entry_name(dir_name: &str, version: &Option<String>) -> (r: String)
    ensures
        r@ == backup_name_spec(dir_name@, opt_view(*version)),
{
    let mut r = String::from_str(dir_name);
    r.append(" - ");
    match version {
        Some(v) => r.append(v.as_str()),
        None => r.append("unknown"),
    }
    r
}

/// The checks of an install that come before anything on disk changes.
#[derive(Clone, Debug, PartialEq, Eq)]
pub struct InstallPlan {
    /// Name of the entry under the backup root that the old tree moves to.
    pub backup_name: String,
    /// The directory that the archive unpacks to, beside the old tree.
    pub root: String,
}

/// Plans the replacement of the package directory `dir_name`, installed at
/// `version`, by the archive in `bytes`; `backup_taken` tells whether the backup
/// entry's name is already taken. An error here leaves the disk as it was.
pub fn plan_install(dir_name: &str, version: &Option<String>, backup_taken: bool, bytes: &[u8]) -> (r: Result<InstallPlan, UpdateError>)
    ensures
        backup_taken ==> (r matches Err(UpdateError::AlreadyExists(m))
            && m@ == "File exists: "@ + backup_name_spec(dir_name@, opt_view(*version))),
        !backup_taken && zip_listing(bytes@) is None ==> malformed_text(r) == Some(unreadable_archive_msg()),
        !backup_taken ==> (zip_listing(bytes@) matches Some(names) ==> (archive_root_result(names) matches Err(m) ==> malformed_text(r) == Some(m))),
        !backup_taken ==> (zip_listing(bytes@) matches Some(names) ==> (archive_root_result(names) matches Ok(root) ==> (r matches Ok(p)
            && p.root@ == root && p.backup_name@ == backup_name_spec(dir_name@, opt_view(*version))))),
{
    let backup_name = backup_entry_name(dir_name, version);
    if backup_taken {
        let mut m = String::from_str("File exists: ");
        m.append(backup_name.as_str());
        return Err(UpdateError::AlreadyExists(m));
    }
    match check_archive(bytes) {
        Ok(root) => Ok(InstallPlan { backup_name, root }),
        Err(e) => Err(e),
    }
}

/// Names of the entries that carry a user's configuration.
pub open spec fn is_config_name(s: Seq<char>) -> bool {
    s == "config.json"@ || s == "config"@
}

/// An entry, given by its path components below the package directory, whose
/// configuration moves to the new tree: it has a configuration name and does not
/// already lie inside one that moves.
pub open spec fn is_migrated(path: Seq<String>) -> bool {
    &&& path.len() > 0
    &&& is_config_name(path.last()@)
    &&& forall|k: int| 0 <= k < path.len() - 1 ==> !is_config_name(#[trigger] path[k]@)
}

/// Whether `s` is a configuration entry's name.
pub fn config_name(s: &str) -> (r: bool)
    ensures
        r == is_config_name(s@),
{
    str_eq(s, "config.json") || str_eq(s, "config")
}

fn migrated(path: &Vec<String>) -> (r: bool)
    ensures
        r == is_migrated(path@),
{
    let n = path.len();
    if n == 0 {
        return false;
    }
    let mut k: usize = 0;
    while k < n - 1
        invariant
            n == path@.len(),
            n > 0,
            k <= n - 1,
            forall|j: int| 0 <= j < k ==> !is_config_name(#[trigger] path@[j]@),
        decreases n - 1 - k,
    {
        if config_name(path[k].as_str()) {
            return false;
        }
        k = k + 1;
    }
    config_name(path[n - 1].as_str())
}

/// Positions, in increasing order, of the backed-up entries whose configuration
/// is carried over to the new tree.
pub fn migration_targets(entries: &Vec<Vec<String>>) -> (r: Vec<usize>)
    ensures
        forall|a: int, b: int| 0 <= a < b < r@.len() ==> r@[a] < r@[b],
        forall|a: int| 0 <= a < r@.len() ==> #[trigger] r@[a] < entries@.len() && is_migrated(entries@[r@[a] as int]@),
        forall|i: int| 0 <= i < entries@.len() && is_migrated(#[trigger] entries@[i]@) ==> r@.contains(i as usize),
{
    let mut r: Vec<usize> = Vec::new();
    let mut i: usize = 0;
    while i < entries.len()
        invariant
            i <= entries@.len(),
            forall|a: int, b: int| 0 <= a < b < r@.len() ==> r@[a] < r@[b],
            forall|a: int| 0 <= a < r@.len() ==> #[trigger] r@[a] < i && is_migrated(entries@[r@[a] as int]@),
            forall|j: int| 0 <= j < i && is_migrated(#[trigger] entries@[j]@) ==> r@.contains(j as usize),
        decreases entries@.len() - i,
    {
        let ghost before = r@;
        if migrated(&entries[i]) {
            r.push(i);
            assert(r@[r@.len() - 1] == i);
            assert forall|j: int| 0 <= j < i && is_migrated(#[trigger] entries@[j]@) implies r@.contains(
                j as usize,
            ) by {
                let k = choose|k: int| 0 <= k < before.len() && before[k] == j as usize;
                assert(r@[k] == before[k]);
            }
        }
        i = i + 1;
    }
    r
}

/// The name under which a freshly unpacked entry is kept when an old one replaces it.
pub fn set_aside_name(name: &str) -> (r: String)
    ensures
        r@ == name@ + ".new"@,
{
    let mut r = String::from_str(name);
    r.append(".new");
    r
}

/// The fresh entry that is set aside never takes the name of the one that
/// replaces it, so both stay side by side.
pub proof fn lemma_set_aside_distinct(name: Seq<char>)
    ensures
        name + ".new"@ != name,
{
    reveal_strlit(".new");
    assert((name + ".new"@).len() == name.len() + 4);
}

/// Kinds of filesystem entries met while copying a tree.
#[derive(Clone, Copy, Debug, PartialEq, Eq, Structural)]
pub enum EntryKind {
    File,
    Dir,
    Other,
}

/// What to do with one entry of a tree that is copied.
#[derive(Clone, Copy, Debug, PartialEq, Eq, Structural)]
pub enum CopyAction {
    /// Copy the file's bytes.
    CopyFile,
    /// Create the directory, then queue each of its children.
    CreateDir,
}

/// The step for an entry of the tree being copied; `shown` is its path as displayed.
pub fn copy_action(kind: EntryKind, shown: &str) -> (r: Result<CopyAction, UpdateError>)
    ensures
        kind == EntryKind::File ==> r == Ok::<CopyAction, UpdateError>(CopyAction::CopyFile),
        kind == EntryKind::Dir ==> r == Ok::<CopyAction, UpdateError>(CopyAction::CreateDir),
        kind == EntryKind::Other ==> (r matches Err(UpdateError::NotAFileOrDir(m)) && m@ == shown@ + " is neither a file nor a directory"@),
{
    match kind {
        EntryKind::File => Ok(CopyAction::CopyFile),
        EntryKind::Dir => Ok(CopyAction::CreateDir),
        EntryKind::Other => {
            let mut m = String::from_str(shown);
            m.append(" is neither a file nor a directory");
            Err(UpdateError::NotAFileOrDir(m))
        },
    }
}

} // verus!
