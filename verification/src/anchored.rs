//! The directory of a download: a temporary file is made there, set aside there
//! when it is given up, and renamed there when it is done, and each of these
//! touches nothing but the file it is meant for.
use crate::local_path;
use crate::local_path::directory_walk;
use crate::local_path::single_file_name;
use crate::local_path::ComponentView;
use crate::local_path::DirectoryRefusal;
use crate::local_path::LocalPath;
use crate::text;
use crate::text::decimal;
use crate::text::joined2;
use crate::text::joined4;
use crate::text::same_text;
use crate::local_path::PathComponent;
use vstd::prelude::*;

verus! {

/// What stands under a name in a directory.
#[derive(Debug)]
pub enum EntryStat {
    /// A symbolic link.
    Symlink,
    /// Neither a link nor a file.
    NotFile,
    /// A file, with its identity or why that could not be read.
    File(Result<String, String>),
    /// Nothing.
    NotFound,
    /// It could not be looked at.
    Failed(String),
}

/// The identity of a file by its device and its number there.
pub open spec fn identity_text(device: u64, number: u64) -> Seq<char> {
    "cap:"@ + text::decimal_text(device as nat) + ":"@ + text::decimal_text(number as nat)
}

/// The identity of a file by its device and its number there.
pub fn metadata_identity(device: u64, number: u64) -> (identity: String)
    ensures
        identity@ == identity_text(device, number),
{
    let first = decimal(device);
    let second = decimal(number);
    joined4("cap:", first.as_str(), ":", second.as_str())
}

/// Two files have the same identity only where device and number agree.
pub proof fn identities_are_distinct(
    device: u64,
    number: u64,
    other_device: u64,
    other_number: u64,
)
    requires
        identity_text(device, number) == identity_text(other_device, other_number),
    ensures
        device == other_device,
        number == other_number,
{
    reveal_strlit("cap:");
    reveal_strlit(":");
    let head = "cap:"@;
    let colon = ":"@;
    let a = text::decimal_text(device as nat);
    let b = text::decimal_text(number as nat);
    let c = text::decimal_text(other_device as nat);
    let d = text::decimal_text(other_number as nat);
    text::lemma_decimal_digits(device as nat);
    text::lemma_decimal_digits(other_device as nat);
    let left = head + a + colon + b;
    let right = head + c + colon + d;
    assert(left == right);
    let n = a.len() as int;
    let m = c.len() as int;
    assert(left[4 + n] == ':');
    assert(right[4 + m] == ':');
    if n < m {
        assert(right[4 + n] == c[n]);
    }
    if m < n {
        assert(left[4 + m] == a[m]);
    }
    assert(left.subrange(4, 4 + n) =~= a);
    assert(right.subrange(4, 4 + m) =~= c);
    assert(left.subrange(5 + n, left.len() as int) =~= b);
    assert(right.subrange(5 + m, right.len() as int) =~= d);
    text::lemma_decimal_injective(device as nat, other_device as nat);
    text::lemma_decimal_injective(number as nat, other_number as nat);
}

/// The identity of the file under a name that only this operation uses.
pub open spec fn owned_identity(stat: EntryStat) -> Result<Option<Seq<char>>, Seq<char>> {
    match stat {
        EntryStat::Symlink => Err("operation-owned path was replaced by a symbolic link"@),
        EntryStat::NotFile => Err("operation-owned path was replaced by a non-file entry"@),
        EntryStat::File(Ok(identity)) => Ok(Some(identity@)),
        EntryStat::File(Err(error)) => Err(error@),
        EntryStat::NotFound => Ok(None),
        EntryStat::Failed(error) => Err(error@),
    }
}

/// The identity of the file under a name that only this operation uses, where
/// there is a file.
pub fn entry_identity(stat: EntryStat) -> (identity: Result<Option<String>, String>)
    ensures
        match identity {
            Ok(found) => owned_identity(stat) == Ok::<Option<Seq<char>>, Seq<char>>(text::optional_text(found)),
            Err(reason) => owned_identity(stat) == Err::<Option<Seq<char>>, Seq<char>>(reason@),
        },
{
    match stat {
        EntryStat::Symlink => Err("operation-owned path was replaced by a symbolic link".to_owned()),
        EntryStat::NotFile => Err("operation-owned path was replaced by a non-file entry".to_owned()),
        EntryStat::File(Ok(identity)) => Ok(Some(identity)),
        EntryStat::File(Err(error)) => Err(error),
        EntryStat::NotFound => Ok(None),
        EntryStat::Failed(error) => Err(error),
    }
}

/// Due: opening the directory of a download, one directory below the other.
#[non_exhaustive]
#[derive(Debug)]
pub struct AnchorOpening {
    pub target_name: String,
    pub temp_name: String,
    /// The directories from the root down, or why they are not opened.
    pub walk: Result<Vec<String>, DirectoryRefusal>,
}

/// Due: the identity of the directory.
#[non_exhaustive]
#[derive(Debug)]
pub struct AnchorIdentifying {
    pub target_name: String,
    pub temp_name: String,
}

/// The directory of a download was opened and is the one that was authorized.
#[non_exhaustive]
#[derive(Debug)]
pub struct AnchoredDestination {
    pub target_name: String,
    pub temp_name: String,
}

/// The names of the target and of the temporary file, or why the pair is not
/// taken.
pub open spec fn anchor_names(local: Seq<ComponentView>, temp: Seq<ComponentView>) -> Result<
    (Seq<char>, Seq<char>),
    Seq<char>,
> {
    if local_path::parent(local) is None {
        Err("Local destination parent is required"@)
    } else if local_path::parent(temp) != local_path::parent(local) {
        Err("Download temporary file is not a sibling of the destination"@)
    } else {
        match local_path::single_name(local, "Local destination"@) {
            Err(reason) => Err(reason),
            Ok(target_name) => match local_path::single_name(temp, "Download temporary file"@) {
                Err(reason) => Err(reason),
                Ok(temp_name) => Ok((target_name, temp_name)),
            },
        }
    }
}

/// The walk to the directory of a path.
pub open spec fn is_walk_to_parent(path: LocalPath, walk: Result<Vec<String>, DirectoryRefusal>) -> bool {
    let parent = path@.drop_last();
    match walk {
        Ok(names) => path.absolute && !local_path::has_dots(parent) && local_path::has_root(parent)
            && local_path::texts(names@) == local_path::directory_names(parent),
        Err(DirectoryRefusal::NotAbsolute) => !path.absolute,
        Err(DirectoryRefusal::UnsafeComponent) => path.absolute && local_path::has_dots(parent),
        Err(DirectoryRefusal::MissingRoot) => path.absolute && !local_path::has_dots(parent)
            && !local_path::has_root(parent),
    }
}

/// The directories on the way to the directory of a path, which has one.
pub fn walk_to_parent(path: &LocalPath) -> (walk: Result<Vec<String>, DirectoryRefusal>)
    requires
        local_path::parent(path@) is Some,
    ensures
        is_walk_to_parent(*path, walk),
{
    let count: usize = path.components.len() - 1;
    assert(path@.take(count as int) =~= path@.drop_last());
    directory_walk(path, count)
}

impl AnchorOpening {
    /// Begins to open the directory of a download.
    pub fn new(local: &LocalPath, temp: &LocalPath) -> (opening: Result<AnchorOpening, String>)
        ensures
            match opening {
                Ok(found) => anchor_names(local@, temp@) == Ok::<(Seq<char>, Seq<char>), Seq<char>>(
                    (found.target_name@, found.temp_name@),
                ) && is_walk_to_parent(*local, found.walk),
                Err(reason) => anchor_names(local@, temp@) == Err::<(Seq<char>, Seq<char>), Seq<char>>(reason@),
            },
    {
        if !local.has_parent() {
            return Err("Local destination parent is required".to_owned());
        }
        if !temp.same_parent(local) {
            return Err("Download temporary file is not a sibling of the destination".to_owned());
        }
        let target_name = match single_file_name(local, "Local destination") {
            Ok(name) => name,
            Err(reason) => {
                return Err(reason);
            },
        };
        let temp_name = match single_file_name(temp, "Download temporary file") {
            Ok(name) => name,
            Err(reason) => {
                return Err(reason);
            },
        };
        Ok(AnchorOpening { target_name, temp_name, walk: walk_to_parent(local) })
    }

    /// Takes whether the directory could be opened.
    pub fn directory_opened(self, reply: Result<(), String>) -> (next: Result<AnchorIdentifying, String>)
        ensures
            match reply {
                Err(error) => next matches Err(reason) && reason@
                    == "Failed to open the destination directory safely: "@ + error@,
                Ok(_) => next matches Ok(identifying) && identifying.target_name == self.target_name
                    && identifying.temp_name == self.temp_name,
            },
    {
        match reply {
            Err(error) => Err(
                joined2("Failed to open the destination directory safely: ", error.as_str()),
            ),
            Ok(_) => Ok(
                AnchorIdentifying { target_name: self.target_name, temp_name: self.temp_name },
            ),
        }
    }
}

impl AnchorIdentifying {
    /// Takes the identity of the directory, and what stands under the target's
    /// name where that has to be free.
    pub fn identified(self, reply: Result<String, String>, expected: &str, target: Option<EntryStat>) -> (next: Result<
        AnchoredDestination,
        String,
    >)
        ensures
            match reply {
                Err(error) => next matches Err(reason) && reason@
                    == "Failed to identify destination directory: "@ + error@,
                Ok(actual) => if actual@ != expected@ {
                    next matches Err(reason) && reason@
                        == "Local destination directory changed after it was authorized"@
                } else {
                    match target {
                        None => next matches Ok(anchored) && anchored.target_name == self.target_name
                            && anchored.temp_name == self.temp_name,
                        Some(stat) => match target_is_free(stat) {
                            Ok(_) => next matches Ok(anchored) && anchored.target_name == self.target_name
                                && anchored.temp_name == self.temp_name,
                            Err(taken) => next matches Err(reason) && reason@ == taken,
                        },
                    }
                },
            },
    {
        match reply {
            Err(error) => Err(joined2("Failed to identify destination directory: ", error.as_str())),
            Ok(actual) => {
                if !same_text(actual.as_str(), expected) {
                    return Err(
                        "Local destination directory changed after it was authorized".to_owned(),
                    );
                }
                if let Some(stat) = target {
                    if let Err(taken) = ensure_target_is_free(stat) {
                        return Err(taken);
                    }
                }
                Ok(
                    AnchoredDestination { target_name: self.target_name, temp_name: self.temp_name },
                )
            },
        }
    }
}

/// Nothing stands under the name that a download is to get.
pub open spec fn target_is_free(stat: EntryStat) -> Result<(), Seq<char>> {
    match stat {
        EntryStat::NotFound => Ok(()),
        EntryStat::Failed(error) => Err("Failed to inspect local download destination: "@ + error@),
        _ => Err("Local download destination already exists"@),
    }
}

/// A download goes on only where nothing stands under the name that it is to
/// get.
pub fn ensure_target_is_free(stat: EntryStat) -> (free: Result<(), String>)
    ensures
        match free {
            Ok(_) => target_is_free(stat) is Ok,
            Err(reason) => target_is_free(stat) == Err::<(), Seq<char>>(reason@),
        },
{
    match stat {
        EntryStat::NotFound => Ok(()),
        EntryStat::Failed(error) => Err(
            joined2("Failed to inspect local download destination: ", error.as_str()),
        ),
        _ => Err("Local download destination already exists".to_owned()),
    }
}

/// What follows a look at the temporary file that is to be removed.
#[derive(Debug)]
pub enum TempRemovalNext {
    /// There is none.
    Absent,
    /// Set the file aside, in a directory whose name is new.
    SetAside(TempSetAside),
}

/// Due: setting the temporary file aside.
#[non_exhaustive]
#[derive(Debug)]
pub struct TempSetAside {
    pub expected_identity: String,
}

/// Due: removing the file that was set aside.
#[non_exhaustive]
#[derive(Debug)]
pub struct TempDeletion {
    pub expected_identity: String,
}

/// What follows a look at the temporary file that is to be removed.
pub open spec fn removal_leads_to(
    stat: EntryStat,
    expected_identity: Seq<char>,
    next: Result<TempRemovalNext, String>,
) -> bool {
    match owned_identity(stat) {
        Err(reason) => next matches Err(told) && told@ == reason,
        Ok(None) => next matches Ok(TempRemovalNext::Absent),
        Ok(Some(actual)) => if actual == expected_identity {
            next matches Ok(TempRemovalNext::SetAside(aside)) && aside.expected_identity@ == expected_identity
        } else {
            next matches Err(told) && told@ == "operation-owned temporary file identity changed"@
        },
    }
}

/// Takes a look at the temporary file that is to be removed. It is set aside
/// only where it is the expected one.
pub fn remove_owned_temp(stat: EntryStat, expected_identity: &str) -> (next: Result<TempRemovalNext, String>)
    ensures
        removal_leads_to(stat, expected_identity@, next),
{
    match entry_identity(stat) {
        Err(reason) => Err(reason),
        Ok(None) => Ok(TempRemovalNext::Absent),
        Ok(Some(actual)) => {
            if !same_text(actual.as_str(), expected_identity) {
                return Err("operation-owned temporary file identity changed".to_owned());
            }
            Ok(
                TempRemovalNext::SetAside(
                    TempSetAside { expected_identity: expected_identity.to_owned() },
                ),
            )
        },
    }
}

/// What follows a look at the file that was set aside.
pub open spec fn set_aside_leads_to(
    aside: TempSetAside,
    moved: EntryStat,
    quarantine_path: Seq<char>,
    next: Result<TempDeletion, String>,
) -> bool {
    match owned_identity(moved) {
        Err(reason) => next matches Err(told) && told@ == reason,
        Ok(None) => next matches Err(told) && told@ == "quarantined temporary file is missing"@,
        Ok(Some(actual)) => if actual == aside.expected_identity@ {
            next matches Ok(deletion) && deletion.expected_identity == aside.expected_identity
        } else {
            next matches Err(told) && told@
                == "operation-owned temporary file was replaced; replacement preserved in "@ + quarantine_path
        },
    }
}

impl TempSetAside {
    /// Takes a look at the file that was set aside, and where that is. It is
    /// removed only where it is still the expected one.
    pub fn set_aside(self, moved: EntryStat, quarantine_path: &str) -> (next: Result<TempDeletion, String>)
        ensures
            set_aside_leads_to(self, moved, quarantine_path@, next),
    {
        match entry_identity(moved) {
            Err(reason) => Err(reason),
            Ok(None) => Err("quarantined temporary file is missing".to_owned()),
            Ok(Some(actual)) => {
                if !same_text(actual.as_str(), self.expected_identity.as_str()) {
                    return Err(
                        joined2(
                            "operation-owned temporary file was replaced; replacement preserved in ",
                            quarantine_path,
                        ),
                    );
                }
                Ok(TempDeletion { expected_identity: self.expected_identity })
            },
        }
    }
}

/// Due: renaming the temporary file to the target's name, which must be free.
#[non_exhaustive]
#[derive(Debug)]
pub struct TempRename {
    pub expected_identity: String,
}

/// What follows a rename.
#[derive(Debug)]
pub enum TempRenameNext {
    /// The target is the download.
    Published,
    /// The target is another file: set it aside.
    SetAside(RejectedTarget),
}

/// Due: setting a target aside that is not the download.
#[non_exhaustive]
#[derive(Debug)]
pub struct RejectedTarget {
    pub expected_identity: String,
}

/// What follows a look at the temporary file that is to be renamed.
pub open spec fn rename_leads_to(
    stat: EntryStat,
    expected_identity: Seq<char>,
    next: Result<TempRename, String>,
) -> bool {
    match owned_identity(stat) {
        Err(reason) => next matches Err(told) && told@ == reason,
        Ok(None) => next matches Err(told) && told@ == "download temporary file is missing"@,
        Ok(Some(actual)) => if actual == expected_identity {
            next matches Ok(rename) && rename.expected_identity@ == expected_identity
        } else {
            next matches Err(told) && told@ == "download temporary file identity changed"@
        },
    }
}

/// Takes a look at the temporary file that is to be renamed. It is renamed only
/// where it is the expected one.
pub fn rename_temp_to_target(stat: EntryStat, expected_identity: &str) -> (next: Result<TempRename, String>)
    ensures
        rename_leads_to(stat, expected_identity@, next),
{
    match entry_identity(stat) {
        Err(reason) => Err(reason),
        Ok(None) => Err("download temporary file is missing".to_owned()),
        Ok(Some(actual)) => {
            if !same_text(actual.as_str(), expected_identity) {
                return Err("download temporary file identity changed".to_owned());
            }
            Ok(TempRename { expected_identity: expected_identity.to_owned() })
        },
    }
}

/// What follows a look at the target once the file was renamed.
pub open spec fn renamed_leads_to(
    rename: TempRename,
    target: EntryStat,
    next: Result<TempRenameNext, String>,
) -> bool {
    match owned_identity(target) {
        Err(reason) => next matches Err(told) && told@ == reason,
        Ok(None) => next matches Err(told) && told@ == "published destination is missing"@,
        Ok(Some(actual)) => if actual == rename.expected_identity@ {
            next matches Ok(TempRenameNext::Published)
        } else {
            next matches Ok(TempRenameNext::SetAside(rejected)) && rejected.expected_identity
                == rename.expected_identity
        },
    }
}

impl TempRename {
    /// Takes a look at the target once the file was renamed.
    pub fn renamed(self, target: EntryStat) -> (next: Result<TempRenameNext, String>)
        ensures
            renamed_leads_to(self, target, next),
    {
        match entry_identity(target) {
            Err(reason) => Err(reason),
            Ok(None) => Err("published destination is missing".to_owned()),
            Ok(Some(actual)) => {
                if same_text(actual.as_str(), self.expected_identity.as_str()) {
                    Ok(TempRenameNext::Published)
                } else {
                    Ok(
                        TempRenameNext::SetAside(
                            RejectedTarget { expected_identity: self.expected_identity },
                        ),
                    )
                }
            },
        }
    }
}

impl RejectedTarget {
    /// Tells where the other file was set aside.
    pub fn set_aside(self, quarantine_path: &str) -> (reason: String)
        ensures
            reason@
                == "published destination identity does not match the download; replacement preserved in "@
                + quarantine_path@,
    {
        joined2(
            "published destination identity does not match the download; replacement preserved in ",
            quarantine_path,
        )
    }
}

/// What is said of a publish that failed.
pub fn publish_error(error: &str) -> (message: String)
    ensures
        message@ == "Failed to atomically publish the download without replacing the destination: "@ + error@,
{
    joined2("Failed to atomically publish the download without replacing the destination: ", error)
}

/// How a rename that must not replace anything was refused.
#[derive(Clone, Copy, Debug, PartialEq, Eq, Structural)]
pub enum RenameErrno {
    /// The system has no such call.
    NoSuchCall,
    /// The file system does not support it.
    NotSupported,
    /// The file system does not know the flag.
    InvalidArgument,
    /// Anything else.
    Other,
}

/// The file system cannot rename without replacing.
pub open spec fn means_unsupported(errno: RenameErrno) -> bool {
    errno != RenameErrno::Other
}

/// What is said of a rename that was refused, where the file system cannot
/// rename without replacing.
pub fn unsupported_rename(errno: RenameErrno, error: &str) -> (message: Option<String>)
    ensures
        match message {
            Some(told) => means_unsupported(errno) && told@
                == "filesystem does not support atomic no-replace rename: "@ + error@,
            None => !means_unsupported(errno),
        },
{
    match errno {
        RenameErrno::Other => None,
        _ => Some(joined2("filesystem does not support atomic no-replace rename: ", error)),
    }
}

/// The error codes of Windows by which a volume cannot rename without
/// replacing: an invalid function, another device, an unsupported request, an
/// invalid parameter, a call that is not there.
pub open spec fn means_unsupported_on_windows(code: Option<i32>) -> bool {
    code == Some(1i32) || code == Some(17i32) || code == Some(50i32) || code == Some(87i32) || code == Some(
        120i32,
    )
}

/// What is said of a rename that Windows refused, where the volume cannot
/// rename without replacing.
pub fn unsupported_windows_rename(code: Option<i32>, error: &str) -> (message: Option<String>)
    ensures
        match message {
            Some(told) => means_unsupported_on_windows(code) && told@
                == "filesystem does not support same-volume atomic no-replace rename: "@ + error@,
            None => !means_unsupported_on_windows(code),
        },
{
    match code {
        Some(number) => if number == 1 || number == 17 || number == 50 || number == 87 || number == 120 {
            Some(joined2("filesystem does not support same-volume atomic no-replace rename: ", error))
        } else {
            None
        },
        None => None,
    }
}

/// A file is removed only where it is the one that the download made, both under
/// its own name and once it was set aside: a file that was put in its place in
/// between is left where it was set aside.
pub proof fn only_the_made_file_is_removed(
    device: u64,
    number: u64,
    stat: EntryStat,
    aside: TempSetAside,
    moved_device: u64,
    moved_number: u64,
    moved_identity: String,
    quarantine_path: Seq<char>,
    next: Result<TempDeletion, String>,
)
    requires
        removal_leads_to(stat, identity_text(device, number), Ok(TempRemovalNext::SetAside(aside))),
        moved_identity@ == identity_text(moved_device, moved_number),
        set_aside_leads_to(aside, EntryStat::File(Ok(moved_identity)), quarantine_path, next),
    ensures
        owned_identity(stat) == Ok::<Option<Seq<char>>, Seq<char>>(Some(identity_text(device, number))),
        next is Ok <==> moved_device == device && moved_number == number,
{
    if moved_identity@ == identity_text(device, number) {
        identities_are_distinct(device, number, moved_device, moved_number);
    }
}

/// A download is published only as the file that it made, both under the
/// temporary name and under the target's: a file that was put in its place in
/// between is set aside and not taken for the download.
pub proof fn only_the_made_file_is_published(
    device: u64,
    number: u64,
    stat: EntryStat,
    rename: TempRename,
    found_device: u64,
    found_number: u64,
    found_identity: String,
    next: Result<TempRenameNext, String>,
)
    requires
        rename_leads_to(stat, identity_text(device, number), Ok(rename)),
        found_identity@ == identity_text(found_device, found_number),
        renamed_leads_to(rename, EntryStat::File(Ok(found_identity)), next),
    ensures
        owned_identity(stat) == Ok::<Option<Seq<char>>, Seq<char>>(Some(identity_text(device, number))),
        next matches Ok(TempRenameNext::Published) <==> found_device == device && found_number == number,
        next matches Ok(TempRenameNext::SetAside(_)) <==> !(found_device == device && found_number == number),
{
    if found_identity@ == identity_text(device, number) {
        identities_are_distinct(device, number, found_device, found_number);
    }
}

/// The walk to the directory of a path goes through every directory that the path
/// names below its root, in their order, and through no other.
pub proof fn walks_go_to_the_directory_of_the_path(
    path: LocalPath,
    root: int,
    walk: Result<Vec<String>, DirectoryRefusal>,
)
    requires
        is_walk_to_parent(path, walk),
        path.absolute,
        1 <= root < path.components@.len(),
        forall|i: int|
            0 <= i < root ==> (#[trigger] path.components@[i]) is Prefix || path.components@[i] is RootDir,
        forall|i: int| root <= i < path.components@.len() ==> (#[trigger] path.components@[i]) is Normal,
    ensures
        walk is Ok,
        walk->Ok_0@.len() == path.components@.len() - root - 1,
        forall|i: int|
            0 <= i < path.components@.len() - root - 1 ==> (#[trigger] walk->Ok_0@[i])@ == path.components@[root
                + i]->Normal_0@,
{
    let parent = path@.drop_last();
    assert forall|i: int| 0 <= i < root implies (#[trigger] parent[i]) is Prefix || parent[i] is RootDir by {
        assert(path.components@[i] is Prefix || path.components@[i] is RootDir);
    }
    assert forall|i: int| root <= i < parent.len() implies (#[trigger] parent[i]) is Normal by {
        assert(path.components@[i] is Normal);
    }
    local_path::directories_are_the_names_of_the_path(parent, root);
    assert(local_path::is_root(parent[0]));
    assert(local_path::has_root(parent));
    assert forall|i: int| 0 <= i < parent.len() implies !local_path::is_dots(#[trigger] parent[i]) by {
        if i < root {
            assert(parent[i] is Prefix || parent[i] is RootDir);
        } else {
            assert(parent[i] is Normal);
        }
    }
    let names = walk->Ok_0@;
    assert(local_path::texts(names).len() == names.len());
    assert forall|i: int| 0 <= i < path.components@.len() - root - 1 implies (#[trigger] names[i])@
        == path.components@[root + i]->Normal_0@ by {
        assert(local_path::texts(names)[i] == names[i]@);
        assert(local_path::directory_names(parent)[i] == parent[root + i]->Normal_0);
        assert(parent[root + i] == path.components@[root + i]@);
        assert(path.components@[root + i] is Normal);
    }
}

/// Files in different directories below one root are never reached by one walk.
pub proof fn different_directories_have_different_walks(
    path: LocalPath,
    other: LocalPath,
    root: int,
    walk: Vec<String>,
    other_walk: Vec<String>,
)
    requires
        is_walk_to_parent(path, Ok(walk)),
        is_walk_to_parent(other, Ok(other_walk)),
        1 <= root < path.components@.len(),
        root < other.components@.len(),
        forall|i: int|
            0 <= i < root ==> (#[trigger] path.components@[i]) is Prefix || path.components@[i] is RootDir,
        forall|i: int| root <= i < path.components@.len() ==> (#[trigger] path.components@[i]) is Normal,
        forall|i: int|
            0 <= i < root ==> (#[trigger] other.components@[i]) is Prefix || other.components@[i] is RootDir,
        forall|i: int| root <= i < other.components@.len() ==> (#[trigger] other.components@[i]) is Normal,
        walk@.len() == other_walk@.len(),
        forall|i: int| 0 <= i < walk@.len() ==> (#[trigger] walk@[i])@ == other_walk@[i]@,
    ensures
        path.components@.len() == other.components@.len(),
        forall|i: int|
            root <= i < path.components@.len() - 1 ==> (#[trigger] path.components@[i])@ == other.components@[i]@,
{
    walks_go_to_the_directory_of_the_path(path, root, Ok(walk));
    walks_go_to_the_directory_of_the_path(other, root, Ok(other_walk));
    assert forall|i: int| root <= i < path.components@.len() - 1 implies (#[trigger] path.components@[i])@
        == other.components@[i]@ by {
        assert(walk@[i - root]@ == other_walk@[i - root]@);
    }
}

/// No walk is made to a directory that is not named from a root, or that is named
/// by dots.
pub proof fn unsafe_directories_are_not_walked(path: LocalPath, walk: Result<Vec<String>, DirectoryRefusal>, at: int)
    requires
        is_walk_to_parent(path, walk),
        path.components@.len() > 0,
    ensures
        !path.absolute ==> walk == Err::<Vec<String>, DirectoryRefusal>(DirectoryRefusal::NotAbsolute),
        path.absolute && 0 <= at < path.components@.len() - 1 && (path.components@[at] is CurDir
            || path.components@[at] is ParentDir) ==> walk == Err::<Vec<String>, DirectoryRefusal>(
            DirectoryRefusal::UnsafeComponent,
        ),
        walk is Ok ==> exists|i: int|
            0 <= i < path.components@.len() - 1 && ((#[trigger] path.components@[i]) is Prefix
                || path.components@[i] is RootDir),
{
    let parent = path@.drop_last();
    if 0 <= at < path.components@.len() - 1 {
        assert(parent[at] == path.components@[at]@);
        if path.components@[at] is CurDir || path.components@[at] is ParentDir {
            assert(local_path::is_dots(parent[at]));
        }
    }
    if walk is Ok {
        let i = choose|i: int| 0 <= i < parent.len() && local_path::is_root(#[trigger] parent[i]);
        assert(parent[i] == path.components@[i]@);
        assert(path.components@[i] is Prefix || path.components@[i] is RootDir);
    }
}

/// The target and the temporary file of a download stand in one directory, under
/// the names that their paths end with.
pub proof fn anchors_hold_two_names_in_one_directory(
    local: LocalPath,
    temp: LocalPath,
    target_name: Seq<char>,
    temp_name: Seq<char>,
)
    requires
        anchor_names(local@, temp@) == Ok::<(Seq<char>, Seq<char>), Seq<char>>((target_name, temp_name)),
    ensures
        local.components@.len() > 0 && (local.components@.last() matches PathComponent::Normal(last) && last@
            == target_name),
        temp.components@.len() == local.components@.len() && (temp.components@.last() matches PathComponent::Normal(last)
            && last@ == temp_name),
        forall|i: int|
            0 <= i < local.components@.len() - 1 ==> (#[trigger] local.components@[i])@ == temp.components@[i]@,
        target_name.len() > 0 && temp_name.len() > 0,
{
    local_path::file_names_are_single_names(local, "Local destination"@);
    local_path::file_names_are_single_names(temp, "Download temporary file"@);
    local_path::siblings_differ_in_their_names_alone(local, temp);
}

/// Two paths that are not in one directory are never anchored together.
pub proof fn strangers_are_not_anchored(local: LocalPath, temp: LocalPath, at: int)
    requires
        local.components@.len() > 0 && local.components@.last() is Normal,
        temp.components@.len() > 0 && temp.components@.last() is Normal,
        local.components@.len() != temp.components@.len() || (0 <= at < local.components@.len() - 1
            && local.components@[at]@ != temp.components@[at]@),
    ensures
        anchor_names(local@, temp@) == Err::<(Seq<char>, Seq<char>), Seq<char>>(
            "Download temporary file is not a sibling of the destination"@,
        ),
{
    local_path::siblings_differ_in_their_names_alone(local, temp);
}

/// Only a file has an identity, and it is the one that it was seen with. Where
/// nothing stands there is none, and a link, another entry or a failed look is
/// refused.
pub proof fn only_files_have_an_identity(stat: EntryStat)
    ensures
        owned_identity(stat) matches Ok(Some(identity)) <==> stat is File && stat->File_0 is Ok,
        stat matches EntryStat::File(Ok(seen)) ==> owned_identity(stat) == Ok::<Option<Seq<char>>, Seq<char>>(
            Some(seen@),
        ),
        owned_identity(stat) matches Ok(None) <==> stat is NotFound,
        target_is_free(stat) is Ok <==> stat is NotFound,
        stat is File || stat is Symlink || stat is NotFile ==> target_is_free(stat) == Err::<(), Seq<char>>(
            "Local download destination already exists"@,
        ),
{
}

/// A temporary file is set aside to be removed exactly where it is the file that
/// was made. Where there is none, nothing is left to do; anything else is left
/// alone.
pub proof fn only_the_expected_file_is_set_aside(
    stat: EntryStat,
    expected: Seq<char>,
    next: Result<TempRemovalNext, String>,
)
    requires
        removal_leads_to(stat, expected, next),
    ensures
        next matches Ok(TempRemovalNext::SetAside(_)) <==> (stat matches EntryStat::File(Ok(seen)) && seen@ == expected),
        next matches Ok(TempRemovalNext::SetAside(aside)) ==> aside.expected_identity@ == expected,
        next matches Ok(TempRemovalNext::Absent) <==> stat is NotFound,
        next is Err <==> !(stat is NotFound || (stat matches EntryStat::File(Ok(seen)) && seen@ == expected)),
{
}

/// A file that was set aside is deleted exactly where it is the file that was
/// made; a replacement stays where it was set aside, and the reason says where.
pub proof fn replacements_stay_where_they_were_set_aside(
    aside: TempSetAside,
    moved: EntryStat,
    quarantine_path: Seq<char>,
    next: Result<TempDeletion, String>,
)
    requires
        set_aside_leads_to(aside, moved, quarantine_path, next),
    ensures
        next is Ok <==> (moved matches EntryStat::File(Ok(seen)) && seen@ == aside.expected_identity@),
        next matches Ok(deletion) ==> deletion.expected_identity@ == aside.expected_identity@,
        moved matches EntryStat::File(Ok(seen)) ==> (seen@ != aside.expected_identity@ ==> next is Err
            && text::has_suffix(next->Err_0@, quarantine_path)),
{
    if let EntryStat::File(Ok(seen)) = moved {
        if seen@ != aside.expected_identity@ {
            let told = next->Err_0@;
            assert(told.subrange(told.len() - quarantine_path.len(), told.len() as int) =~= quarantine_path);
        }
    }
}

/// A temporary file is renamed exactly where it is the file that was made, and
/// the target is then taken for the download exactly where it is that file.
pub proof fn only_the_expected_file_is_renamed(
    stat: EntryStat,
    expected: Seq<char>,
    next: Result<TempRename, String>,
    rename: TempRename,
    target: EntryStat,
    end: Result<TempRenameNext, String>,
)
    requires
        rename_leads_to(stat, expected, next),
        renamed_leads_to(rename, target, end),
    ensures
        next is Ok <==> (stat matches EntryStat::File(Ok(seen)) && seen@ == expected),
        next matches Ok(due) ==> due.expected_identity@ == expected,
        end matches Ok(TempRenameNext::Published) <==> (target matches EntryStat::File(Ok(seen)) && seen@
            == rename.expected_identity@),
        end matches Ok(TempRenameNext::SetAside(_)) <==> (target matches EntryStat::File(Ok(seen)) && seen@
            != rename.expected_identity@),
        target is NotFound ==> end is Err,
{
}

/// A file system is said to lack a rename that replaces nothing exactly where it
/// says that the call, the support or the flag is missing.
pub proof fn missing_support_is_recognised(errno: RenameErrno, code: Option<i32>)
    ensures
        means_unsupported(errno) <==> (errno == RenameErrno::NoSuchCall || errno == RenameErrno::NotSupported || errno
            == RenameErrno::InvalidArgument),
        code is None ==> !means_unsupported_on_windows(code),
        code matches Some(number) ==> (means_unsupported_on_windows(code) <==> (number == 1 || number == 17 || number
            == 50 || number == 87 || number == 120)),
{
}

/// The identity of a file ends with the number that the file has on its device,
/// and what stands in front of it is the same for all files of the device.
pub proof fn identities_end_with_the_number_of_the_file(device: u64, number: u64, other_number: u64)
    ensures
        text::has_prefix(identity_text(device, number), "cap:"@ + text::decimal_text(device as nat) + ":"@),
        text::has_suffix(identity_text(device, number), text::decimal_text(number as nat)),
        identity_text(device, number).len() - text::decimal_text(number as nat).len() == identity_text(
            device,
            other_number,
        ).len() - text::decimal_text(other_number as nat).len(),
{
    let all = identity_text(device, number);
    let head = "cap:"@ + text::decimal_text(device as nat) + ":"@;
    let tail = text::decimal_text(number as nat);
    assert(all.subrange(0, head.len() as int) =~= head);
    assert(all.subrange(all.len() - tail.len(), all.len() as int) =~= tail);
}

/// What stands in the way of an anchored file is told: what was found under its
/// name, that it is missing, or that another file took its place.
pub proof fn what_stands_in_the_way_is_told(
    stat: EntryStat,
    expected_identity: Seq<char>,
    removal: Result<TempRemovalNext, String>,
    rename: Result<TempRename, String>,
    renamed: TempRename,
    published: Result<TempRenameNext, String>,
    aside: TempSetAside,
    quarantine_path: Seq<char>,
    deletion: Result<TempDeletion, String>,
)
    requires
        removal_leads_to(stat, expected_identity, removal),
        rename_leads_to(stat, expected_identity, rename),
        renamed_leads_to(renamed, stat, published),
        set_aside_leads_to(aside, stat, quarantine_path, deletion),
    ensures
        stat is Symlink ==> owned_identity(stat) == Err::<Option<Seq<char>>, Seq<char>>(
            "operation-owned path was replaced by a symbolic link"@,
        ),
        stat is NotFile ==> owned_identity(stat) == Err::<Option<Seq<char>>, Seq<char>>(
            "operation-owned path was replaced by a non-file entry"@,
        ),
        stat matches EntryStat::Failed(error) ==> owned_identity(stat) == Err::<Option<Seq<char>>, Seq<char>>(error@)
            && target_is_free(stat) == Err::<(), Seq<char>>(
            "Failed to inspect local download destination: "@ + error@,
        ),
        stat matches EntryStat::File(Err(error)) ==> owned_identity(stat) == Err::<Option<Seq<char>>, Seq<char>>(error@),
        owned_identity(stat) matches Err(reason) ==> (removal matches Err(told) && told@ == reason) && (
        rename matches Err(told) && told@ == reason) && (published matches Err(told) && told@ == reason) && (
        deletion matches Err(told) && told@ == reason),
        stat is NotFound ==> (removal matches Ok(TempRemovalNext::Absent)) && (rename matches Err(told) && told@
            == "download temporary file is missing"@) && (published matches Err(told) && told@
            == "published destination is missing"@) && (deletion matches Err(told) && told@
            == "quarantined temporary file is missing"@),
        stat matches EntryStat::File(Ok(seen)) ==> (seen@ != expected_identity ==> (removal matches Err(told) && told@
            == "operation-owned temporary file identity changed"@) && (rename matches Err(told) && told@
            == "download temporary file identity changed"@)) && (seen@ != aside.expected_identity@ ==> (
        deletion matches Err(told) && told@
            == "operation-owned temporary file was replaced; replacement preserved in "@ + quarantine_path)),
{
}

/// Two paths that cannot be anchored are told why: the destination has no parent,
/// the temporary file is no sibling of it, or one of them names no file.
pub proof fn unanchored_paths_are_told_why(local: Seq<ComponentView>, temp: Seq<ComponentView>)
    ensures
        local_path::parent(local) is None ==> anchor_names(local, temp) == Err::<(Seq<char>, Seq<char>), Seq<char>>(
            "Local destination parent is required"@,
        ),
        local_path::parent(local) is Some && local_path::parent(temp) == local_path::parent(local)
            && local_path::file_name(local) is None ==> anchor_names(local, temp) == Err::<
            (Seq<char>, Seq<char>),
            Seq<char>,
        >("Local destination"@ + " must name a file"@),
        local_path::parent(local) is Some && local_path::parent(temp) == local_path::parent(local)
            && local_path::single_name(local, "Local destination"@) is Ok && local_path::file_name(temp) is None
            ==> anchor_names(local, temp) == Err::<(Seq<char>, Seq<char>), Seq<char>>(
            "Download temporary file"@ + " must name a file"@,
        ),
{
}

} // verus!
