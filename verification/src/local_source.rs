//! The local file of an upload: which file is taken, and how it is known to be
//! the same at the end.
use crate::anchored;
use crate::anchored::ensure_target_is_free;
use crate::anchored::walk_to_parent;
use crate::local_path;
use crate::local_path::single_file_name;
use crate::local_path::DirectoryRefusal;
use crate::local_path::LocalPath;
use crate::text;
use crate::text::decimal;
use crate::text::joined2;
use crate::text::joined3;
use crate::text::joined4;
use crate::text::joined5;
use crate::text::same_text;
use crate::text::signed_decimal;
use crate::fingerprint;
use vstd::prelude::*;

verus! {

/// A local path is taken where it is absolute, holds no dots and names a file.
pub open spec fn path_is_taken(path: LocalPath, label: Seq<char>) -> Result<(), Seq<char>> {
    if !path.absolute {
        Err(label + " must be an absolute path"@)
    } else if local_path::has_dots(path@) {
        Err(label + " cannot contain '.' or '..' path segments"@)
    } else if local_path::file_name(path@) is None {
        Err(label + " must name a file"@)
    } else {
        Ok(())
    }
}

fn check_path(path: &LocalPath, label: &str) -> (taken: Result<(), String>)
    ensures
        match taken {
            Ok(_) => path_is_taken(*path, label@) is Ok,
            Err(reason) => path_is_taken(*path, label@) == Err::<(), Seq<char>>(reason@),
        },
{
    if !path.absolute {
        return Err(joined2(label, " must be an absolute path"));
    }
    if path.contains_dots() {
        return Err(joined2(label, " cannot contain '.' or '..' path segments"));
    }
    if path.name().is_none() {
        return Err(joined2(label, " must name a file"));
    }
    Ok(())
}

/// Says whether a local path may be uploaded from.
pub fn validate_local_source_path(path: &LocalPath) -> (taken: Result<(), String>)
    ensures
        match taken {
            Ok(_) => path_is_taken(*path, "Local upload source"@) is Ok,
            Err(reason) => path_is_taken(*path, "Local upload source"@) == Err::<(), Seq<char>>(reason@),
        },
{
    check_path(path, "Local upload source")
}

/// Due: opening the directory that a download is to go to.
#[non_exhaustive]
#[derive(Debug)]
pub struct DestinationOpening {
    pub target_name: String,
    /// The directories from the root down, or why they are not opened.
    pub walk: Result<Vec<String>, DirectoryRefusal>,
}

/// Says whether a download may go to a local path. A path that names a file has
/// a parent.
pub fn validate_local_destination(path: &LocalPath) -> (taken: Result<DestinationOpening, String>)
    ensures
        match path_is_taken(*path, "Local download destination"@) {
            Err(reason) => taken matches Err(told) && told@ == reason,
            Ok(_) => match local_path::single_name(path@, "Local download destination"@) {
                Err(reason) => taken matches Err(told) && told@ == reason,
                Ok(name) => taken matches Ok(opening) && opening.target_name@ == name
                    && anchored::is_walk_to_parent(*path, opening.walk),
            },
        },
{
    if let Err(reason) = check_path(path, "Local download destination") {
        return Err(reason);
    }
    match single_file_name(path, "Local download destination") {
        Err(reason) => Err(reason),
        Ok(target_name) => Ok(DestinationOpening { target_name, walk: walk_to_parent(path) }),
    }
}

impl DestinationOpening {
    /// Takes whether the directory could be opened, what stands under the
    /// target's name there, and the directory's identity. Gives the identity.
    pub fn inspected(
        self,
        opened: Result<(), String>,
        target: anchored::EntryStat,
        identity: Result<String, String>,
    ) -> (taken: Result<String, String>)
        ensures
            match opened {
                Err(error) => taken matches Err(told) && told@
                    == "Local download destination parent is unavailable or unsafe: "@ + error@,
                Ok(_) => match anchored::target_is_free(target) {
                    Err(reason) => taken matches Err(told) && told@ == reason,
                    Ok(_) => match identity {
                        Err(error) => taken matches Err(told) && told@
                            == "Failed to identify local destination: "@ + error@,
                        Ok(found) => taken == Ok::<String, String>(found),
                    },
                },
            },
    {
        if let Err(error) = opened {
            return Err(
                joined2(
                    "Local download destination parent is unavailable or unsafe: ",
                    error.as_str(),
                ),
            );
        }
        if let Err(reason) = ensure_target_is_free(target) {
            return Err(reason);
        }
        match identity {
            Err(error) => Err(
                joined2("Failed to identify local destination: ", error.as_str()),
            ),
            Ok(found) => Ok(found),
        }
    }
}

/// What a local file was opened with.
#[derive(Debug)]
pub struct UploadSourceProof {
    pub path: LocalPath,
    pub directory_identity: String,
    pub identity: String,
    pub fingerprint: String,
    pub total_bytes: i64,
}

/// What stands under the name of a local file.
#[derive(Debug)]
pub struct SourceEntry {
    pub is_symlink: bool,
    pub is_file: bool,
    pub identity: String,
}

/// The local file that was uploaded is the one that is there, as it was.
pub open spec fn is_unchanged(
    proof: UploadSourceProof,
    entry: SourceEntry,
    fingerprint: Seq<char>,
    bytes: i64,
) -> bool {
    &&& !entry.is_symlink
    &&& entry.is_file
    &&& entry.identity@ == proof.identity@
    &&& bytes == proof.total_bytes
    &&& fingerprint == proof.fingerprint@
}

/// Another look at a local file: whether its directory could be opened, the
/// directory's identity, what stands under the file's name there, and the
/// fingerprint of the file that was opened.
#[derive(Debug)]
pub struct SourceLook {
    pub opened: Result<(), String>,
    pub directory: Result<String, String>,
    pub entry: Result<SourceEntry, String>,
    pub fingerprint: Result<String, String>,
}

/// The name of a local file in its directory.
pub open spec fn source_name(path: LocalPath) -> Result<Seq<char>, Seq<char>> {
    if local_path::parent(path@) is None {
        Err("Local upload source parent is required"@)
    } else {
        local_path::single_name(path@, "Local upload source"@)
    }
}

/// What another look at a local file says: at its path first, then at its
/// directory, then at what stands under its name, then at the file that was
/// opened.
pub open spec fn still_unchanged(proof: UploadSourceProof, look: SourceLook, bytes: i64) -> Result<(), Seq<char>> {
    match (source_name(proof.path), look.opened, look.directory) {
        (Err(reason), _, _) => Err(reason),
        (Ok(_), Err(error), _) => Err("Local upload source parent changed or became unsafe: "@ + error@),
        (Ok(_), Ok(_), Err(error)) => Err("Failed to verify upload source parent: "@ + error@),
        (Ok(_), Ok(_), Ok(identity)) => if identity@ != proof.directory_identity@ {
            Err("Upload source parent changed while the transfer was running"@)
        } else {
            match (look.entry, look.fingerprint) {
                (Err(error), _) => Err(
                    "Local upload source changed or disappeared while the transfer was running: "@ + error@,
                ),
                (Ok(_), Err(error)) => Err(error@),
                (Ok(found), Ok(current)) => if is_unchanged(proof, found, current@, bytes) {
                    Ok(())
                } else {
                    Err(
                        "Upload source changed while the transfer was running; the remote partial will not be published"@,
                    )
                },
            }
        },
    }
}

/// Takes another look at a local file that was uploaded, of which so many bytes
/// were moved.
pub fn verify_upload_source_unchanged(proof: &UploadSourceProof, look: SourceLook, bytes_transferred: i64) -> (unchanged:
    Result<(), String>)
    ensures
        match unchanged {
            Ok(_) => still_unchanged(*proof, look, bytes_transferred) is Ok,
            Err(reason) => still_unchanged(*proof, look, bytes_transferred) == Err::<(), Seq<char>>(reason@),
        },
{
    if let Err(reason) = reopen_local_source(&proof.path) {
        return Err(reason);
    }
    if let Err(error) = look.opened {
        return Err(
            joined2("Local upload source parent changed or became unsafe: ", error.as_str()),
        );
    }
    match look.directory {
        Err(error) => {
            return Err(joined2("Failed to verify upload source parent: ", error.as_str()));
        },
        Ok(identity) => {
            if !same_text(identity.as_str(), proof.directory_identity.as_str()) {
                return Err(
                    "Upload source parent changed while the transfer was running".to_owned(),
                );
            }
        },
    }
    match (look.entry, look.fingerprint) {
        (Err(error), _) => Err(
            joined2(
                "Local upload source changed or disappeared while the transfer was running: ",
                error.as_str(),
            ),
        ),
        (Ok(_), Err(error)) => Err(error),
        (Ok(found), Ok(current)) => {
            if found.is_symlink || !found.is_file || !same_text(
                found.identity.as_str(),
                proof.identity.as_str(),
            ) || bytes_transferred != proof.total_bytes || !same_text(
                current.as_str(),
                proof.fingerprint.as_str(),
            ) {
                Err(
                    "Upload source changed while the transfer was running; the remote partial will not be published".to_owned(),
                )
            } else {
                Ok(())
            }
        },
    }
}

/// A local file that was uploaded counts as unchanged only where all of its
/// bytes were moved, its directory, its identity and its fingerprint are the
/// ones it was opened with, and no link stands in its place.
pub proof fn unchanged_sources_are_the_opened_ones(proof: UploadSourceProof, look: SourceLook, bytes: i64)
    requires
        still_unchanged(proof, look, bytes) is Ok,
    ensures
        bytes == proof.total_bytes,
        look.directory->Ok_0@ == proof.directory_identity@,
        look.entry->Ok_0.identity@ == proof.identity@,
        look.fingerprint->Ok_0@ == proof.fingerprint@,
        look.entry->Ok_0.is_file && !look.entry->Ok_0.is_symlink,
{
}

/// Due: opening the directory of a local file that is to be uploaded.
#[non_exhaustive]
#[derive(Debug)]
pub struct SourceOpening {
    pub name: String,
    /// The directories from the root down, or why they are not opened.
    pub walk: Result<Vec<String>, DirectoryRefusal>,
}

/// Begins to open a local file that is to be uploaded.
pub fn open_local_source(path: &LocalPath) -> (taken: Result<SourceOpening, String>)
    ensures
        match path_is_taken(*path, "Local upload source"@) {
            Err(reason) => taken matches Err(told) && told@ == reason,
            Ok(_) => match local_path::single_name(path@, "Local upload source"@) {
                Err(reason) => taken matches Err(told) && told@ == reason,
                Ok(name) => taken matches Ok(opening) && opening.name@ == name && anchored::is_walk_to_parent(
                    *path,
                    opening.walk,
                ),
            },
        },
{
    if let Err(reason) = validate_local_source_path(path) {
        return Err(reason);
    }
    match single_file_name(path, "Local upload source") {
        Err(reason) => Err(reason),
        Ok(name) => Ok(SourceOpening { name, walk: walk_to_parent(path) }),
    }
}

/// Begins to open the directory of a local file again.
pub fn reopen_local_source(path: &LocalPath) -> (taken: Result<SourceOpening, String>)
    ensures
        match source_name(*path) {
            Err(reason) => taken matches Err(told) && told@ == reason,
            Ok(name) => taken matches Ok(opening) && opening.name@ == name && anchored::is_walk_to_parent(
                *path,
                opening.walk,
            ),
        },
{
    if !path.has_parent() {
        return Err("Local upload source parent is required".to_owned());
    }
    match single_file_name(path, "Local upload source") {
        Err(reason) => Err(reason),
        Ok(name) => Ok(SourceOpening { name, walk: walk_to_parent(path) }),
    }
}

impl SourceOpening {
    /// Takes whether the directory could be opened, and what stands under the
    /// file's name there. Only a plain file is opened.
    pub fn entry_seen(&self, opened: Result<(), String>, entry: Result<SourceEntry, String>) -> (taken: Result<
        String,
        String,
    >)
        ensures
            match (opened, entry) {
                (Err(error), _) => taken matches Err(told) && told@
                    == "Local upload source parent is unavailable or unsafe: "@ + error@,
                (Ok(_), Err(error)) => taken matches Err(told) && told@
                    == "Local upload source is unavailable: "@ + error@,
                (Ok(_), Ok(found)) => if found.is_symlink {
                    taken matches Err(told) && told@ == "Local upload source cannot be a symbolic link"@
                } else if !found.is_file {
                    taken matches Err(told) && told@ == "Local upload source must be a regular file"@
                } else {
                    taken == Ok::<String, String>(found.identity)
                },
            },
    {
        match (opened, entry) {
            (Err(error), _) => Err(
                joined2(
                    "Local upload source parent is unavailable or unsafe: ",
                    error.as_str(),
                ),
            ),
            (Ok(_), Err(error)) => Err(
                joined2("Local upload source is unavailable: ", error.as_str()),
            ),
            (Ok(_), Ok(found)) => {
                if found.is_symlink {
                    Err("Local upload source cannot be a symbolic link".to_owned())
                } else if !found.is_file {
                    Err("Local upload source must be a regular file".to_owned())
                } else {
                    Ok(found.identity)
                }
            },
        }
    }

    /// Takes the identity and the size of the file that was opened. It has to be
    /// the one that was seen under its name. Gives the size.
    pub fn file_opened(&self, seen_identity: &str, opened_identity: &str, length: u64) -> (size: Result<i64, String>)
        ensures
            if seen_identity@ != opened_identity@ {
                size matches Err(told) && told@ == "Local upload source changed while it was being opened"@
            } else if length > i64::MAX {
                size matches Err(told) && told@ == "Local upload source is too large"@
            } else {
                size matches Ok(found) && found == length
            },
    {
        if !same_text(seen_identity, opened_identity) {
            return Err("Local upload source changed while it was being opened".to_owned());
        }
        if length > i64::MAX as u64 {
            return Err("Local upload source is too large".to_owned());
        }
        Ok(length as i64)
    }
}

/// When a file was modified, since the epoch.
#[derive(Clone, Copy, Debug, PartialEq, Eq, Structural)]
pub struct ModificationTime {
    pub seconds: u64,
    pub nanoseconds: u32,
}

/// When a file was modified, in words.
pub open spec fn modified_text(modified: Option<ModificationTime>) -> Seq<char> {
    match modified {
        Some(time) => text::decimal_text(time.seconds as nat) + ":"@ + text::decimal_text(time.nanoseconds as nat),
        None => "unknown"@,
    }
}

/// What a local file is known by: its length, when it was modified, and a token
/// that changes with it.
pub open spec fn source_fingerprint_text(
    length: u64,
    modified: Option<ModificationTime>,
    change_token: Seq<char>,
) -> Seq<char> {
    text::decimal_text(length as nat) + ":"@ + modified_text(modified) + ":"@ + change_token
}

/// What a local file is known by.
pub fn source_fingerprint(length: u64, modified: Option<ModificationTime>, change_token: &str) -> (all: String)
    ensures
        all@ == source_fingerprint_text(length, modified, change_token@),
{
    let size = decimal(length);
    let when = match modified {
        Some(time) => {
            let seconds = decimal(time.seconds);
            let nanoseconds = decimal(time.nanoseconds as u64);
            joined3(seconds.as_str(), ":", nanoseconds.as_str())
        },
        None => "unknown".to_owned(),
    };
    joined5(size.as_str(), ":", when.as_str(), ":", change_token)
}

/// The token of a file by when it was last changed.
pub fn change_token(seconds: i64, nanoseconds: i64) -> (token: String)
    ensures
        token@ == "ctime:"@ + text::signed_text(seconds as int) + ":"@ + text::signed_text(nanoseconds as int),
{
    let first = signed_decimal(seconds);
    let second = signed_decimal(nanoseconds);
    joined4("ctime:", first.as_str(), ":", second.as_str())
}

/// The token of a file by the change time that Windows keeps of it.
pub fn windows_change_token(change_time: i64) -> (token: String)
    ensures
        token@ == "change_time:"@ + text::signed_text(change_time as int),
{
    let time = signed_decimal(change_time);
    joined2("change_time:", time.as_str())
}

/// A local path is taken exactly where it is absolute, no component of it is a dot
/// or two dots, and it ends with a name. A refusal says which of these is missing.
pub proof fn only_plain_paths_are_taken(path: LocalPath, label: Seq<char>)
    ensures
        path_is_taken(path, label) is Ok <==> path.absolute && (forall|i: int|
            0 <= i < path.components@.len() ==> !((#[trigger] path.components@[i]) is CurDir)
                && !(path.components@[i] is ParentDir)) && path.components@.len() > 0
            && path.components@.last() is Normal,
        !path.absolute ==> path_is_taken(path, label) == Err::<(), Seq<char>>(label + " must be an absolute path"@),
        path.absolute && path.components@.len() == 0 ==> path_is_taken(path, label) == Err::<(), Seq<char>>(
            label + " must name a file"@,
        ),
{
    local_path::dots_are_found(path);
    local_path::paths_name_what_they_end_with(path);
    if path_is_taken(path, label) is Ok {
        assert forall|i: int| 0 <= i < path.components@.len() implies !((#[trigger] path.components@[i]) is CurDir)
            && !(path.components@[i] is ParentDir) by {}
    }
}

/// A local file counts as unchanged wherever all of it was moved and its
/// directory, its identity and its fingerprint are the ones that it was opened
/// with, and it is a file and no link.
pub proof fn unchanged_sources_are_taken(proof: UploadSourceProof, look: SourceLook, bytes: i64)
    requires
        local_path::single_name(proof.path@, "Local upload source"@) is Ok,
        look.opened is Ok,
        look.directory matches Ok(directory) && directory@ == proof.directory_identity@,
        look.entry matches Ok(entry) && entry.is_file && !entry.is_symlink && entry.identity@ == proof.identity@,
        look.fingerprint matches Ok(fingerprint) && fingerprint@ == proof.fingerprint@,
        bytes == proof.total_bytes,
    ensures
        still_unchanged(proof, look, bytes) is Ok,
{
    local_path::file_names_are_single_names(proof.path, "Local upload source"@);
    local_path::siblings_differ_in_their_names_alone(proof.path, proof.path);
}

/// A local file that was not moved whole, or that is another one by now, is
/// refused, and so is one that could not be looked at.
pub proof fn changed_sources_are_refused(proof: UploadSourceProof, look: SourceLook, bytes: i64)
    requires
        ({
            ||| bytes != proof.total_bytes
            ||| look.opened is Err || look.directory is Err || look.entry is Err || look.fingerprint is Err
            ||| look.directory->Ok_0@ != proof.directory_identity@
            ||| look.entry->Ok_0.identity@ != proof.identity@
            ||| look.entry->Ok_0.is_symlink || !look.entry->Ok_0.is_file
            ||| look.fingerprint->Ok_0@ != proof.fingerprint@
        }),
    ensures
        still_unchanged(proof, look, bytes) is Err,
{
}

/// The name of a local file in its directory is the name that its path ends with.
pub proof fn sources_are_named_by_their_paths(path: LocalPath)
    ensures
        source_name(path) matches Ok(name) ==> path.components@.len() > 0 && path.components@.last() is Normal
            && path.components@.last()->Normal_0@ == name,
{
    local_path::file_names_are_single_names(path, "Local upload source"@);
}

/// Local files of another length, modified at another time or with another token
/// have another fingerprint.
pub proof fn source_fingerprints_are_told_apart(
    length: u64,
    modified: Option<ModificationTime>,
    token: Seq<char>,
    other_length: u64,
    other_modified: Option<ModificationTime>,
    other_token: Seq<char>,
)
    requires
        source_fingerprint_text(length, modified, token) == source_fingerprint_text(
            other_length,
            other_modified,
            other_token,
        ),
    ensures
        length == other_length,
        modified == other_modified,
        token == other_token,
{
    reveal_strlit(":");
    reveal_strlit("unknown");
    assert(":"@ =~= seq![':']);
    let rest = modified_text(modified) + (seq![':'] + token);
    let other_rest = modified_text(other_modified) + (seq![':'] + other_token);
    assert(source_fingerprint_text(length, modified, token) =~= text::decimal_text(length as nat) + (seq![':']
        + rest));
    assert(source_fingerprint_text(other_length, other_modified, other_token) =~= text::decimal_text(
        other_length as nat,
    ) + (seq![':'] + other_rest));
    fingerprint::digits_before_colon(length as nat, rest, other_length as nat, other_rest);
    match (modified, other_modified) {
        (Some(time), Some(other_time)) => {
            let tail = text::decimal_text(time.nanoseconds as nat) + (seq![':'] + token);
            let other_tail = text::decimal_text(other_time.nanoseconds as nat) + (seq![':'] + other_token);
            assert(rest =~= text::decimal_text(time.seconds as nat) + (seq![':'] + tail));
            assert(other_rest =~= text::decimal_text(other_time.seconds as nat) + (seq![':'] + other_tail));
            fingerprint::digits_before_colon(time.seconds as nat, tail, other_time.seconds as nat, other_tail);
            fingerprint::digits_before_colon(
                time.nanoseconds as nat,
                token,
                other_time.nanoseconds as nat,
                other_token,
            );
        },
        (None, None) => {
            assert(rest.skip(8) =~= token);
            assert(other_rest.skip(8) =~= other_token);
        },
        (Some(time), None) => {
            text::lemma_decimal_digits(time.seconds as nat);
            assert(rest[0] == text::decimal_text(time.seconds as nat)[0]);
            assert(other_rest[0] == 'u');
        },
        (None, Some(other_time)) => {
            text::lemma_decimal_digits(other_time.seconds as nat);
            assert(other_rest[0] == text::decimal_text(other_time.seconds as nat)[0]);
            assert(rest[0] == 'u');
        },
    }
}

/// A source that is not taken, or that changed while it was sent, is told why.
pub proof fn refused_sources_are_told_why(
    path: LocalPath,
    label: Seq<char>,
    proof_of_source: UploadSourceProof,
    look: SourceLook,
    bytes: i64,
)
    ensures
        !path.absolute ==> path_is_taken(path, label) == Err::<(), Seq<char>>(label + " must be an absolute path"@),
        path.absolute && local_path::has_dots(path@) ==> path_is_taken(path, label) == Err::<(), Seq<char>>(
            label + " cannot contain '.' or '..' path segments"@,
        ),
        local_path::parent(path@) is None ==> source_name(path) == Err::<Seq<char>, Seq<char>>(
            "Local upload source parent is required"@,
        ),
        source_name(proof_of_source.path) is Ok ==> {
            let told = still_unchanged(proof_of_source, look, bytes);
            &&& look.opened matches Err(error) ==> told == Err::<(), Seq<char>>(
                "Local upload source parent changed or became unsafe: "@ + error@,
            )
            &&& look.opened is Ok ==> (look.directory matches Err(error) ==> told == Err::<(), Seq<char>>(
                "Failed to verify upload source parent: "@ + error@,
            ))
            &&& look.opened is Ok ==> (look.directory matches Ok(identity) ==> (identity@
                != proof_of_source.directory_identity@ ==> told == Err::<(), Seq<char>>(
                "Upload source parent changed while the transfer was running"@,
            )))
            &&& look.opened is Ok ==> (look.directory matches Ok(identity) ==> (identity@
                == proof_of_source.directory_identity@ ==> (look.entry matches Err(error) ==> told == Err::<
                (),
                Seq<char>,
            >("Local upload source changed or disappeared while the transfer was running: "@ + error@))))
            &&& look.opened is Ok ==> (look.directory matches Ok(identity) ==> (identity@
                == proof_of_source.directory_identity@ && look.entry is Ok && look.fingerprint is Ok && told is Err
                ==> told == Err::<(), Seq<char>>(
                "Upload source changed while the transfer was running; the remote partial will not be published"@,
            )))
            &&& look.opened is Ok ==> (look.directory matches Ok(identity) ==> (identity@
                == proof_of_source.directory_identity@ && look.entry is Ok ==> (look.fingerprint matches Err(error)
                ==> told == Err::<(), Seq<char>>(error@))))
        },
{
}

} // verus!
