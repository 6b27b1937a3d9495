//! Names of the partial files that a transfer writes to, and how a transfer
//! knows its own again.
use crate::local_path;
use crate::local_path::LocalPath;
use crate::record::FileTransferStorageRecord;
use crate::text;
use crate::text::ends_with;
use crate::text::joined3;
use crate::text::joined5;
use crate::text::name_of;
use crate::text::parent_of;
use crate::text::same_text;
use crate::text::starts_with;
use vstd::prelude::*;

verus! {

/// The character is a hexadecimal digit, in lower case.
pub open spec fn is_lower_hex(c: char) -> bool {
    '0' <= c <= '9' || 'a' <= c <= 'f'
}

/// A hyphen stands at this place of an identifier.
pub open spec fn is_hyphen_place(at: int) -> bool {
    at == 8 || at == 13 || at == 18 || at == 23
}

/// The text has the shape of a random identifier: 32 hexadecimal digits in five
/// groups, with the version and the variant in their places.
pub open spec fn is_identifier(value: Seq<char>) -> bool {
    &&& value.len() == 36
    &&& forall|i: int|
        0 <= i < 36 ==> if is_hyphen_place(i) {
            #[trigger] value[i] == '-'
        } else {
            is_lower_hex(value[i])
        }
    &&& value[14] == '4'
    &&& value[19] == '8' || value[19] == '9' || value[19] == 'a' || value[19] == 'b'
}

/// `uuid::Uuid::new_v4`, rendered: a random identifier of version four, in lower
/// case and with hyphens. Which one comes is left to chance; that two calls give
/// different ones is not stated.
#[verifier::external_body]
pub(crate) fn random_identifier() -> (identifier: String)
    ensures
        is_identifier(identifier@),
{
    uuid::Uuid::new_v4().to_string()
}

/// A new identifier for a transfer.
pub fn new_transfer_id() -> (identifier: String)
    ensures
        is_identifier(identifier@),
{
    random_identifier()
}

/// What the name of every partial of a transfer begins with.
pub open spec fn owner_prefix(kind: Seq<char>, transfer_id: Seq<char>) -> Seq<char> {
    kind + transfer_id + "-"@
}

/// The name of a partial.
pub open spec fn partial_name(kind: Seq<char>, transfer_id: Seq<char>, unique: Seq<char>) -> Seq<char> {
    kind + transfer_id + "-"@ + unique + ".part"@
}

/// A path in the directory of another path.
pub open spec fn sibling(path: Seq<char>, name: Seq<char>) -> Seq<char> {
    match text::parent_text(path) {
        Some(parent) => parent + "/"@ + name,
        None => name,
    }
}

/// A partial stands next to the file it becomes, and its name is of the kind
/// and of the transfer.
pub open spec fn is_owned(kind: Seq<char>, transfer_id: Seq<char>, target: Seq<char>, partial: Seq<char>) -> bool {
    &&& text::parent_text(target) == text::parent_text(partial)
    &&& text::has_prefix(text::name_text(partial), owner_prefix(kind, transfer_id))
    &&& text::has_suffix(text::name_text(partial), ".part"@)
}

/// The name of a partial of the given kind and transfer.
pub fn partial_file_name(kind: &str, transfer_id: &str, unique: &str) -> (name: String)
    ensures
        name@ == partial_name(kind@, transfer_id@, unique@),
{
    joined5(kind, transfer_id, "-", unique, ".part")
}

/// A path in the directory of another path.
pub fn sibling_path(path: &str, name: &str) -> (all: String)
    ensures
        all@ == sibling(path@, name@),
{
    match parent_of(path) {
        Some(parent) => joined3(parent, "/", name),
        None => name.to_owned(),
    }
}

/// A new partial of an upload, next to the remote file.
pub fn upload_partial_path(remote_path: &str, transfer_id: &str) -> (partial: String)
    ensures
        exists|unique: Seq<char>| #[trigger]
            is_identifier(unique) && partial@ == sibling(
                remote_path@,
                partial_name(".dbx-upload-"@, transfer_id@, unique),
            ),
{
    let unique = random_identifier();
    let name = partial_file_name(".dbx-upload-", transfer_id, unique.as_str());
    assert(is_identifier(unique@));
    sibling_path(remote_path, name.as_str())
}

/// A new partial of a copy or rename, next to the destination.
pub fn remote_copy_partial_path(destination_path: &str, transfer_id: &str) -> (partial: String)
    ensures
        exists|unique: Seq<char>| #[trigger]
            is_identifier(unique) && partial@ == sibling(
                destination_path@,
                partial_name(".dbx-copy-"@, transfer_id@, unique),
            ),
{
    let unique = random_identifier();
    let name = partial_file_name(".dbx-copy-", transfer_id, unique.as_str());
    assert(is_identifier(unique@));
    sibling_path(destination_path, name.as_str())
}

/// The name of a new partial of a download.
pub fn download_temp_name(transfer_id: &str) -> (name: String)
    ensures
        exists|unique: Seq<char>| #[trigger]
            is_identifier(unique) && name@ == partial_name(".dbx-download-"@, transfer_id@, unique),
{
    let unique = random_identifier();
    assert(is_identifier(unique@));
    partial_file_name(".dbx-download-", transfer_id, unique.as_str())
}

/// The name of a new directory in which a file is set aside.
pub fn quarantine_name(directory_prefix: &str) -> (name: String)
    ensures
        exists|unique: Seq<char>| #[trigger] is_identifier(unique) && name@ == directory_prefix@ + unique,
{
    let unique = random_identifier();
    assert(is_identifier(unique@));
    crate::text::joined2(directory_prefix, unique.as_str())
}

/// The path that has the file name of `sibling_relative` in the directory of
/// `final_path`.
pub fn sibling_remote_path(final_path: &str, sibling_relative: &str) -> (all: String)
    ensures
        all@ == sibling(final_path@, text::name_text(sibling_relative@)),
{
    sibling_path(final_path, name_of(sibling_relative))
}

fn same_parent_text(left: &str, right: &str) -> (same: bool)
    ensures
        same == (text::parent_text(left@) == text::parent_text(right@)),
{
    match (parent_of(left), parent_of(right)) {
        (Some(first), Some(second)) => same_text(first, second),
        (None, None) => true,
        _ => false,
    }
}

fn owns(kind: &str, transfer_id: &str, target: &str, partial: &str) -> (owned: bool)
    ensures
        owned == is_owned(kind@, transfer_id@, target@, partial@),
{
    if !same_parent_text(target, partial) {
        return false;
    }
    let prefix = joined3(kind, transfer_id, "-");
    let name = name_of(partial);
    starts_with(name, prefix.as_str()) && ends_with(name, ".part")
}

/// The partial is the upload's own.
pub open spec fn upload_owns(transfer: FileTransferStorageRecord, partial: Seq<char>) -> bool {
    transfer.direction@ == "upload"@ && is_owned(
        ".dbx-upload-"@,
        transfer.id@,
        transfer.remote_path@,
        partial,
    )
}

/// The partial is the copy's or rename's own.
pub open spec fn remote_copy_owns(transfer: FileTransferStorageRecord, partial: Seq<char>) -> bool {
    (transfer.direction@ == "copy"@ || transfer.direction@ == "rename"@) && is_owned(
        ".dbx-copy-"@,
        transfer.id@,
        transfer.local_path@,
        partial,
    )
}

/// The temporary file is the download's own.
pub open spec fn download_owns(
    transfer: FileTransferStorageRecord,
    target: Seq<local_path::ComponentView>,
    temp: Seq<local_path::ComponentView>,
) -> bool {
    &&& transfer.direction@ == "download"@
    &&& local_path::parent(temp) == local_path::parent(target)
    &&& local_path::file_name(temp) is Some
    &&& text::has_prefix(local_path::file_name(temp)->0, owner_prefix(".dbx-download-"@, transfer.id@))
    &&& text::has_suffix(local_path::file_name(temp)->0, ".part"@)
}

/// Says whether a partial is the upload's own.
pub fn is_owned_upload_partial(transfer: &FileTransferStorageRecord, partial_path: &str) -> (owned: bool)
    ensures
        owned == upload_owns(*transfer, partial_path@),
{
    same_text(transfer.direction.as_str(), "upload") && owns(
        ".dbx-upload-",
        transfer.id.as_str(),
        transfer.remote_path.as_str(),
        partial_path,
    )
}

/// Says whether a partial is the copy's or rename's own.
pub fn is_owned_remote_copy_partial(transfer: &FileTransferStorageRecord, partial_path: &str) -> (owned: bool)
    ensures
        owned == remote_copy_owns(*transfer, partial_path@),
{
    (same_text(transfer.direction.as_str(), "copy") || same_text(transfer.direction.as_str(), "rename"))
        && owns(".dbx-copy-", transfer.id.as_str(), transfer.local_path.as_str(), partial_path)
}

/// Says whether a temporary file is the download's own. `target` is the local
/// path of the transfer.
pub fn is_owned_temp_path(transfer: &FileTransferStorageRecord, target: &LocalPath, temp_path: &LocalPath) -> (owned:
    bool)
    ensures
        owned == download_owns(*transfer, target@, temp_path@),
{
    if !same_text(transfer.direction.as_str(), "download") {
        return false;
    }
    if !temp_path.same_parent(target) {
        return false;
    }
    match temp_path.name() {
        None => false,
        Some(name) => {
            let prefix = joined3(".dbx-download-", transfer.id.as_str(), "-");
            starts_with(name, prefix.as_str()) && ends_with(name, ".part")
        },
    }
}

/// No slash stands in the text.
pub open spec fn no_slash(value: Seq<char>) -> bool {
    forall|i: int| 0 <= i < value.len() ==> value[i] != '/'
}

proof fn no_slash_no_occurrence(value: Seq<char>)
    requires
        no_slash(value),
    ensures
        text::split_at_last(value, text::slash()) is None,
{
    text::lemma_no_occurrence(value, text::slash());
    if text::occurs_in(value, text::slash()) {
        let at = choose|at: int| text::occurs_at(value, text::slash(), at);
        assert(value.subrange(at, at + 1)[0] == value[at]);
    }
}

/// A path in the directory of another path has that path's parent and the name
/// it was given.
proof fn sibling_parts(path: Seq<char>, name: Seq<char>)
    requires
        no_slash(name),
    ensures
        text::parent_text(sibling(path, name)) == text::parent_text(path),
        text::name_text(sibling(path, name)) == name,
{
    reveal_strlit("/");
    assert("/"@ =~= text::slash());
    let whole = sibling(path, name);
    match text::parent_text(path) {
        Some(parent) => {
            let at = parent.len() as int;
            assert(whole.subrange(at, at + 1) =~= text::slash());
            assert forall|later: int| at < later implies !text::occurs_at(whole, text::slash(), later) by {
                if text::occurs_at(whole, text::slash(), later) {
                    assert(whole.subrange(later, later + 1)[0] == whole[later]);
                    assert(whole[later] == name[later - at - 1]);
                }
            }
            text::lemma_last_occurrence(whole, text::slash(), at);
            assert(whole.subrange(0, at) =~= parent);
            assert(whole.subrange(at + 1, whole.len() as int) =~= name);
        },
        None => {
            no_slash_no_occurrence(whole);
        },
    }
}

proof fn partial_name_ends(kind: Seq<char>, transfer_id: Seq<char>, unique: Seq<char>)
    ensures
        text::has_prefix(partial_name(kind, transfer_id, unique), owner_prefix(kind, transfer_id)),
        text::has_suffix(partial_name(kind, transfer_id, unique), ".part"@),
{
    let name = partial_name(kind, transfer_id, unique);
    let prefix = owner_prefix(kind, transfer_id);
    assert(name.subrange(0, prefix.len() as int) =~= prefix);
    assert(name.subrange(name.len() - ".part"@.len(), name.len() as int) =~= ".part"@);
}

proof fn partial_name_has_no_slash(kind: Seq<char>, transfer_id: Seq<char>, unique: Seq<char>)
    requires
        no_slash(kind),
        no_slash(transfer_id),
        is_identifier(unique),
    ensures
        no_slash(partial_name(kind, transfer_id, unique)),
{
    reveal_strlit("-");
    reveal_strlit(".part");
    let head = kind + transfer_id;
    assert(no_slash(head));
    assert(no_slash(head + "-"@));
    assert(no_slash(unique));
    assert(no_slash(head + "-"@ + unique));
}

/// A transfer knows every partial again that was made for it, of whatever kind
/// it is.
pub proof fn own_partial_is_recognised(
    kind: Seq<char>,
    transfer_id: Seq<char>,
    target: Seq<char>,
    unique: Seq<char>,
)
    requires
        no_slash(kind),
        no_slash(transfer_id),
        is_identifier(unique),
    ensures
        is_owned(kind, transfer_id, target, sibling(target, partial_name(kind, transfer_id, unique))),
{
    let name = partial_name(kind, transfer_id, unique);
    partial_name_has_no_slash(kind, transfer_id, unique);
    sibling_parts(target, name);
    partial_name_ends(kind, transfer_id, unique);
}

/// No transfer takes a partial for its own that was made for a transfer with
/// another identifier of the same length.
pub proof fn foreign_partial_is_refused(
    kind: Seq<char>,
    transfer_id: Seq<char>,
    other_id: Seq<char>,
    target: Seq<char>,
    other_target: Seq<char>,
    unique: Seq<char>,
)
    requires
        no_slash(kind),
        no_slash(other_id),
        is_identifier(unique),
        transfer_id.len() == other_id.len(),
        transfer_id != other_id,
    ensures
        !is_owned(kind, transfer_id, target, sibling(other_target, partial_name(kind, other_id, unique))),
{
    let name = partial_name(kind, other_id, unique);
    partial_name_has_no_slash(kind, other_id, unique);
    sibling_parts(other_target, name);
    let prefix = owner_prefix(kind, transfer_id);
    if text::has_prefix(name, prefix) {
        assert(name.subrange(0, prefix.len() as int) == prefix);
        assert forall|i: int| 0 <= i < transfer_id.len() implies transfer_id[i] == other_id[i] by {
            let at = kind.len() + i;
            assert(prefix[at] == transfer_id[i]);
            assert(name.subrange(0, prefix.len() as int)[at] == name[at]);
            assert(name[at] == other_id[i]);
        }
        assert(transfer_id =~= other_id);
    }
}

/// Every identifier of a transfer can stand in the name of a partial.
pub proof fn identifiers_have_no_slash(identifier: Seq<char>)
    requires
        is_identifier(identifier),
    ensures
        no_slash(identifier),
{
}

/// A sibling of a path stands in the directory of that path, under the name that
/// it is given.
pub proof fn siblings_stand_in_one_directory(path: Seq<char>, name: Seq<char>)
    requires
        forall|i: int| 0 <= i < name.len() ==> name[i] != '/',
    ensures
        text::parent_text(sibling(path, name)) == text::parent_text(path),
        text::name_text(sibling(path, name)) == name,
{
    sibling_parts(path, name);
}

/// The name of a partial says what kind of partial it is, which transfer made it
/// and what tells it from the others of that transfer.
pub proof fn partials_are_named_after_their_transfer(
    kind: Seq<char>,
    transfer_id: Seq<char>,
    unique: Seq<char>,
    other_unique: Seq<char>,
)
    ensures
        text::has_prefix(partial_name(kind, transfer_id, unique), kind + transfer_id + "-"@),
        text::has_suffix(partial_name(kind, transfer_id, unique), "-"@ + unique + ".part"@),
        partial_name(kind, transfer_id, unique).len() == kind.len() + transfer_id.len() + unique.len() + 6,
        unique.len() == other_unique.len() && unique != other_unique ==> partial_name(kind, transfer_id, unique)
            != partial_name(kind, transfer_id, other_unique),
{
    reveal_strlit("-");
    reveal_strlit(".part");
    let name = partial_name(kind, transfer_id, unique);
    let head = kind + transfer_id + "-"@;
    let tail = "-"@ + unique + ".part"@;
    assert(name.subrange(0, head.len() as int) =~= head);
    assert(name.subrange(name.len() - tail.len(), name.len() as int) =~= tail);
    if unique.len() == other_unique.len() {
        let other = partial_name(kind, transfer_id, other_unique);
        let from = head.len() as int;
        assert(name.subrange(from, from + unique.len()) =~= unique);
        assert(other.subrange(from, from + unique.len()) =~= other_unique);
    }
}

/// A partial that was made for a transfer is the transfer's own: beside the remote
/// file of an upload, and beside the destination of a copy or rename.
pub proof fn transfers_own_the_partials_they_made(transfer: FileTransferStorageRecord, unique: Seq<char>)
    requires
        is_identifier(unique),
        forall|i: int| 0 <= i < transfer.id@.len() ==> transfer.id@[i] != '/',
    ensures
        transfer.direction@ == "upload"@ ==> upload_owns(
            transfer,
            sibling(transfer.remote_path@, ".dbx-upload-"@ + transfer.id@ + "-"@ + unique + ".part"@),
        ),
        transfer.direction@ == "copy"@ || transfer.direction@ == "rename"@ ==> remote_copy_owns(
            transfer,
            sibling(transfer.local_path@, ".dbx-copy-"@ + transfer.id@ + "-"@ + unique + ".part"@),
        ),
{
    reveal_strlit(".dbx-upload-");
    reveal_strlit(".dbx-copy-");
    assert(no_slash(".dbx-upload-"@));
    assert(no_slash(".dbx-copy-"@));
    own_partial_is_recognised(".dbx-upload-"@, transfer.id@, transfer.remote_path@, unique);
    own_partial_is_recognised(".dbx-copy-"@, transfer.id@, transfer.local_path@, unique);
}

/// A transfer takes nothing for its own but what stands beside the file that it
/// makes, under a name that begins with its kind and its identifier and ends like
/// a partial. An upload owns no partial of a copy, and a copy none of an upload.
pub proof fn transfers_own_nothing_else(transfer: FileTransferStorageRecord, partial: Seq<char>)
    ensures
        upload_owns(transfer, partial) ==> transfer.direction@ == "upload"@ && text::parent_text(partial)
            == text::parent_text(transfer.remote_path@) && text::has_prefix(
            text::name_text(partial),
            ".dbx-upload-"@ + transfer.id@ + "-"@,
        ) && text::has_suffix(text::name_text(partial), ".part"@),
        remote_copy_owns(transfer, partial) ==> (transfer.direction@ == "copy"@ || transfer.direction@ == "rename"@)
            && text::parent_text(partial) == text::parent_text(transfer.local_path@) && text::has_prefix(
            text::name_text(partial),
            ".dbx-copy-"@ + transfer.id@ + "-"@,
        ) && text::has_suffix(text::name_text(partial), ".part"@),
{
}

/// A temporary file is a download's own exactly where its path differs from the
/// local file's in nothing but the name, which begins with the identifier of the
/// download and ends like a partial.
pub proof fn downloads_own_only_their_siblings(
    transfer: FileTransferStorageRecord,
    target: LocalPath,
    temp: LocalPath,
    name: Seq<char>,
)
    requires
        target.components@.len() > 0 && target.components@.last() is Normal,
        temp.components@.len() > 0 && (temp.components@.last() matches local_path::PathComponent::Normal(last) && last@
            == name),
    ensures
        download_owns(transfer, target@, temp@) <==> transfer.direction@ == "download"@ && temp.components@.len()
            == target.components@.len() && (forall|i: int|
            0 <= i < target.components@.len() - 1 ==> (#[trigger] temp.components@[i])@ == target.components@[i]@)
            && text::has_prefix(name, ".dbx-download-"@ + transfer.id@ + "-"@) && text::has_suffix(name, ".part"@),
{
    local_path::paths_name_what_they_end_with(temp);
    local_path::siblings_differ_in_their_names_alone(temp, target);
}

/// An identifier has thirty-two hexadecimal digits in lower case, and hyphens
/// behind the eighth, twelfth, sixteenth and twentieth of them.
pub proof fn identifiers_have_one_shape(identifier: Seq<char>)
    requires
        is_identifier(identifier),
    ensures
        identifier.len() == 36,
        identifier[8] == '-' && identifier[13] == '-' && identifier[18] == '-' && identifier[23] == '-',
        identifier[14] == '4',
        forall|i: int|
            0 <= i < 36 && i != 8 && i != 13 && i != 18 && i != 23 ==> ('0' <= #[trigger] identifier[i] <= '9' || 'a'
                <= identifier[i] <= 'f'),
{
    assert(is_hyphen_place(8) && is_hyphen_place(13) && is_hyphen_place(18) && is_hyphen_place(23));
    assert forall|i: int| 0 <= i < 36 && i != 8 && i != 13 && i != 18 && i != 23 implies ('0'
        <= #[trigger] identifier[i] <= '9' || 'a' <= identifier[i] <= 'f') by {
        assert(!is_hyphen_place(i));
        assert(is_lower_hex(identifier[i]));
    }
}

} // verus!
