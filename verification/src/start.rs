//! What is asked for when a transfer starts, and whether it is taken.
use crate::local_path::LocalPath;
use crate::local_source;
use crate::local_source::validate_local_source_path;
use crate::policy;
use crate::policy::RemoteMutationPolicy;
use crate::policy::UploadPolicy;
use crate::remote;
use crate::remote::webhdfs_replace_message;
use crate::text::same_text;
use vstd::prelude::*;

verus! {

/// A download that is asked for.
#[derive(Debug)]
pub struct StartDownloadInput {
    pub connection_id: String,
    pub remote_path: String,
    pub local_path: String,
}

/// An upload that is asked for.
#[derive(Debug)]
pub struct StartUploadInput {
    pub connection_id: String,
    pub local_path: String,
    pub remote_path: String,
    pub policy: UploadPolicy,
}

/// A copy or rename that is asked for.
#[derive(Debug)]
pub struct StartRemoteTransferInput {
    pub connection_id: String,
    pub source_path: String,
    pub destination_path: String,
    pub policy: RemoteMutationPolicy,
}

/// A transfer that was started.
#[derive(Debug)]
pub struct StartTransferResult {
    pub transfer_id: String,
}

/// Whether a dialog authorized a local file. There may be no way to ask.
#[derive(Clone, Copy, Debug, PartialEq, Eq, Structural)]
pub enum Authorization {
    Unavailable,
    Denied,
    Granted,
}

/// Why a download may not go where it was not authorized to.
pub open spec fn destination_authorized(authorization: Authorization) -> Result<(), Seq<char>> {
    match authorization {
        Authorization::Unavailable => Err(
            "File-system authorization is unavailable; choose the destination again"@,
        ),
        Authorization::Denied => Err(
            "Local download destination is not authorized; choose it with the save dialog"@,
        ),
        Authorization::Granted => Ok(()),
    }
}

/// Why an upload may not come from where it was not authorized to.
pub open spec fn source_authorized(authorization: Authorization) -> Result<(), Seq<char>> {
    match authorization {
        Authorization::Unavailable => Err(
            "File-system authorization is unavailable; choose the source file again"@,
        ),
        Authorization::Denied => Err(
            "Local upload source is not authorized; choose it with the open dialog"@,
        ),
        Authorization::Granted => Ok(()),
    }
}

/// Says whether a download may go to a local file.
pub fn validate_local_authorization(authorization: Authorization) -> (granted: Result<(), String>)
    ensures
        match granted {
            Ok(_) => destination_authorized(authorization) is Ok,
            Err(reason) => destination_authorized(authorization) == Err::<(), Seq<char>>(reason@),
        },
{
    match authorization {
        Authorization::Unavailable => Err(
            "File-system authorization is unavailable; choose the destination again".to_owned(),
        ),
        Authorization::Denied => Err(
            "Local download destination is not authorized; choose it with the save dialog".to_owned(),
        ),
        Authorization::Granted => Ok(()),
    }
}

/// Says whether an upload may come from a local file.
pub fn validate_local_upload_authorization(authorization: Authorization) -> (granted: Result<(), String>)
    ensures
        match granted {
            Ok(_) => source_authorized(authorization) is Ok,
            Err(reason) => source_authorized(authorization) == Err::<(), Seq<char>>(reason@),
        },
{
    match authorization {
        Authorization::Unavailable => Err(
            "File-system authorization is unavailable; choose the source file again".to_owned(),
        ),
        Authorization::Denied => Err(
            "Local upload source is not authorized; choose it with the open dialog".to_owned(),
        ),
        Authorization::Granted => Ok(()),
    }
}

impl StartDownloadInput {
    /// Says whether the download is taken: its remote path was checked, then its
    /// local path, whose directory has an identity, and then it was authorized.
    /// Gives the remote path and the identity.
    pub fn admitted(
        &self,
        remote_path: Result<String, String>,
        directory_identity: Result<String, String>,
        authorization: Authorization,
    ) -> (taken: Result<(String, String), String>)
        ensures
            match (remote_path, directory_identity) {
                (Err(error), _) => taken == Err::<(String, String), String>(error),
                (Ok(_), Err(error)) => taken == Err::<(String, String), String>(error),
                (Ok(remote), Ok(identity)) => match destination_authorized(authorization) {
                    Err(reason) => taken matches Err(told) && told@ == reason,
                    Ok(_) => taken == Ok::<(String, String), String>((remote, identity)),
                },
            },
    {
        match (remote_path, directory_identity) {
            (Err(error), _) => Err(error),
            (Ok(_), Err(error)) => Err(error),
            (Ok(remote), Ok(identity)) => match validate_local_authorization(authorization) {
                Err(reason) => Err(reason),
                Ok(_) => Ok((remote, identity)),
            },
        }
    }
}

/// What the request for an upload is answered.
pub open spec fn upload_answered(
    input: StartUploadInput,
    remote_path: Result<String, String>,
    local: LocalPath,
    authorization: Authorization,
    taken: Result<String, String>,
) -> bool {
    if !policy::upload_policy_holds(input.policy) {
        taken matches Err(told) && told@
            == "Upload requires atomicNoClobber=false and externalToctouRisk=true"@
    } else {
        match remote_path {
            Err(error) => taken == Err::<String, String>(error),
            Ok(remote) => match local_source::path_is_taken(local, "Local upload source"@) {
                Err(reason) => taken matches Err(told) && told@ == reason,
                Ok(_) => match source_authorized(authorization) {
                    Err(reason) => taken matches Err(told) && told@ == reason,
                    Ok(_) => taken == Ok::<String, String>(remote),
                },
            },
        }
    }
}

/// Uploads that were not authorized are answered alike, whatever local file they
/// are to come from, and nothing is said of whether it exists. The paths are
/// those that an upload may come from.
pub proof fn unauthorized_uploads_are_answered_alike(
    input: StartUploadInput,
    remote_path: Result<String, String>,
    local: LocalPath,
    taken: Result<String, String>,
    other_input: StartUploadInput,
    other_local: LocalPath,
    other_taken: Result<String, String>,
)
    requires
        input.policy == other_input.policy,
        local_source::path_is_taken(local, "Local upload source"@) is Ok,
        local_source::path_is_taken(other_local, "Local upload source"@) is Ok,
        upload_answered(input, remote_path, local, Authorization::Denied, taken),
        upload_answered(other_input, remote_path, other_local, Authorization::Denied, other_taken),
    ensures
        taken matches Err(told) && other_taken matches Err(other_told) && told@ == other_told@,
        policy::upload_policy_holds(input.policy) && remote_path is Ok ==> (taken matches Err(told) && told@
            == "Local upload source is not authorized; choose it with the open dialog"@),
{
}

impl StartUploadInput {
    /// Says whether the upload is taken: its policy was, then its remote path
    /// was checked, then its local path, and then it was authorized. Gives the
    /// remote path.
    pub fn admitted(
        &self,
        remote_path: Result<String, String>,
        local: &LocalPath,
        authorization: Authorization,
    ) -> (taken: Result<String, String>)
        ensures
            upload_answered(*self, remote_path, *local, authorization, taken),
    {
        if let Err(reason) = self.policy.validate() {
            return Err(reason);
        }
        match remote_path {
            Err(error) => Err(error),
            Ok(remote) => {
                if let Err(reason) = validate_local_source_path(local) {
                    return Err(reason);
                }
                match validate_local_upload_authorization(authorization) {
                    Err(reason) => Err(reason),
                    Ok(_) => Ok(remote),
                }
            },
        }
    }
}

/// What a policy is refused with.
pub open spec fn policy_refusal(policy: RemoteMutationPolicy) -> Seq<char> {
    match policy {
        RemoteMutationPolicy::BestEffortNoClobber { .. } =>
            "FTP copy/rename requires atomicNoClobber=false and externalToctouRisk=true"@,
        RemoteMutationPolicy::Replace { .. } =>
            "Replace requires explicit confirmation before the operation starts"@,
    }
}

impl StartRemoteTransferInput {
    /// Says whether the copy or rename is taken: its policy was, and its two
    /// paths were checked and differ. Gives the paths.
    pub fn admitted(&self, source_path: Result<String, String>, destination_path: Result<String, String>) -> (taken:
        Result<(String, String), String>)
        ensures
            if !policy::mutation_policy_holds(self.policy) {
                taken matches Err(told) && told@ == policy_refusal(self.policy)
            } else {
                match (source_path, destination_path) {
                    (Err(error), _) => taken == Err::<(String, String), String>(error),
                    (Ok(_), Err(error)) => taken == Err::<(String, String), String>(error),
                    (Ok(source), Ok(destination)) => if source@ == destination@ {
                        taken matches Err(told) && told@ == "Source and destination paths must be different"@
                    } else {
                        taken == Ok::<(String, String), String>((source, destination))
                    },
                }
            },
    {
        if let Err(reason) = self.policy.validate() {
            return Err(reason);
        }
        match (source_path, destination_path) {
            (Err(error), _) => Err(error),
            (Ok(_), Err(error)) => Err(error),
            (Ok(source), Ok(destination)) => {
                if same_text(source.as_str(), destination.as_str()) {
                    Err("Source and destination paths must be different".to_owned())
                } else {
                    Ok((source, destination))
                }
            },
        }
    }

    /// Says whether the connection can do what the policy asks for.
    pub fn supported_by(&self, webhdfs: bool) -> (supported: Result<(), String>)
        ensures
            match supported {
                Ok(_) => !(webhdfs && self.policy == RemoteMutationPolicy::Replace { confirmed: true }),
                Err(reason) => webhdfs && self.policy == RemoteMutationPolicy::Replace { confirmed: true } && reason@
                    == remote::webhdfs_replace_unsupported(),
            },
    {
        if self.policy.replace() && webhdfs {
            Err(webhdfs_replace_message())
        } else {
            Ok(())
        }
    }
}

/// A connection has to be known before a transfer over it starts.
pub fn known_connection<T>(found: Option<T>) -> (known: Result<T, String>)
    ensures
        match found {
            Some(connection) => known == Ok::<T, String>(connection),
            None => known matches Err(told) && told@ == "File connection not found"@,
        },
{
    match found {
        Some(connection) => Ok(connection),
        None => Err("File connection not found".to_owned()),
    }
}

/// A transfer may use a local file exactly where a dialog granted it.
pub proof fn only_granted_files_are_used(authorization: Authorization)
    ensures
        destination_authorized(authorization) is Ok <==> authorization == Authorization::Granted,
        source_authorized(authorization) is Ok <==> authorization == Authorization::Granted,
        authorization == Authorization::Denied ==> destination_authorized(authorization) == Err::<(), Seq<char>>(
            "Local download destination is not authorized; choose it with the save dialog"@,
        ),
        authorization == Authorization::Denied ==> source_authorized(authorization) == Err::<(), Seq<char>>(
            "Local upload source is not authorized; choose it with the open dialog"@,
        ),
        authorization == Authorization::Unavailable ==> destination_authorized(authorization) == Err::<(), Seq<char>>(
            "File-system authorization is unavailable; choose the destination again"@,
        ),
        authorization == Authorization::Unavailable ==> source_authorized(authorization) == Err::<(), Seq<char>>(
            "File-system authorization is unavailable; choose the source file again"@,
        ),
{
}

/// An upload is taken exactly where its policy is, its remote path was checked, its
/// local path is a plain one and a dialog granted it; it then goes to the remote
/// path that was checked.
pub proof fn only_granted_uploads_are_taken(
    input: StartUploadInput,
    remote_path: Result<String, String>,
    local: LocalPath,
    authorization: Authorization,
    taken: Result<String, String>,
)
    requires
        upload_answered(input, remote_path, local, authorization, taken),
    ensures
        taken is Ok <==> policy::upload_policy_holds(input.policy) && remote_path is Ok && local_source::path_is_taken(
            local,
            "Local upload source"@,
        ) is Ok && authorization == Authorization::Granted,
        taken is Ok ==> taken->Ok_0@ == remote_path->Ok_0@,
        !policy::upload_policy_holds(input.policy) ==> taken is Err && taken->Err_0@
            == "Upload requires atomicNoClobber=false and externalToctouRisk=true"@,
{
}

/// A policy that is not taken is refused with what it lacks.
pub proof fn policies_are_refused_for_what_they_lack(policy: RemoteMutationPolicy)
    ensures
        policy is Replace ==> policy_refusal(policy)
            == "Replace requires explicit confirmation before the operation starts"@,
        policy is BestEffortNoClobber ==> policy_refusal(policy)
            == "FTP copy/rename requires atomicNoClobber=false and externalToctouRisk=true"@,
{
}

} // verus!
