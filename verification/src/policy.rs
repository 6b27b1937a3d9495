//! What a caller has to say about overwriting before a transfer starts.
use vstd::prelude::*;

verus! {

/// What a copy or rename may do to a destination that exists.
#[derive(Clone, Copy, Debug, PartialEq, Eq, Structural)]
pub enum RemoteMutationPolicy {
    /// A destination that is seen is left alone. The caller knows that this is
    /// not atomic and that others may write in between.
    BestEffortNoClobber { atomic_no_clobber: bool, external_toctou_risk: bool },
    /// A destination is replaced, which the caller has confirmed.
    Replace { confirmed: bool },
}

/// A policy is taken where it claims no more safety than there is, and a
/// replacement where it was confirmed.
pub open spec fn mutation_policy_holds(policy: RemoteMutationPolicy) -> bool {
    match policy {
        RemoteMutationPolicy::BestEffortNoClobber { atomic_no_clobber, external_toctou_risk } => !atomic_no_clobber
            && external_toctou_risk,
        RemoteMutationPolicy::Replace { confirmed } => confirmed,
    }
}

impl RemoteMutationPolicy {
    /// Says whether the policy is taken.
    pub fn validate(self) -> (taken: Result<(), String>)
        ensures
            match taken {
                Ok(_) => mutation_policy_holds(self),
                Err(reason) => !mutation_policy_holds(self) && reason@ == (match self {
                    RemoteMutationPolicy::BestEffortNoClobber { .. } =>
                        "FTP copy/rename requires atomicNoClobber=false and externalToctouRisk=true"@,
                    RemoteMutationPolicy::Replace { .. } =>
                        "Replace requires explicit confirmation before the operation starts"@,
                }),
            },
    {
        match self {
            RemoteMutationPolicy::BestEffortNoClobber { atomic_no_clobber, external_toctou_risk } => {
                if !atomic_no_clobber && external_toctou_risk {
                    Ok(())
                } else {
                    Err(
                        "FTP copy/rename requires atomicNoClobber=false and externalToctouRisk=true".to_owned(),
                    )
                }
            },
            RemoteMutationPolicy::Replace { confirmed } => {
                if confirmed {
                    Ok(())
                } else {
                    Err(
                        "Replace requires explicit confirmation before the operation starts".to_owned(),
                    )
                }
            },
        }
    }

    /// Says whether a destination is replaced: only where that was confirmed.
    pub fn replace(self) -> (replaces: bool)
        ensures
            replaces == (self == RemoteMutationPolicy::Replace { confirmed: true }),
    {
        match self {
            RemoteMutationPolicy::Replace { confirmed } => confirmed,
            RemoteMutationPolicy::BestEffortNoClobber { .. } => false,
        }
    }
}

/// What an upload may do to a remote file that exists: nothing.
#[derive(Clone, Copy, Debug, PartialEq, Eq, Structural)]
pub enum UploadPolicy {
    /// A remote file that is seen is left alone. The caller knows that this is
    /// not atomic and that others may write in between.
    BestEffortNoClobber { atomic_no_clobber: bool, external_toctou_risk: bool },
}

/// A policy is taken where it claims no more safety than there is.
pub open spec fn upload_policy_holds(policy: UploadPolicy) -> bool {
    match policy {
        UploadPolicy::BestEffortNoClobber { atomic_no_clobber, external_toctou_risk } => !atomic_no_clobber
            && external_toctou_risk,
    }
}

impl UploadPolicy {
    /// The one policy that is taken.
    pub fn best_effort_no_clobber() -> (policy: UploadPolicy)
        ensures
            upload_policy_holds(policy),
            policy == (UploadPolicy::BestEffortNoClobber { atomic_no_clobber: false, external_toctou_risk: true }),
    {
        UploadPolicy::BestEffortNoClobber { atomic_no_clobber: false, external_toctou_risk: true }
    }

    /// Says whether the policy is taken.
    pub fn validate(self) -> (taken: Result<(), String>)
        ensures
            match taken {
                Ok(_) => upload_policy_holds(self),
                Err(reason) => !upload_policy_holds(self) && reason@
                    == "Upload requires atomicNoClobber=false and externalToctouRisk=true"@,
            },
    {
        match self {
            UploadPolicy::BestEffortNoClobber { atomic_no_clobber, external_toctou_risk } => {
                if !atomic_no_clobber && external_toctou_risk {
                    Ok(())
                } else {
                    Err("Upload requires atomicNoClobber=false and externalToctouRisk=true".to_owned())
                }
            },
        }
    }
}

/// A policy is taken exactly where it makes no promise that cannot be kept, and a
/// replacement exactly where somebody confirmed it.
pub proof fn only_honest_policies_are_taken(
    atomic_no_clobber: bool,
    external_toctou_risk: bool,
    confirmed: bool,
)
    ensures
        mutation_policy_holds(
            RemoteMutationPolicy::BestEffortNoClobber { atomic_no_clobber, external_toctou_risk },
        ) <==> !atomic_no_clobber && external_toctou_risk,
        mutation_policy_holds(RemoteMutationPolicy::Replace { confirmed }) <==> confirmed,
        upload_policy_holds(UploadPolicy::BestEffortNoClobber { atomic_no_clobber, external_toctou_risk })
            <==> !atomic_no_clobber && external_toctou_risk,
{
}

} // verus!
