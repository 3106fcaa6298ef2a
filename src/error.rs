use vstd::prelude::*;

verus! {

/// The reasons for which an update of associated keys or thresholds stops.
#[derive(Clone, Copy, Debug, PartialEq, Eq, Structural)]
pub enum Error {
    /// Nothing to do was requested.
    MissingArgument,
    /// The caller may not manage the keys or thresholds of the account.
    PermissionDenied,
    /// A key change would leave the total weight below a threshold.
    ThresholdViolation,
    /// A threshold would exceed the total weight of the associated keys.
    InsufficientTotalWeight,
    /// The key-management threshold may not go below the deployment threshold.
    KeyManagementThreshold,
    /// The deployment threshold may not go above the key-management threshold.
    DeploymentThreshold,
    /// The account already holds as many keys as it may.
    MaxKeysLimit,
    /// An add found the key already present, which the update-first order rules out.
    DuplicateKey,
}

} // verus!
