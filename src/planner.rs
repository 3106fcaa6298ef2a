//! Applying one requested key weight, or one requested threshold, to an account.
//!
//! Each refusal of the account is read by a function of its own, so that the
//! same decisions serve wherever the account's operations are carried out.
use vstd::prelude::*;
use casper_types::account::{
    Account, AddKeyFailure, RemoveKeyFailure, SetThresholdFailure, UpdateKeyFailure,
};
use crate::directory::{
    add_associated_key, add_effect, meets_thresholds, model, remove_associated_key,
    remove_effect, saturate, set_action_threshold, threshold_effect, total_weight,
    update_associated_key, update_effect, with_keys, AccountModel, ActionType,
};
use crate::error::Error;

verus! {

/// The first operation asked of the account for a requested key weight.
#[derive(Clone, Copy, Debug, PartialEq, Eq, Structural)]
pub enum KeyOp {
    /// The weight is zero: the key is to be absent.
    Remove,
    /// The weight is positive: re-weight the key, or add it where it is absent.
    Reweight,
}

pub open spec fn key_op_spec(weight: u8) -> KeyOp {
    if weight == 0 {
        KeyOp::Remove
    } else {
        KeyOp::Reweight
    }
}

/// Chooses the first operation for a requested key weight.
pub fn key_op(weight: u8) -> (op: KeyOp)
    ensures
        op == key_op_spec(weight),
{
    if weight == 0 {
        KeyOp::Remove
    } else {
        KeyOp::Reweight
    }
}

/// What a removal that was asked for by a zero weight comes to: an absent key
/// counts as removed.
pub open spec fn removal_result(r: Result<(), RemoveKeyFailure>) -> Result<(), Error> {
    match r {
        Ok(()) => Ok(()),
        Err(RemoveKeyFailure::MissingKey) => Ok(()),
        Err(RemoveKeyFailure::PermissionDenied) => Err(Error::PermissionDenied),
        Err(RemoveKeyFailure::ThresholdViolation) => Err(Error::ThresholdViolation),
    }
}

/// What comes after an attempt to re-weight a key.
#[derive(Clone, Copy, Debug, PartialEq, Eq, Structural)]
pub enum AfterUpdate {
    /// The key was present and now has the new weight.
    Updated,
    /// The key was absent: it is to be added.
    AddKey,
    /// The account refused.
    Failed(Error),
}

pub open spec fn after_update_spec(r: Result<(), UpdateKeyFailure>) -> AfterUpdate {
    match r {
        Ok(()) => AfterUpdate::Updated,
        Err(UpdateKeyFailure::MissingKey) => AfterUpdate::AddKey,
        Err(UpdateKeyFailure::PermissionDenied) => AfterUpdate::Failed(Error::PermissionDenied),
        Err(UpdateKeyFailure::ThresholdViolation) => AfterUpdate::Failed(Error::ThresholdViolation),
    }
}

pub open spec fn addition_result(r: Result<(), AddKeyFailure>) -> Result<(), Error> {
    match r {
        Ok(()) => Ok(()),
        Err(AddKeyFailure::MaxKeysLimit) => Err(Error::MaxKeysLimit),
        Err(AddKeyFailure::DuplicateKey) => Err(Error::DuplicateKey),
        Err(AddKeyFailure::PermissionDenied) => Err(Error::PermissionDenied),
    }
}

pub open spec fn threshold_result(r: Result<(), SetThresholdFailure>) -> Result<(), Error> {
    match r {
        Ok(()) => Ok(()),
        Err(SetThresholdFailure::KeyManagementThreshold) => Err(Error::KeyManagementThreshold),
        Err(SetThresholdFailure::DeploymentThreshold) => Err(Error::DeploymentThreshold),
        Err(SetThresholdFailure::PermissionDeniedError) => Err(Error::PermissionDenied),
        Err(SetThresholdFailure::InsufficientTotalWeight) => Err(Error::InsufficientTotalWeight),
    }
}

/// Reads the account's answer to a removal.
pub fn removal_outcome(r: Result<(), RemoveKeyFailure>) -> (out: Result<(), Error>)
    ensures
        out == removal_result(r),
{
    match r {
        Ok(()) => Ok(()),
        Err(RemoveKeyFailure::MissingKey) => Ok(()),
        Err(RemoveKeyFailure::PermissionDenied) => Err(Error::PermissionDenied),
        Err(RemoveKeyFailure::ThresholdViolation) => Err(Error::ThresholdViolation),
    }
}

/// Reads the account's answer to a re-weighting.
pub fn update_outcome(r: Result<(), UpdateKeyFailure>) -> (out: AfterUpdate)
    ensures
        out == after_update_spec(r),
{
    match r {
        Ok(()) => AfterUpdate::Updated,
        Err(UpdateKeyFailure::MissingKey) => AfterUpdate::AddKey,
        Err(UpdateKeyFailure::PermissionDenied) => AfterUpdate::Failed(Error::PermissionDenied),
        Err(UpdateKeyFailure::ThresholdViolation) => AfterUpdate::Failed(Error::ThresholdViolation),
    }
}

/// Reads the account's answer to an addition.
pub fn addition_outcome(r: Result<(), AddKeyFailure>) -> (out: Result<(), Error>)
    ensures
        out == addition_result(r),
{
    match r {
        Ok(()) => Ok(()),
        Err(AddKeyFailure::MaxKeysLimit) => Err(Error::MaxKeysLimit),
        Err(AddKeyFailure::DuplicateKey) => Err(Error::DuplicateKey),
        Err(AddKeyFailure::PermissionDenied) => Err(Error::PermissionDenied),
    }
}

/// Reads the account's answer to a new threshold.
pub fn threshold_outcome(r: Result<(), SetThresholdFailure>) -> (out: Result<(), Error>)
    ensures
        out == threshold_result(r),
{
    match r {
        Ok(()) => Ok(()),
        Err(SetThresholdFailure::KeyManagementThreshold) => Err(Error::KeyManagementThreshold),
        Err(SetThresholdFailure::DeploymentThreshold) => Err(Error::DeploymentThreshold),
        Err(SetThresholdFailure::PermissionDeniedError) => Err(Error::PermissionDenied),
        Err(SetThresholdFailure::InsufficientTotalWeight) => Err(Error::InsufficientTotalWeight),
    }
}

/// Bringing a key to a positive weight: re-weight it, and add it where it
/// turns out to be absent.
pub open spec fn add_or_update_step(m: AccountModel, key: [u8; 32], weight: u8) -> (Result<(), Error>, AccountModel) {
    let (u, m1) = update_effect(m, key, weight);
    match after_update_spec(u) {
        AfterUpdate::Updated => (Ok(()), m1),
        AfterUpdate::AddKey => {
            let (a, m2) = add_effect(m1, key, weight);
            (addition_result(a), m2)
        },
        AfterUpdate::Failed(e) => (Err(e), m1),
    }
}

/// Bringing a key to the requested weight, where a weight of zero asks for the
/// key to be absent.
pub open spec fn key_weight_step(m: AccountModel, key: [u8; 32], weight: u8) -> (Result<(), Error>, AccountModel) {
    match key_op_spec(weight) {
        KeyOp::Remove => {
            let (r, m1) = remove_effect(m, key);
            (removal_result(r), m1)
        },
        KeyOp::Reweight => add_or_update_step(m, key, weight),
    }
}

pub open spec fn threshold_step(m: AccountModel, action: ActionType, threshold: u8) -> (Result<(), Error>, AccountModel) {
    let (r, m1) = threshold_effect(m, action, threshold);
    (threshold_result(r), m1)
}

/// Adds a key that is not expected to be present.
pub fn add_key(account: &mut Account, key: [u8; 32], weight: u8) -> (r: Result<(), Error>)
    ensures
        (r, model(*final(account))) == ({
            let (a, m) = add_effect(model(*old(account)), key, weight);
            (addition_result(a), m)
        }),
{
    let a = add_associated_key(account, key, weight);
    addition_outcome(a)
}

/// Removes a key, where an absent key counts as removed.
pub fn remove_key_if_exists(account: &mut Account, key: [u8; 32]) -> (r: Result<(), Error>)
    ensures
        (r, model(*final(account))) == key_weight_step(model(*old(account)), key, 0),
{
    let a = remove_associated_key(account, key);
    removal_outcome(a)
}

/// Gives a key a positive weight, whether it was present or not.
pub fn add_or_update_key(account: &mut Account, key: [u8; 32], weight: u8) -> (r: Result<(), Error>)
    ensures
        (r, model(*final(account))) == add_or_update_step(model(*old(account)), key, weight),
{
    let u = update_associated_key(account, key, weight);
    match update_outcome(u) {
        AfterUpdate::Updated => Ok(()),
        AfterUpdate::AddKey => add_key(account, key, weight),
        AfterUpdate::Failed(e) => Err(e),
    }
}

/// Brings a key to the requested weight; zero removes it.
pub fn update_key_weight(account: &mut Account, key: [u8; 32], weight: u8) -> (r: Result<(), Error>)
    ensures
        (r, model(*final(account))) == key_weight_step(model(*old(account)), key, weight),
{
    match key_op(weight) {
        KeyOp::Remove => remove_key_if_exists(account, key),
        KeyOp::Reweight => add_or_update_key(account, key, weight),
    }
}

/// Sets the threshold of one class of action.
pub fn set_threshold(account: &mut Account, action: ActionType, threshold: u8) -> (r: Result<(), Error>)
    ensures
        (r, model(*final(account))) == threshold_step(model(*old(account)), action, threshold),
{
    let a = set_action_threshold(account, action, threshold);
    threshold_outcome(a)
}

/// A zero weight for a key that is absent succeeds and changes nothing.
pub proof fn lemma_zero_weight_on_absent_key(m: AccountModel, key: [u8; 32])
    requires
        !m.keys.contains_key(key),
    ensures
        key_weight_step(m, key, 0) == (Ok::<(), Error>(()), m),
{
}

/// A positive weight for a key that is absent adds the key with that weight.
pub proof fn lemma_positive_weight_on_absent_key(m: AccountModel, key: [u8; 32], weight: u8)
    requires
        weight > 0,
        !m.keys.contains_key(key),
    ensures
        key_weight_step(m, key, weight) == (Ok::<(), Error>(()), with_keys(m, m.keys.insert(key, weight))),
        key_weight_step(m, key, weight).1.keys[key] == weight,
{
}

/// A positive weight for a key that is present replaces its weight in place:
/// the set of keys stays the same. This holds wherever the account accepts the
/// new weight: it is no lower, or the new total still meets both thresholds.
pub proof fn lemma_positive_weight_on_present_key(m: AccountModel, key: [u8; 32], weight: u8)
    requires
        weight > 0,
        m.keys.contains_key(key),
        weight >= m.keys[key] || meets_thresholds(m, saturate(total_weight(m.keys.remove(key)) + weight)),
    ensures
        key_weight_step(m, key, weight) == (Ok::<(), Error>(()), with_keys(m, m.keys.insert(key, weight))),
        key_weight_step(m, key, weight).1.keys.dom() == m.keys.dom(),
        key_weight_step(m, key, weight).1.keys[key] == weight,
{
    assert(m.keys.insert(key, weight).dom() =~= m.keys.dom());
}

/// Removing a key whose loss leaves the other keys below a threshold fails with
/// `ThresholdViolation` and leaves the account, that key included, as it was.
pub proof fn lemma_removal_below_threshold_fails(m: AccountModel, key: [u8; 32])
    requires
        m.keys.contains_key(key),
        !meets_thresholds(m, total_weight(m.keys.remove(key))),
    ensures
        key_weight_step(m, key, 0) == (Err::<(), Error>(Error::ThresholdViolation), m),
{
}

/// A threshold above the total weight of the keys fails with
/// `InsufficientTotalWeight` and leaves the account as it was.
pub proof fn lemma_threshold_above_total_fails(m: AccountModel, action: ActionType, threshold: u8)
    requires
        threshold > total_weight(m.keys),
    ensures
        threshold_step(m, action, threshold) == (Err::<(), Error>(Error::InsufficientTotalWeight), m),
{
}

} // verus!
