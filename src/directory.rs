//! The account record that keys and thresholds are applied to, and what each of
//! its operations does, stated over a model of plain values.
use vstd::prelude::*;
use casper_types::account::{
    Account, AccountHash, AddKeyFailure, RemoveKeyFailure, SetThresholdFailure,
    UpdateKeyFailure, Weight,
};

verus! {

#[verifier::external_type_specification]
#[verifier::external_body]
pub struct ExAccount(Account);

#[verifier::external_type_specification]
pub struct ExAddKeyFailure(AddKeyFailure);

#[verifier::external_type_specification]
pub struct ExRemoveKeyFailure(RemoveKeyFailure);

#[verifier::external_type_specification]
pub struct ExUpdateKeyFailure(UpdateKeyFailure);

#[verifier::external_type_specification]
pub struct ExSetThresholdFailure(SetThresholdFailure);

/// The associated keys of an account, each with its weight.
pub uninterp spec fn associated_weights(a: Account) -> Map<[u8; 32], u8>;

/// The deployment threshold of an account.
pub uninterp spec fn deployment_threshold_of(a: Account) -> u8;

/// The key-management threshold of an account.
pub uninterp spec fn key_management_threshold_of(a: Account) -> u8;

/// The two classes of action that each have a threshold.
#[derive(Clone, Copy, Debug, PartialEq, Eq, Structural)]
pub enum ActionType {
    /// Ordinary deployments made on the account's behalf.
    Deployment,
    /// Changes to the account's keys and thresholds.
    KeyManagement,
}

/// What an account holds that the key and threshold rules read.
pub struct AccountModel {
    /// Each associated key, by its account hash, with its weight.
    pub keys: Map<[u8; 32], u8>,
    /// The weight that a deployment needs.
    pub deployment: u8,
    /// The weight that a change of keys or thresholds needs.
    pub key_management: u8,
}

/// An account as the key and threshold rules see it.
pub open spec fn model(a: Account) -> AccountModel {
    AccountModel {
        keys: associated_weights(a),
        deployment: deployment_threshold_of(a),
        key_management: key_management_threshold_of(a),
    }
}

/// A weight sum as an account computes it: it stops at the largest weight.
pub open spec fn saturate(x: int) -> u8 {
    if x > 255 {
        255
    } else {
        x as u8
    }
}

/// The sum of the weights of all keys.
pub open spec fn weight_sum(keys: Map<[u8; 32], u8>) -> nat
    decreases keys.dom().len(),
    when keys.dom().finite()
{
    if keys.dom().len() == 0 {
        0
    } else {
        let k = keys.dom().choose();
        keys[k] as nat + weight_sum(keys.remove(k))
    }
}

/// The total weight of the keys, as the account reports it.
pub open spec fn total_weight(keys: Map<[u8; 32], u8>) -> u8 {
    saturate(weight_sum(keys) as int)
}

/// Whether a total weight still meets both thresholds.
pub open spec fn meets_thresholds(m: AccountModel, total: u8) -> bool {
    total >= m.deployment && total >= m.key_management
}

pub open spec fn with_keys(m: AccountModel, keys: Map<[u8; 32], u8>) -> AccountModel {
    AccountModel { keys, ..m }
}

/// Removing a key: refused where the key is absent or where the others would
/// not meet the thresholds.
pub open spec fn remove_effect(m: AccountModel, key: [u8; 32]) -> (Result<(), RemoveKeyFailure>, AccountModel) {
    if !m.keys.contains_key(key) {
        (Err(RemoveKeyFailure::MissingKey), m)
    } else if !meets_thresholds(m, total_weight(m.keys.remove(key))) {
        (Err(RemoveKeyFailure::ThresholdViolation), m)
    } else {
        (Ok(()), with_keys(m, m.keys.remove(key)))
    }
}

/// Re-weighting a present key: a lower weight is refused where the new total
/// would not meet the thresholds.
pub open spec fn update_effect(m: AccountModel, key: [u8; 32], weight: u8) -> (Result<(), UpdateKeyFailure>, AccountModel) {
    if !m.keys.contains_key(key) {
        (Err(UpdateKeyFailure::MissingKey), m)
    } else if weight < m.keys[key] && !meets_thresholds(
        m,
        saturate(total_weight(m.keys.remove(key)) + weight),
    ) {
        (Err(UpdateKeyFailure::ThresholdViolation), m)
    } else {
        (Ok(()), with_keys(m, m.keys.insert(key, weight)))
    }
}

/// Adding a key that is not yet present.
pub open spec fn add_effect(m: AccountModel, key: [u8; 32], weight: u8) -> (Result<(), AddKeyFailure>, AccountModel) {
    if m.keys.contains_key(key) {
        (Err(AddKeyFailure::DuplicateKey), m)
    } else {
        (Ok(()), with_keys(m, m.keys.insert(key, weight)))
    }
}

/// Setting a threshold: it may not exceed the total weight, and the deployment
/// threshold may not exceed the key-management threshold.
pub open spec fn threshold_effect(m: AccountModel, action: ActionType, threshold: u8) -> (Result<(), SetThresholdFailure>, AccountModel) {
    if threshold > total_weight(m.keys) {
        (Err(SetThresholdFailure::InsufficientTotalWeight), m)
    } else {
        match action {
            ActionType::Deployment => if threshold > m.key_management {
                (Err(SetThresholdFailure::DeploymentThreshold), m)
            } else {
                (Ok(()), AccountModel { deployment: threshold, ..m })
            },
            ActionType::KeyManagement => if m.deployment > threshold {
                (Err(SetThresholdFailure::KeyManagementThreshold), m)
            } else {
                (Ok(()), AccountModel { key_management: threshold, ..m })
            },
        }
    }
}

/// Relies on `Account::remove_associated_key` of casper-types: it refuses an
/// absent key, and a key whose removal leaves the others below a threshold.
#[verifier::external_body]
pub(crate) fn remove_associated_key(account: &mut Account, key: [u8; 32]) -> (r: Result<(), RemoveKeyFailure>)
    ensures
        r == remove_effect(model(*old(account)), key).0,
        associated_weights(*final(account)) == remove_effect(model(*old(account)), key).1.keys,
        deployment_threshold_of(*final(account)) == remove_effect(model(*old(account)), key).1.deployment,
        key_management_threshold_of(*final(account)) == remove_effect(model(*old(account)), key).1.key_management,
{
    account.remove_associated_key(AccountHash::new(key))
}

/// Relies on `Account::update_associated_key` of casper-types: it re-weights a
/// present key, and checks the thresholds only where the weight goes down.
#[verifier::external_body]
pub(crate) fn update_associated_key(account: &mut Account, key: [u8; 32], weight: u8) -> (r: Result<(), UpdateKeyFailure>)
    ensures
        r == update_effect(model(*old(account)), key, weight).0,
        associated_weights(*final(account)) == update_effect(model(*old(account)), key, weight).1.keys,
        deployment_threshold_of(*final(account)) == update_effect(model(*old(account)), key, weight).1.deployment,
        key_management_threshold_of(*final(account)) == update_effect(model(*old(account)), key, weight).1.key_management,
{
    account.update_associated_key(AccountHash::new(key), Weight::new(weight))
}

/// Relies on `Account::add_associated_key` of casper-types: it inserts a key
/// that is absent and refuses one that is present.
#[verifier::external_body]
pub(crate) fn add_associated_key(account: &mut Account, key: [u8; 32], weight: u8) -> (r: Result<(), AddKeyFailure>)
    ensures
        r == add_effect(model(*old(account)), key, weight).0,
        associated_weights(*final(account)) == add_effect(model(*old(account)), key, weight).1.keys,
        deployment_threshold_of(*final(account)) == add_effect(model(*old(account)), key, weight).1.deployment,
        key_management_threshold_of(*final(account)) == add_effect(model(*old(account)), key, weight).1.key_management,
{
    account.add_associated_key(AccountHash::new(key), Weight::new(weight))
}

/// Relies on `Account::set_action_threshold` of casper-types: it checks the new
/// threshold against the total weight, then against the other threshold.
#[verifier::external_body]
pub(crate) fn set_action_threshold(account: &mut Account, action: ActionType, threshold: u8) -> (r: Result<(), SetThresholdFailure>)
    ensures
        r == threshold_effect(model(*old(account)), action, threshold).0,
        associated_weights(*final(account)) == threshold_effect(model(*old(account)), action, threshold).1.keys,
        deployment_threshold_of(*final(account)) == threshold_effect(model(*old(account)), action, threshold).1.deployment,
        key_management_threshold_of(*final(account)) == threshold_effect(model(*old(account)), action, threshold).1.key_management,
{
    let action = match action {
        ActionType::Deployment => casper_types::account::ActionType::Deployment,
        ActionType::KeyManagement => casper_types::account::ActionType::KeyManagement,
    };
    account.set_action_threshold(action, Weight::new(threshold))
}

} // verus!
