use std::collections::BTreeMap;

use casper_types::account::{
    Account, AccountHash, ActionThresholds, AddKeyFailure, AssociatedKeys, RemoveKeyFailure,
    SetThresholdFailure, UpdateKeyFailure, Weight,
};
use casper_types::contracts::NamedKeys;
use casper_types::{AccessRights, URef};

use update_associated_keys::batch::{apply_key_weights, is_nothing_requested, pair_up, run};
use update_associated_keys::directory::ActionType;
use update_associated_keys::error::Error;
use update_associated_keys::planner::{
    add_key, add_or_update_key, addition_outcome, key_op, remove_key_if_exists, removal_outcome,
    set_threshold, threshold_outcome, update_key_weight, update_outcome, AfterUpdate, KeyOp,
};

const A: [u8; 32] = [1; 32];
const B: [u8; 32] = [2; 32];
const C: [u8; 32] = [3; 32];

fn account(keys: &[([u8; 32], u8)], deployment: u8, key_management: u8) -> Account {
    let mut map = BTreeMap::new();
    for (k, w) in keys {
        map.insert(AccountHash::new(*k), Weight::new(*w));
    }
    Account::new(
        AccountHash::new([0; 32]),
        NamedKeys::new(),
        URef::new([0; 32], AccessRights::READ_ADD_WRITE),
        AssociatedKeys::from(map),
        ActionThresholds::new(Weight::new(deployment), Weight::new(key_management)).unwrap(),
    )
}

fn weight_of(a: &Account, k: [u8; 32]) -> Option<u8> {
    a.associated_keys().get(&AccountHash::new(k)).map(|w| w.value())
}

fn thresholds(a: &Account) -> (u8, u8) {
    (
        a.action_thresholds().deployment().value(),
        a.action_thresholds().key_management().value(),
    )
}

/// Keys {A:10, B:5}, both thresholds 10.
fn sample() -> Account {
    account(&[(A, 10), (B, 5)], 10, 10)
}

#[test]
fn removal_below_threshold_keeps_key() {
    let mut a = sample();
    let r = run(&mut a, Some(vec![(A, 0)]), None, None);
    assert_eq!(r, Err(Error::ThresholdViolation));
    assert_eq!(weight_of(&a, A), Some(10));
    assert_eq!(a, sample());
}

#[test]
fn deployment_threshold_above_total_fails() {
    let mut a = sample();
    let r = run(&mut a, None, Some(20), None);
    assert_eq!(r, Err(Error::InsufficientTotalWeight));
    assert_eq!(thresholds(&a), (10, 10));
}

#[test]
fn keys_are_applied_before_thresholds() {
    let mut a = sample();
    let r = run(&mut a, Some(vec![(A, 0)]), Some(5), None);
    assert_eq!(r, Err(Error::ThresholdViolation));
    assert_eq!(weight_of(&a, A), Some(10));
    assert_eq!(thresholds(&a), (10, 10));
}

#[test]
fn zero_weight_on_absent_key_is_noop() {
    let mut a = sample();
    assert_eq!(update_key_weight(&mut a, C, 0), Ok(()));
    assert_eq!(a, sample());
    assert_eq!(remove_key_if_exists(&mut a, C), Ok(()));
    assert_eq!(a, sample());
}

#[test]
fn positive_weight_on_absent_key_adds_it() {
    let mut a = sample();
    assert_eq!(update_key_weight(&mut a, C, 7), Ok(()));
    assert_eq!(weight_of(&a, C), Some(7));
    assert_eq!(a.associated_keys().len(), 3);
}

#[test]
fn positive_weight_on_present_key_updates_in_place() {
    let mut a = sample();
    assert_eq!(add_or_update_key(&mut a, B, 9), Ok(()));
    assert_eq!(weight_of(&a, B), Some(9));
    assert_eq!(weight_of(&a, A), Some(10));
    assert_eq!(a.associated_keys().len(), 2);
}

#[test]
fn lowering_a_weight_below_threshold_fails() {
    let mut a = sample();
    assert_eq!(update_key_weight(&mut a, A, 4), Err(Error::ThresholdViolation));
    assert_eq!(a, sample());
    assert_eq!(update_key_weight(&mut a, A, 5), Ok(()));
    assert_eq!(weight_of(&a, A), Some(5));
}

#[test]
fn removal_that_keeps_thresholds_succeeds() {
    let mut a = sample();
    assert_eq!(update_key_weight(&mut a, B, 0), Ok(()));
    assert_eq!(weight_of(&a, B), None);
    assert_eq!(weight_of(&a, A), Some(10));
}

#[test]
fn removal_checks_key_management_threshold_too() {
    let mut a = account(&[(A, 10), (B, 5)], 1, 12);
    assert_eq!(update_key_weight(&mut a, B, 0), Err(Error::ThresholdViolation));
    assert_eq!(weight_of(&a, B), Some(5));
}

#[test]
fn key_management_threshold_above_total_fails() {
    let mut a = sample();
    let r = run(&mut a, None, None, Some(16));
    assert_eq!(r, Err(Error::InsufficientTotalWeight));
    assert_eq!(thresholds(&a), (10, 10));
    assert_eq!(run(&mut a, None, None, Some(15)), Ok(()));
    assert_eq!(thresholds(&a), (10, 15));
}

#[test]
fn nothing_requested_fails_without_change() {
    let mut a = sample();
    assert_eq!(run(&mut a, None, None, None), Err(Error::MissingArgument));
    assert_eq!(a, sample());
    assert!(is_nothing_requested(&None, None, None));
    assert!(!is_nothing_requested(&Some(vec![]), None, None));
    assert!(!is_nothing_requested(&None, Some(1), None));
    assert!(!is_nothing_requested(&None, None, Some(1)));
}

#[test]
fn empty_key_list_is_a_request() {
    let mut a = sample();
    assert_eq!(run(&mut a, Some(vec![]), None, None), Ok(()));
    assert_eq!(a, sample());
}

#[test]
fn deployment_threshold_above_key_management_fails() {
    let mut a = account(&[(A, 10), (B, 5)], 5, 10);
    assert_eq!(set_threshold(&mut a, ActionType::Deployment, 12), Err(Error::DeploymentThreshold));
    assert_eq!(thresholds(&a), (5, 10));
    assert_eq!(set_threshold(&mut a, ActionType::Deployment, 8), Ok(()));
    assert_eq!(thresholds(&a), (8, 10));
}

#[test]
fn key_management_threshold_below_deployment_fails() {
    let mut a = sample();
    assert_eq!(
        set_threshold(&mut a, ActionType::KeyManagement, 9),
        Err(Error::KeyManagementThreshold)
    );
    assert_eq!(thresholds(&a), (10, 10));
}

#[test]
fn lowering_thresholds_then_removing_takes_two_batches() {
    let mut a = sample();
    assert_eq!(run(&mut a, None, Some(5), Some(5)), Ok(()));
    assert_eq!(thresholds(&a), (5, 5));
    assert_eq!(run(&mut a, Some(vec![(A, 0)]), None, None), Ok(()));
    assert_eq!(weight_of(&a, A), None);
    assert_eq!(weight_of(&a, B), Some(5));
}

#[test]
fn batch_stops_at_first_refusal_and_keeps_earlier_changes() {
    let mut a = sample();
    let r = run(&mut a, Some(vec![(C, 3), (A, 0), (B, 8)]), Some(1), None);
    assert_eq!(r, Err(Error::ThresholdViolation));
    assert_eq!(weight_of(&a, C), Some(3));
    assert_eq!(weight_of(&a, A), Some(10));
    assert_eq!(weight_of(&a, B), Some(5));
    assert_eq!(thresholds(&a), (10, 10));
}

#[test]
fn full_batch_applies_everything() {
    let mut a = sample();
    let r = run(&mut a, Some(vec![(C, 20), (B, 0), (A, 1)]), Some(10), Some(21));
    assert_eq!(r, Ok(()));
    assert_eq!(weight_of(&a, A), Some(1));
    assert_eq!(weight_of(&a, B), None);
    assert_eq!(weight_of(&a, C), Some(20));
    assert_eq!(thresholds(&a), (10, 21));
}

#[test]
fn apply_key_weights_in_order() {
    let mut a = sample();
    assert_eq!(apply_key_weights(&mut a, &vec![(C, 4), (C, 6), (C, 0)]), Ok(()));
    assert_eq!(a, sample());
}

#[test]
fn total_weight_saturates() {
    let mut a = account(&[(A, 200), (B, 100)], 1, 1);
    assert_eq!(run(&mut a, None, None, Some(255)), Ok(()));
    assert_eq!(run(&mut a, None, Some(255), None), Ok(()));
    assert_eq!(thresholds(&a), (255, 255));
}

#[test]
fn add_of_present_key_is_duplicate() {
    let mut a = sample();
    assert_eq!(add_key(&mut a, A, 3), Err(Error::DuplicateKey));
    assert_eq!(a, sample());
    assert_eq!(add_key(&mut a, C, 3), Ok(()));
    assert_eq!(weight_of(&a, C), Some(3));
}

#[test]
fn removal_outcomes() {
    assert_eq!(removal_outcome(Ok(())), Ok(()));
    assert_eq!(removal_outcome(Err(RemoveKeyFailure::MissingKey)), Ok(()));
    assert_eq!(removal_outcome(Err(RemoveKeyFailure::PermissionDenied)), Err(Error::PermissionDenied));
    assert_eq!(
        removal_outcome(Err(RemoveKeyFailure::ThresholdViolation)),
        Err(Error::ThresholdViolation)
    );
}

#[test]
fn update_outcomes() {
    assert_eq!(update_outcome(Ok(())), AfterUpdate::Updated);
    assert_eq!(update_outcome(Err(UpdateKeyFailure::MissingKey)), AfterUpdate::AddKey);
    assert_eq!(
        update_outcome(Err(UpdateKeyFailure::PermissionDenied)),
        AfterUpdate::Failed(Error::PermissionDenied)
    );
    assert_eq!(
        update_outcome(Err(UpdateKeyFailure::ThresholdViolation)),
        AfterUpdate::Failed(Error::ThresholdViolation)
    );
}

#[test]
fn addition_outcomes() {
    assert_eq!(addition_outcome(Ok(())), Ok(()));
    assert_eq!(addition_outcome(Err(AddKeyFailure::MaxKeysLimit)), Err(Error::MaxKeysLimit));
    assert_eq!(addition_outcome(Err(AddKeyFailure::DuplicateKey)), Err(Error::DuplicateKey));
    assert_eq!(addition_outcome(Err(AddKeyFailure::PermissionDenied)), Err(Error::PermissionDenied));
}

#[test]
fn threshold_outcomes() {
    assert_eq!(threshold_outcome(Ok(())), Ok(()));
    assert_eq!(
        threshold_outcome(Err(SetThresholdFailure::KeyManagementThreshold)),
        Err(Error::KeyManagementThreshold)
    );
    assert_eq!(
        threshold_outcome(Err(SetThresholdFailure::DeploymentThreshold)),
        Err(Error::DeploymentThreshold)
    );
    assert_eq!(
        threshold_outcome(Err(SetThresholdFailure::PermissionDeniedError)),
        Err(Error::PermissionDenied)
    );
    assert_eq!(
        threshold_outcome(Err(SetThresholdFailure::InsufficientTotalWeight)),
        Err(Error::InsufficientTotalWeight)
    );
}

#[test]
fn pair_up_matches_positions() {
    let pairs = pair_up(&vec![A, B], &vec![3, 0]);
    assert_eq!(pairs, vec![(A, 3), (B, 0)]);
}

#[test]
fn pair_up_drops_unmatched_entries() {
    assert_eq!(pair_up(&vec![A, B, C], &vec![3]), vec![(A, 3)]);
    assert_eq!(pair_up(&vec![A], &vec![3, 4, 5]), vec![(A, 3)]);
    assert_eq!(pair_up(&vec![], &vec![3]), vec![]);
}

#[test]
fn zero_weight_asks_for_removal() {
    assert_eq!(key_op(0), KeyOp::Remove);
    assert_eq!(key_op(1), KeyOp::Reweight);
    assert_eq!(key_op(255), KeyOp::Reweight);
}

#[test]
fn zero_weight_on_absent_key_within_a_batch_changes_nothing() {
    let mut with = sample();
    let mut without = sample();
    let r1 = run(&mut with, Some(vec![(C, 0), (B, 7), (A, 3)]), None, None);
    let r2 = run(&mut without, Some(vec![(B, 7), (A, 3)]), None, None);
    assert_eq!(r1, r2);
    assert_eq!(r1, Ok(()));
    assert_eq!(with, without);
    assert_eq!(weight_of(&with, A), Some(3));
    assert_eq!(weight_of(&with, B), Some(7));
}
