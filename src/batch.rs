//! One invocation: the requested key weights in order, then the deployment
//! threshold, then the key-management threshold, stopping at the first refusal.
use vstd::prelude::*;
use casper_types::account::Account;
use crate::directory::{model, AccountModel, ActionType};
use crate::error::Error;
use crate::planner::{key_weight_step, lemma_zero_weight_on_absent_key, set_threshold, threshold_step, update_key_weight};

verus! {

/// The requested key weights applied in order, up to the first refusal.
pub open spec fn keys_step(m: AccountModel, pairs: Seq<([u8; 32], u8)>) -> (Result<(), Error>, AccountModel)
    decreases pairs.len(),
{
    if pairs.len() == 0 {
        (Ok(()), m)
    } else {
        let (r, m1) = key_weight_step(m, pairs[0].0, pairs[0].1);
        if r is Err {
            (r, m1)
        } else {
            keys_step(m1, pairs.skip(1))
        }
    }
}

/// A threshold that may or may not have been requested.
pub open spec fn optional_threshold_step(m: AccountModel, action: ActionType, threshold: Option<u8>) -> (Result<(), Error>, AccountModel) {
    match threshold {
        Some(t) => threshold_step(m, action, t),
        None => (Ok(()), m),
    }
}

/// Whether an invocation asks for nothing at all.
pub open spec fn nothing_requested(
    keys: Option<Seq<([u8; 32], u8)>>,
    deployment_threshold: Option<u8>,
    key_management_threshold: Option<u8>,
) -> bool {
    keys is None && deployment_threshold is None && key_management_threshold is None
}

/// A whole invocation: keys first, then the two thresholds.
pub open spec fn batch_step(
    m: AccountModel,
    keys: Option<Seq<([u8; 32], u8)>>,
    deployment_threshold: Option<u8>,
    key_management_threshold: Option<u8>,
) -> (Result<(), Error>, AccountModel) {
    if nothing_requested(keys, deployment_threshold, key_management_threshold) {
        (Err(Error::MissingArgument), m)
    } else {
        let (r1, m1) = match keys {
            Some(s) => keys_step(m, s),
            None => (Ok(()), m),
        };
        if r1 is Err {
            (r1, m1)
        } else {
            let (r2, m2) = optional_threshold_step(m1, ActionType::Deployment, deployment_threshold);
            if r2 is Err {
                (r2, m2)
            } else {
                optional_threshold_step(m2, ActionType::KeyManagement, key_management_threshold)
            }
        }
    }
}

pub open spec fn optional_view(keys: Option<Vec<([u8; 32], u8)>>) -> Option<Seq<([u8; 32], u8)>> {
    match keys {
        Some(v) => Some(v@),
        None => None,
    }
}

/// Pairs each account with the weight at the same place; where one list is
/// longer, its extra entries are left out.
pub fn pair_up(accounts: &Vec<[u8; 32]>, weights: &Vec<u8>) -> (pairs: Vec<([u8; 32], u8)>)
    ensures
        pairs@.len() == if accounts@.len() <= weights@.len() {
            accounts@.len()
        } else {
            weights@.len()
        },
        forall|i: int| 0 <= i < pairs@.len() ==> #[trigger] pairs@[i] == (accounts@[i], weights@[i]),
{
    let n: usize = if accounts.len() <= weights.len() {
        accounts.len()
    } else {
        weights.len()
    };
    let mut pairs: Vec<([u8; 32], u8)> = Vec::new();
    let mut i: usize = 0;
    while i < n
        invariant
            n <= accounts@.len(),
            n <= weights@.len(),
            i <= n,
            pairs@.len() == i,
            forall|j: int| 0 <= j < i ==> #[trigger] pairs@[j] == (accounts@[j], weights@[j]),
        decreases n - i,
    {
        pairs.push((accounts[i], weights[i]));
        i = i + 1;
    }
    pairs
}

/// Tells whether an invocation asks for nothing at all.
pub fn is_nothing_requested(
    keys: &Option<Vec<([u8; 32], u8)>>,
    deployment_threshold: Option<u8>,
    key_management_threshold: Option<u8>,
) -> (r: bool)
    ensures
        r == nothing_requested(optional_view(*keys), deployment_threshold, key_management_threshold),
{
    keys.is_none() && deployment_threshold.is_none() && key_management_threshold.is_none()
}

/// Applies the requested key weights in order, stopping at the first refusal.
pub fn apply_key_weights(account: &mut Account, pairs: &Vec<([u8; 32], u8)>) -> (r: Result<(), Error>)
    ensures
        (r, model(*final(account))) == keys_step(model(*old(account)), pairs@),
{
    let ghost m0 = model(*account);
    let mut i: usize = 0;
    assert(pairs@.skip(0) =~= pairs@);
    while i < pairs.len()
        invariant
            i <= pairs@.len(),
            m0 == model(*old(account)),
            keys_step(m0, pairs@) == keys_step(model(*account), pairs@.skip(i as int)),
        decreases pairs@.len() - i,
    {
        let (key, weight) = pairs[i];
        let ghost before = model(*account);
        let r = update_key_weight(account, key, weight);
        let ghost rest = pairs@.skip(i as int);
        assert(rest.len() > 0 && rest[0] == (key, weight));
        assert(rest.skip(1) =~= pairs@.skip(i + 1));
        if r.is_err() {
            assert(keys_step(before, rest) == key_weight_step(before, key, weight));
            return r;
        }
        i = i + 1;
    }
    assert(pairs@.skip(i as int).len() == 0);
    Ok(())
}

/// Carries out one invocation on an account: the key weights in order, then the
/// deployment threshold, then the key-management threshold. The first refusal
/// ends it, and what was applied before stays applied. An invocation that asks
/// for nothing fails with `MissingArgument` and leaves the account as it was.
pub fn run(
    account: &mut Account,
    keys: Option<Vec<([u8; 32], u8)>>,
    deployment_threshold: Option<u8>,
    key_management_threshold: Option<u8>,
) -> (r: Result<(), Error>)
    ensures
        (r, model(*final(account))) == batch_step(
            model(*old(account)),
            optional_view(keys),
            deployment_threshold,
            key_management_threshold,
        ),
{
    if is_nothing_requested(&keys, deployment_threshold, key_management_threshold) {
        return Err(Error::MissingArgument);
    }
    if let Some(pairs) = keys {
        let r = apply_key_weights(account, &pairs);
        if r.is_err() {
            return r;
        }
    }
    if let Some(t) = deployment_threshold {
        let r = set_threshold(account, ActionType::Deployment, t);
        if r.is_err() {
            return r;
        }
    }
    if let Some(t) = key_management_threshold {
        let r = set_threshold(account, ActionType::KeyManagement, t);
        if r.is_err() {
            return r;
        }
    }
    Ok(())
}

/// An invocation that asks for nothing fails with `MissingArgument` and leaves
/// the account as it was.
pub proof fn lemma_nothing_requested_fails(m: AccountModel)
    ensures
        batch_step(m, None, None, None) == (Err::<(), Error>(Error::MissingArgument), m),
{
}

/// Within any sequence of requested weights, a zero weight for a key that is
/// absent may be dropped: the outcome and the account are the same without it.
pub proof fn lemma_zero_weight_on_absent_key_in_batch(
    m: AccountModel,
    key: [u8; 32],
    rest: Seq<([u8; 32], u8)>,
)
    requires
        !m.keys.contains_key(key),
    ensures
        keys_step(m, seq![(key, 0u8)] + rest) == keys_step(m, rest),
{
    let s = seq![(key, 0u8)] + rest;
    assert(s[0] == (key, 0u8));
    assert(s.skip(1) =~= rest);
    lemma_zero_weight_on_absent_key(m, key);
}

} // verus!
