//! The contract's state and its two transitions.
//!
//! The surrounding runtime hands each call a snapshot of the persisted state
//! and an invocation context, and persists the state a successful call
//! returns.  A rejected call returns an error instead, and the runtime leaves
//! the previously persisted state untouched.

use vstd::prelude::*;

use crate::address::Address;

verus! {

/// What an invocation exposes to the contract: the identity of the account
/// that made the call.
#[derive(Clone, Copy, Debug)]
pub struct ContractContext {
    pub sender: Address,
}

/// The persisted record: the owner, fixed when the contract is created, and
/// the stored value, which only the owner may replace.
#[derive(Clone, Copy, Debug)]
pub struct ContractState {
    pub owner: Address,
    pub value: u64,
}

/// Why an invocation was rejected.  Either kind aborts the whole call.
#[derive(Clone, Copy, Debug, PartialEq, Eq, Structural)]
pub enum ContractError {
    /// The caller is not the contract's owner.
    Authorization,
    /// The proposed value is not strictly positive.
    Validation,
}

impl ContractState {
    /// Replaces the stored value, leaving the owner as it was.
    pub fn set_value(&mut self, value: u64)
        ensures
            final(self).owner == old(self).owner,
            final(self).value == value,
    {
        self.value = value;
    }
}

/// The state `initialize` returns: the caller becomes the owner, and the
/// stored value is the bootstrap value.
pub open spec fn initialize_spec(ctx: ContractContext, initial_value: u64) -> ContractState {
    ContractState { owner: ctx.sender, value: initial_value }
}

/// Bootstraps the contract's state.  It always succeeds; the initial value is
/// unconstrained and may be zero.
pub fn initialize(ctx: ContractContext, initial_value: u64) -> (state: ContractState)
    ensures
        state == initialize_spec(ctx, initial_value),
        state.owner == ctx.sender,
        state.value == initial_value,
{
    let state = ContractState { owner: ctx.sender, value: initial_value };
    state
}

/// The outcome of `set_value`: the caller must be the owner and the proposed
/// value strictly positive; then the value is replaced and the owner carried
/// over.  The checks are made in this order, so a caller who is not the owner
/// sees the authorization error whatever value it proposed.
pub open spec fn set_value_spec(
    context: ContractContext,
    state: ContractState,
    value: u64,
) -> Result<ContractState, ContractError> {
    if context.sender != state.owner {
        Err(ContractError::Authorization)
    } else if value == 0 {
        Err(ContractError::Validation)
    } else {
        Ok(ContractState { owner: state.owner, value })
    }
}

/// The contract's one action: the sender asks to replace the stored value.
/// Only the owner may do so, and only with a strictly positive value; a
/// rejected call changes nothing, since the snapshot it was handed is
/// consumed and no state is returned.
pub fn set_value(
    context: ContractContext,
    state: ContractState,
    value: u64,
) -> (result: Result<ContractState, ContractError>)
    ensures
        result == set_value_spec(context, state, value),
        context.sender != state.owner ==> result == Err::<ContractState, ContractError>(
            ContractError::Authorization,
        ),
        context.sender == state.owner && value == 0 ==> result == Err::<
            ContractState,
            ContractError,
        >(ContractError::Validation),
        context.sender == state.owner && value > 0 ==> (result matches Ok(next)
            && next.owner == state.owner && next.value == value),
{
    if context.sender != state.owner {
        return Err(ContractError::Authorization);
    }
    if value == 0 {
        return Err(ContractError::Validation);
    }
    let mut new_state = state;
    new_state.set_value(value);
    Ok(new_state)
}

/// Runs a sequence of `set_value` actions from `state`, each action a pair of
/// the invocation's context and its proposed value.  The run is all or
/// nothing: the result is the final state when every action succeeds, and
/// `None` as soon as one is rejected.
pub open spec fn apply_actions(
    state: ContractState,
    actions: Seq<(ContractContext, u64)>,
) -> Option<ContractState>
    decreases actions.len(),
{
    if actions.len() == 0 {
        Some(state)
    } else {
        match set_value_spec(actions[0].0, state, actions[0].1) {
            Ok(next) => apply_actions(next, actions.drop_first()),
            Err(_) => None,
        }
    }
}

/// Owner immutability: no run of successful `set_value` actions, from any
/// state, ever changes the owner.
pub proof fn lemma_owner_immutable(state: ContractState, actions: Seq<(ContractContext, u64)>)
    ensures
        apply_actions(state, actions) matches Some(last) ==> last.owner == state.owner,
    decreases actions.len(),
{
    if actions.len() > 0 {
        match set_value_spec(actions[0].0, state, actions[0].1) {
            Ok(next) => {
                lemma_owner_immutable(next, actions.drop_first());
            },
            Err(_) => {},
        }
    }
}

/// A run that succeeds as a whole succeeds on every prefix, and reaches the
/// same state after `k` actions whichever way it is cut there.
pub proof fn lemma_prefix_succeeds(
    state: ContractState,
    actions: Seq<(ContractContext, u64)>,
    k: int,
)
    requires
        apply_actions(state, actions) is Some,
        0 <= k <= actions.len(),
    ensures
        apply_actions(state, actions.take(k)) is Some,
    decreases k,
{
    if k > 0 {
        let next = set_value_spec(actions[0].0, state, actions[0].1)->Ok_0;
        lemma_prefix_succeeds(next, actions.drop_first(), k - 1);
        assert(actions.take(k).drop_first() =~= actions.drop_first().take(k - 1));
    }
}

/// Owner immutability from bootstrap: starting from the state that
/// `initialize(ctx, initial_value)` produces, a run of successful `set_value`
/// actions keeps `owner == ctx.sender` throughout — after any number `k` of
/// its actions, the state reached so far still carries the creating sender as
/// its owner.
pub proof fn lemma_owner_remains_sender(
    ctx: ContractContext,
    initial_value: u64,
    actions: Seq<(ContractContext, u64)>,
    k: int,
)
    requires
        apply_actions(initialize_spec(ctx, initial_value), actions) is Some,
        0 <= k <= actions.len(),
    ensures
        apply_actions(initialize_spec(ctx, initial_value), actions.take(k)) matches Some(reached)
            && reached.owner == ctx.sender,
{
    lemma_prefix_succeeds(initialize_spec(ctx, initial_value), actions, k);
    lemma_owner_immutable(initialize_spec(ctx, initial_value), actions.take(k));
}

} // verus!
