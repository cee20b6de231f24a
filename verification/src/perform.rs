//! The dispatcher: performing an approved action and discarding a pending
//! one.
//!
//! Performing validates the caller, the action id and the quorum, then the
//! variant-specific rules, and only then commits: the state change is
//! applied, the action and its signer set are removed (one-shot execution),
//! and the external effects the environment must carry out are returned as
//! plain descriptions. Any failure leaves the state exactly as it was —
//! validation happens strictly before the first mutation, so atomicity needs
//! no rollback.

use vstd::arithmetic::div_mod::{lemma_div_is_ordered, lemma_div_multiples_vanish};
use vstd::arithmetic::mul::lemma_mul_inequality;
use vstd::prelude::*;

use crate::action::{Action, CallActionData, ExternalEffect, MultisigError, Role, PERCENTAGE_TOTAL};
use crate::state::{
    find_index_u64, first_index_with_key, lemma_first_index_with_key,
    lemma_fraction_member_le_sum, lemma_fraction_sum_push, lemma_fraction_sum_remove,
    lemma_fraction_sum_update, same_registry, Multisig,
};

verus! {

/// The registry after the dispatcher gives `addr` the role `role`: the
/// existing entry is updated, or a new party is appended.
pub open spec fn users_after_set_role(users: Seq<(u64, Role)>, addr: u64, role: Role) -> Seq<
    (u64, Role),
> {
    let i = first_index_with_key(users, addr);
    if i >= 0 {
        users.update(i, (addr, role))
    } else {
        users.push((addr, role))
    }
}

/// The beneficiary table after registering `addr` with fraction `f`: the
/// existing entry is replaced, or a new entry is appended.
pub open spec fn beneficiaries_after_add(s: Seq<(u64, u32)>, addr: u64, f: u32) -> Seq<(u64, u32)> {
    let i = first_index_with_key(s, addr);
    if i >= 0 {
        s.update(i, (addr, f))
    } else {
        s.push((addr, f))
    }
}

/// The beneficiary table after removing the entry of `addr`.
pub open spec fn beneficiaries_after_remove(s: Seq<(u64, u32)>, addr: u64) -> Seq<(u64, u32)> {
    s.remove(first_index_with_key(s, addr))
}

/// The variant-specific validation the dispatcher runs after the quorum
/// check and before any mutation: exactly which error, if any, performing
/// `action` on the state `pre` gives.
pub open spec fn perform_check(pre: Multisig, action: Action) -> Option<MultisigError> {
    match action {
        Action::ChangeQuorum(q) => if q < 1 {
            Some(MultisigError::InvalidArgument)
        } else if q > pre.num_board_members {
            Some(MultisigError::InvariantViolation)
        } else {
            None
        },
        Action::AddProposer(a) => if pre.spec_role_of(a) is BoardMember && pre.quorum
            > pre.num_board_members - 1 {
            Some(MultisigError::InvariantViolation)
        } else {
            None
        },
        Action::RemoveUser(a) => if !pre.has_user(a) {
            Some(MultisigError::NotFound)
        } else if pre.spec_role_of(a) is BoardMember && pre.quorum > pre.num_board_members - 1 {
            Some(MultisigError::InvariantViolation)
        } else {
            None
        },
        Action::AddBeneficiary { beneficiary_address, amount_fraction } => {
            let i = first_index_with_key(pre.beneficiaries@, beneficiary_address);
            let cur: int = if i >= 0 {
                pre.beneficiaries@[i].1 as int
            } else {
                0
            };
            if pre.fraction_total - cur + amount_fraction > PERCENTAGE_TOTAL {
                Some(MultisigError::InvariantViolation)
            } else {
                None
            }
        },
        Action::RemoveBeneficiary(a) => if first_index_with_key(pre.beneficiaries@, a) < 0 {
            Some(MultisigError::NotFound)
        } else {
            None
        },
        _ => None,
    }
}

/// The action log of `post` is that of `pre` with slot `action_id` emptied,
/// its signer set cleared, and every other signer slot untouched.
pub open spec fn action_consumed(pre: Multisig, post: Multisig, action_id: usize) -> bool {
    &&& post.actions@ == pre.actions@.update(action_id - 1, None::<Action>)
    &&& post.signers@.len() == pre.signers@.len()
    &&& post.spec_signer_ids(action_id).len() == 0
    &&& (forall|j: int|
        0 <= j < pre.signers@.len() && j != action_id - 1 ==> post.signers@[j]
            == pre.signers@[j])
}

/// What a successful perform does to the state, per action kind: the action
/// is consumed, and exactly the mutation the kind calls for is applied.
pub open spec fn perform_transition(
    pre: Multisig,
    post: Multisig,
    action: Action,
    action_id: usize,
) -> bool {
    &&& action_consumed(pre, post, action_id)
    &&& match action {
        Action::AddBoardMember(a) => {
            &&& post.users@ == users_after_set_role(pre.users@, a, Role::BoardMember)
            &&& post.quorum == pre.quorum
            &&& post.beneficiaries == pre.beneficiaries
            &&& post.fraction_total == pre.fraction_total
        },
        Action::AddProposer(a) => {
            &&& post.users@ == users_after_set_role(pre.users@, a, Role::Proposer)
            &&& post.quorum == pre.quorum
            &&& post.beneficiaries == pre.beneficiaries
            &&& post.fraction_total == pre.fraction_total
        },
        Action::RemoveUser(a) => {
            &&& post.users@ == users_after_set_role(pre.users@, a, Role::Inactive)
            &&& post.quorum == pre.quorum
            &&& post.beneficiaries == pre.beneficiaries
            &&& post.fraction_total == pre.fraction_total
        },
        Action::ChangeQuorum(q) => {
            &&& post.users == pre.users
            &&& post.num_board_members == pre.num_board_members
            &&& post.num_proposers == pre.num_proposers
            &&& post.quorum == q
            &&& post.beneficiaries == pre.beneficiaries
            &&& post.fraction_total == pre.fraction_total
        },
        Action::AddBeneficiary { beneficiary_address, amount_fraction } => {
            &&& post.users == pre.users
            &&& post.num_board_members == pre.num_board_members
            &&& post.num_proposers == pre.num_proposers
            &&& post.quorum == pre.quorum
            &&& post.beneficiaries@ == beneficiaries_after_add(
                pre.beneficiaries@,
                beneficiary_address,
                amount_fraction,
            )
        },
        Action::RemoveBeneficiary(a) => {
            &&& post.users == pre.users
            &&& post.num_board_members == pre.num_board_members
            &&& post.num_proposers == pre.num_proposers
            &&& post.quorum == pre.quorum
            &&& post.beneficiaries@ == beneficiaries_after_remove(pre.beneficiaries@, a)
        },
        _ => same_registry(pre, post),
    }
}

/// A beneficiary's share of `funds`: the fraction applied pro rata, rounded
/// down; the remainder of the division stays undistributed.
pub open spec fn share_of(funds: u64, fraction: u32) -> int {
    (funds as int * fraction as int) / (PERCENTAGE_TOTAL as int)
}

/// Whether `e` is the plain transfer of the beneficiary `b`'s share of
/// `funds`.
pub open spec fn is_share_transfer(e: ExternalEffect, b: (u64, u32), funds: u64) -> bool {
    match e {
        ExternalEffect::Transfer { to, amount } => to == b.0 && amount == share_of(funds, b.1),
        _ => false,
    }
}

/// Whether `e` describes exactly the call `d`, synchronous or asynchronous.
pub open spec fn call_effect_matches(d: CallActionData, e: ExternalEffect, is_async: bool) -> bool {
    if is_async {
        match e {
            ExternalEffect::AsyncCall { to, egld_amount, endpoint_name, arguments } => {
                &&& to == d.to
                &&& egld_amount == d.egld_amount
                &&& endpoint_name@ == d.endpoint_name@
                &&& arguments.deep_view() == d.arguments.deep_view()
            },
            _ => false,
        }
    } else {
        match e {
            ExternalEffect::TransferExecute { to, egld_amount, endpoint_name, arguments } => {
                &&& to == d.to
                &&& egld_amount == d.egld_amount
                &&& endpoint_name@ == d.endpoint_name@
                &&& arguments.deep_view() == d.arguments.deep_view()
            },
            _ => false,
        }
    }
}

/// The external effects a successful perform of `action` returns: none for
/// the purely internal kinds, exactly one call description for the outgoing
/// kinds, and one transfer per beneficiary — computed from `funds` and the
/// beneficiary table as it stood before the action — for a distribution.
pub open spec fn effects_match(
    action: Action,
    funds: u64,
    benefs: Seq<(u64, u32)>,
    effects: Seq<ExternalEffect>,
) -> bool {
    match action {
        Action::SendTransferExecute(d) => effects.len() == 1 && call_effect_matches(
            d,
            effects[0],
            false,
        ),
        Action::SendAsyncCall(d) => effects.len() == 1 && call_effect_matches(
            d,
            effects[0],
            true,
        ),
        Action::SCDeployFromSource { amount, source, code_metadata, arguments } => effects.len()
            == 1 && match effects[0] {
            ExternalEffect::DeployFromSource {
                amount: a2,
                source: s2,
                code_metadata: c2,
                arguments: args2,
            } => a2 == amount && s2 == source && c2 == code_metadata && args2.deep_view()
                == arguments.deep_view(),
            _ => false,
        },
        Action::SCUpgradeFromSource { sc_address, amount, source, code_metadata, arguments } => effects.len()
            == 1 && match effects[0] {
            ExternalEffect::UpgradeFromSource {
                sc_address: t2,
                amount: a2,
                source: s2,
                code_metadata: c2,
                arguments: args2,
            } => t2 == sc_address && a2 == amount && s2 == source && c2 == code_metadata
                && args2.deep_view() == arguments.deep_view(),
            _ => false,
        },
        Action::Delegate { provider_address, amount } => effects =~= seq![
            (ExternalEffect::Delegate { provider_address, amount }),
        ],
        Action::UnDelegate { provider_address, amount } => effects =~= seq![
            (ExternalEffect::UnDelegate { provider_address, amount }),
        ],
        Action::ReDelegateRewards(a) => effects =~= seq![
            (ExternalEffect::ReDelegateRewards { provider_address: a }),
        ],
        Action::ClaimRewards(a) => effects =~= seq![
            (ExternalEffect::ClaimRewards { provider_address: a }),
        ],
        Action::Withdraw(a) => effects =~= seq![
            (ExternalEffect::Withdraw { provider_address: a }),
        ],
        Action::DistributeFunds => {
            &&& effects.len() == benefs.len()
            &&& (forall|i: int|
                0 <= i < benefs.len() ==> is_share_transfer(#[trigger] effects[i], benefs[i], funds))
        },
        _ => effects.len() == 0,
    }
}

/// Copies a byte string.
fn clone_bytes(v: &Vec<u8>) -> (r: Vec<u8>)
    ensures
        r@ == v@,
{
    let r = v.clone();
    proof {
        assert(r@ =~= v@);
    }
    r
}

/// Copies a list of byte strings.
fn clone_byte_vecs(v: &Vec<Vec<u8>>) -> (r: Vec<Vec<u8>>)
    ensures
        r.deep_view() == v.deep_view(),
{
    let mut r: Vec<Vec<u8>> = Vec::new();
    let mut i: usize = 0;
    while i < v.len()
        invariant
            i <= v@.len(),
            r@.len() == i,
            forall|j: int| 0 <= j < i ==> (#[trigger] r@[j])@ == v@[j]@,
        decreases v@.len() - i,
    {
        r.push(clone_bytes(&v[i]));
        i += 1;
    }
    proof {
        assert(r.deep_view() =~= v.deep_view());
    }
    r
}

impl Multisig {
    /// Empties the action slot `action_id` and clears its signer set; the
    /// rest of the state is untouched. This is the commit step shared by
    /// performing and discarding.
    fn clear_action(&mut self, action_id: usize)
        requires
            old(self).wf(),
            1 <= action_id <= old(self).actions@.len(),
        ensures
            final(self).wf(),
            action_consumed(*old(self), *final(self), action_id),
            same_registry(*old(self), *final(self)),
    {
        let slot = &mut self.actions[action_id - 1];
        *slot = None;
        let sigs = &mut self.signers[action_id - 1];
        sigs.clear();
    }

    /// Performs the pending action `action_id` on behalf of `caller`.
    ///
    /// `available_funds` is the current balance as reported by the
    /// surrounding environment; it is read only when the action distributes
    /// funds. On success the action is consumed — a later call with the same
    /// id fails with `NotFound` — and the returned descriptions are the
    /// external effects the environment must carry out. Every failure
    /// (unauthorized caller, unknown id, quorum not reached, or the
    /// variant-specific validation of `perform_check`) leaves the state
    /// exactly as it was.
    pub fn perform_action(&mut self, caller: u64, action_id: usize, available_funds: u64) -> (r:
        Result<Vec<ExternalEffect>, MultisigError>)
        requires
            old(self).wf(),
        ensures
            final(self).wf(),
            match r {
                Ok(effects) => {
                    &&& old(self).addr_can_sign(caller)
                    &&& old(self).action_exists(action_id)
                    &&& old(self).spec_quorum_reached(action_id)
                    &&& perform_check(*old(self), old(self).spec_action_at(action_id)) is None
                    &&& perform_transition(
                        *old(self),
                        *final(self),
                        old(self).spec_action_at(action_id),
                        action_id,
                    )
                    &&& effects_match(
                        old(self).spec_action_at(action_id),
                        available_funds,
                        old(self).beneficiaries@,
                        effects@,
                    )
                },
                Err(e) => {
                    &&& *final(self) == *old(self)
                    &&& match e {
                        MultisigError::Unauthorized => !old(self).addr_can_sign(caller),
                        MultisigError::NotFound => old(self).addr_can_sign(caller) && (!old(
                            self,
                        ).action_exists(action_id) || (old(self).spec_quorum_reached(action_id)
                            && perform_check(*old(self), old(self).spec_action_at(action_id))
                            == Some(MultisigError::NotFound))),
                        MultisigError::QuorumNotReached => {
                            &&& old(self).addr_can_sign(caller)
                            &&& old(self).action_exists(action_id)
                            &&& !old(self).spec_quorum_reached(action_id)
                        },
                        _ => {
                            &&& old(self).addr_can_sign(caller)
                            &&& old(self).action_exists(action_id)
                            &&& old(self).spec_quorum_reached(action_id)
                            &&& perform_check(
                                *old(self),
                                old(self).spec_action_at(action_id),
                            ) == Some(e)
                        },
                    }
                },
            },
    {
        let (_, caller_role) = self.get_caller_id_and_role(caller);
        if !caller_role.can_sign() {
            return Err(MultisigError::Unauthorized);
        }
        if action_id < 1 || action_id > self.actions.len() {
            return Err(MultisigError::NotFound);
        }
        if self.actions[action_id - 1].is_none() {
            return Err(MultisigError::NotFound);
        }
        if self.signers[action_id - 1].len() < self.quorum {
            return Err(MultisigError::QuorumNotReached);
        }
        let ghost pre = *self;
        match &self.actions[action_id - 1] {
            None => {
                proof {
                    assert(false);
                }
                Err(MultisigError::NotFound)
            },
            Some(Action::AddBoardMember(a)) => {
                let a = *a;
                let id = self.resolve_or_create(a);
                self.set_role(id, Role::BoardMember);
                proof {
                    lemma_first_index_with_key(pre.users@, a);
                    if !pre.has_user(a) {
                        assert(self.users@ =~= users_after_set_role(
                            pre.users@,
                            a,
                            Role::BoardMember,
                        ));
                    }
                }
                self.clear_action(action_id);
                Ok(Vec::new())
            },
            Some(Action::AddProposer(a)) => {
                let a = *a;
                let (_, target_role) = self.get_caller_id_and_role(a);
                if target_role.can_sign() && self.quorum > self.num_board_members - 1 {
                    return Err(MultisigError::InvariantViolation);
                }
                let id = self.resolve_or_create(a);
                self.set_role(id, Role::Proposer);
                proof {
                    lemma_first_index_with_key(pre.users@, a);
                    if !pre.has_user(a) {
                        assert(self.users@ =~= users_after_set_role(
                            pre.users@,
                            a,
                            Role::Proposer,
                        ));
                    }
                }
                self.clear_action(action_id);
                Ok(Vec::new())
            },
            Some(Action::RemoveUser(a)) => {
                let a = *a;
                let (target_id, target_role) = self.get_caller_id_and_role(a);
                if target_id == 0 {
                    return Err(MultisigError::NotFound);
                }
                if target_role.can_sign() && self.quorum > self.num_board_members - 1 {
                    return Err(MultisigError::InvariantViolation);
                }
                proof {
                    lemma_first_index_with_key(pre.users@, a);
                }
                self.set_role(target_id, Role::Inactive);
                self.clear_action(action_id);
                Ok(Vec::new())
            },
            Some(Action::ChangeQuorum(q)) => {
                let q = *q;
                match self.set_quorum(q) {
                    Err(e) => Err(e),
                    Ok(()) => {
                        self.clear_action(action_id);
                        Ok(Vec::new())
                    },
                }
            },
            Some(Action::SendTransferExecute(d)) => {
                let to = d.to;
                let egld_amount = d.egld_amount;
                let endpoint_name = clone_bytes(&d.endpoint_name);
                let arguments = clone_byte_vecs(&d.arguments);
                self.clear_action(action_id);
                let mut effects: Vec<ExternalEffect> = Vec::new();
                effects.push(
                    ExternalEffect::TransferExecute { to, egld_amount, endpoint_name, arguments },
                );
                Ok(effects)
            },
            Some(Action::SendAsyncCall(d)) => {
                let to = d.to;
                let egld_amount = d.egld_amount;
                let endpoint_name = clone_bytes(&d.endpoint_name);
                let arguments = clone_byte_vecs(&d.arguments);
                self.clear_action(action_id);
                let mut effects: Vec<ExternalEffect> = Vec::new();
                effects.push(
                    ExternalEffect::AsyncCall { to, egld_amount, endpoint_name, arguments },
                );
                Ok(effects)
            },
            Some(Action::SCDeployFromSource { amount, source, code_metadata, arguments }) => {
                let amount = *amount;
                let source = *source;
                let code_metadata = *code_metadata;
                let arguments = clone_byte_vecs(arguments);
                self.clear_action(action_id);
                let mut effects: Vec<ExternalEffect> = Vec::new();
                effects.push(
                    ExternalEffect::DeployFromSource { amount, source, code_metadata, arguments },
                );
                Ok(effects)
            },
            Some(
                Action::SCUpgradeFromSource { sc_address, amount, source, code_metadata, arguments },
            ) => {
                let sc_address = *sc_address;
                let amount = *amount;
                let source = *source;
                let code_metadata = *code_metadata;
                let arguments = clone_byte_vecs(arguments);
                self.clear_action(action_id);
                let mut effects: Vec<ExternalEffect> = Vec::new();
                effects.push(
                    ExternalEffect::UpgradeFromSource {
                        sc_address,
                        amount,
                        source,
                        code_metadata,
                        arguments,
                    },
                );
                Ok(effects)
            },
            Some(Action::Delegate { provider_address, amount }) => {
                let provider_address = *provider_address;
                let amount = *amount;
                self.clear_action(action_id);
                let mut effects: Vec<ExternalEffect> = Vec::new();
                effects.push(ExternalEffect::Delegate { provider_address, amount });
                Ok(effects)
            },
            Some(Action::UnDelegate { provider_address, amount }) => {
                let provider_address = *provider_address;
                let amount = *amount;
                self.clear_action(action_id);
                let mut effects: Vec<ExternalEffect> = Vec::new();
                effects.push(ExternalEffect::UnDelegate { provider_address, amount });
                Ok(effects)
            },
            Some(Action::ReDelegateRewards(a)) => {
                let provider_address = *a;
                self.clear_action(action_id);
                let mut effects: Vec<ExternalEffect> = Vec::new();
                effects.push(ExternalEffect::ReDelegateRewards { provider_address });
                Ok(effects)
            },
            Some(Action::ClaimRewards(a)) => {
                let provider_address = *a;
                self.clear_action(action_id);
                let mut effects: Vec<ExternalEffect> = Vec::new();
                effects.push(ExternalEffect::ClaimRewards { provider_address });
                Ok(effects)
            },
            Some(Action::Withdraw(a)) => {
                let provider_address = *a;
                self.clear_action(action_id);
                let mut effects: Vec<ExternalEffect> = Vec::new();
                effects.push(ExternalEffect::Withdraw { provider_address });
                Ok(effects)
            },
            Some(Action::DistributeFunds) => {
                let mut effects: Vec<ExternalEffect> = Vec::new();
                let mut i: usize = 0;
                while i < self.beneficiaries.len()
                    invariant
                        self.wf(),
                        i <= self.beneficiaries@.len(),
                        effects@.len() == i,
                        forall|j: int|
                            0 <= j < i ==> is_share_transfer(
                                #[trigger] effects@[j],
                                self.beneficiaries@[j],
                                available_funds,
                            ),
                    decreases self.beneficiaries@.len() - i,
                {
                    let entry = self.beneficiaries[i];
                    let to = entry.0;
                    let frac = entry.1;
                    proof {
                        lemma_fraction_member_le_sum(self.beneficiaries@, i as int);
                        assert(frac <= PERCENTAGE_TOTAL);
                        lemma_mul_inequality(
                            frac as int,
                            PERCENTAGE_TOTAL as int,
                            available_funds as int,
                        );
                        assert(frac as int * available_funds as int == available_funds as int
                            * frac as int);
                        assert(PERCENTAGE_TOTAL as int * available_funds as int
                            == available_funds as int * PERCENTAGE_TOTAL as int);
                        lemma_div_is_ordered(
                            available_funds as int * frac as int,
                            available_funds as int * PERCENTAGE_TOTAL as int,
                            PERCENTAGE_TOTAL as int,
                        );
                        lemma_div_multiples_vanish(available_funds as int, PERCENTAGE_TOTAL as int);
                        assert(0 <= share_of(available_funds, frac) <= available_funds);
                    }
                    let amount_wide: u128 = (available_funds as u128) * (frac as u128) / (
                    PERCENTAGE_TOTAL as u128);
                    let amount: u64 = amount_wide as u64;
                    effects.push(ExternalEffect::Transfer { to, amount });
                    i += 1;
                }
                self.clear_action(action_id);
                Ok(effects)
            },
            Some(Action::AddBeneficiary { beneficiary_address, amount_fraction }) => {
                let a = *beneficiary_address;
                let f = *amount_fraction;
                match find_index_u64(&self.beneficiaries, a) {
                    Some(i) => {
                        let cur = self.beneficiaries[i].1;
                        proof {
                            lemma_fraction_member_le_sum(self.beneficiaries@, i as int);
                        }
                        let base = self.fraction_total - cur;
                        if f > PERCENTAGE_TOTAL - base {
                            return Err(MultisigError::InvariantViolation);
                        }
                        proof {
                            lemma_fraction_sum_update(self.beneficiaries@, i as int, (a, f));
                        }
                        let slot = &mut self.beneficiaries[i];
                        *slot = (a, f);
                        self.fraction_total = base + f;
                        self.clear_action(action_id);
                        Ok(Vec::new())
                    },
                    None => {
                        if f > PERCENTAGE_TOTAL - self.fraction_total {
                            return Err(MultisigError::InvariantViolation);
                        }
                        proof {
                            lemma_fraction_sum_push(self.beneficiaries@, (a, f));
                            lemma_first_index_with_key(self.beneficiaries@, a);
                        }
                        self.beneficiaries.push((a, f));
                        self.fraction_total = self.fraction_total + f;
                        self.clear_action(action_id);
                        Ok(Vec::new())
                    },
                }
            },
            Some(Action::RemoveBeneficiary(a)) => {
                let a = *a;
                match find_index_u64(&self.beneficiaries, a) {
                    None => Err(MultisigError::NotFound),
                    Some(i) => {
                        let frac = self.beneficiaries[i].1;
                        proof {
                            lemma_fraction_member_le_sum(self.beneficiaries@, i as int);
                            lemma_fraction_sum_remove(self.beneficiaries@, i as int);
                        }
                        self.beneficiaries.remove(i);
                        self.fraction_total = self.fraction_total - frac;
                        self.clear_action(action_id);
                        Ok(Vec::new())
                    },
                }
            },
        }
    }

    /// Discards the pending action `action_id` without performing any of its
    /// effects: the action and its signer set are removed and nothing else
    /// changes. Requires a sign-capable caller; fails with `NotFound` when
    /// the id names no pending action, leaving the state untouched.
    pub fn discard_action(&mut self, caller: u64, action_id: usize) -> (r: Result<
        (),
        MultisigError,
    >)
        requires
            old(self).wf(),
        ensures
            final(self).wf(),
            match r {
                Ok(()) => {
                    &&& old(self).addr_can_sign(caller)
                    &&& old(self).action_exists(action_id)
                    &&& action_consumed(*old(self), *final(self), action_id)
                    &&& same_registry(*old(self), *final(self))
                },
                Err(e) => {
                    &&& *final(self) == *old(self)
                    &&& match e {
                        MultisigError::Unauthorized => !old(self).addr_can_sign(caller),
                        MultisigError::NotFound => old(self).addr_can_sign(caller) && !old(
                            self,
                        ).action_exists(action_id),
                        _ => false,
                    }
                },
            },
    {
        let (_, caller_role) = self.get_caller_id_and_role(caller);
        if !caller_role.can_sign() {
            return Err(MultisigError::Unauthorized);
        }
        if action_id < 1 || action_id > self.actions.len() {
            return Err(MultisigError::NotFound);
        }
        if self.actions[action_id - 1].is_none() {
            return Err(MultisigError::NotFound);
        }
        self.clear_action(action_id);
        Ok(())
    }
}

} // verus!
