//! The proposal façade: one public operation per proposable action kind.
//!
//! Every operation requires the caller to hold a propose-capable role,
//! appends the action to the log under the next action id, and — when the
//! caller is also sign-capable — records the caller as the action's first
//! signer. A propose-only caller leaves the new action with an empty signer
//! set.

use vstd::prelude::*;

use crate::action::{Action, CallActionData, MultisigError};
use crate::state::{lemma_first_index_with_key, same_registry, Multisig};

verus! {

/// The endpoint name a call proposal stores: the given name, or empty for a
/// plain transfer.
pub open spec fn spec_endpoint_of(opt_function: Option<Vec<u8>>) -> Seq<u8> {
    match opt_function {
        Some(f) => f@,
        None => Seq::<u8>::empty(),
    }
}

/// Whether `a` is a synchronous transfer-execute proposal with exactly this
/// destination, amount, endpoint name and argument list.
pub open spec fn is_send_transfer_execute(
    a: Action,
    to: u64,
    egld_amount: u64,
    endpoint: Seq<u8>,
    args: Seq<Seq<u8>>,
) -> bool {
    match a {
        Action::SendTransferExecute(d) => {
            &&& d.to == to
            &&& d.egld_amount == egld_amount
            &&& d.endpoint_name@ == endpoint
            &&& d.arguments.deep_view() == args
        },
        _ => false,
    }
}

/// Whether `a` is an asynchronous call proposal with exactly this
/// destination, amount, endpoint name and argument list.
pub open spec fn is_send_async_call(
    a: Action,
    to: u64,
    egld_amount: u64,
    endpoint: Seq<u8>,
    args: Seq<Seq<u8>>,
) -> bool {
    match a {
        Action::SendAsyncCall(d) => {
            &&& d.to == to
            &&& d.egld_amount == egld_amount
            &&& d.endpoint_name@ == endpoint
            &&& d.arguments.deep_view() == args
        },
        _ => false,
    }
}

/// What any successful or failed proposal does to the state: on success the
/// registry, quorum and beneficiaries are untouched, the action log and the
/// signer slots grow by one, the new action id is the new log length, and
/// the new signer set holds exactly the caller when sign-capable and nobody
/// otherwise; on failure the caller was not propose-capable and nothing
/// changed.
pub open spec fn propose_bookkeeping(
    pre: Multisig,
    post: Multisig,
    caller: u64,
    r: Result<usize, MultisigError>,
) -> bool {
    match r {
        Ok(id) => {
            &&& pre.addr_can_propose(caller)
            &&& id == pre.actions@.len() + 1
            &&& same_registry(pre, post)
            &&& post.actions@.len() == pre.actions@.len() + 1
            &&& (forall|j: int| 0 <= j < pre.actions@.len() ==> post.actions@[j] == pre.actions@[j])
            &&& post.action_exists(id)
            &&& post.signers@.len() == pre.signers@.len() + 1
            &&& (forall|j: int| 0 <= j < pre.signers@.len() ==> post.signers@[j] == pre.signers@[j])
            &&& post.spec_signer_ids(id) == (if pre.addr_can_sign(caller) {
                seq![pre.spec_user_id(caller)]
            } else {
                Seq::<usize>::empty()
            })
        },
        Err(e) => {
            &&& e == MultisigError::Unauthorized
            &&& !pre.addr_can_propose(caller)
            &&& post == pre
        },
    }
}

/// `propose_bookkeeping`, and on success the stored action is exactly
/// `action`.
pub open spec fn propose_outcome(
    pre: Multisig,
    post: Multisig,
    caller: u64,
    action: Action,
    r: Result<usize, MultisigError>,
) -> bool {
    &&& propose_bookkeeping(pre, post, caller, r)
    &&& match r {
        Ok(id) => post.actions@[id - 1] == Some(action),
        Err(_) => true,
    }
}

/// The proposal operations of the authorization engine, one per action
/// kind, all funnelled through `propose_action`.
pub trait MultisigProposeModule: Sized {
    /// The authorization state the operations act on.
    spec fn st(&self) -> Multisig;

    /// Appends `action` to the log under the next action id, signing it for
    /// the caller when the caller is sign-capable. Fails with `Unauthorized`
    /// for a caller that may not propose. With a quorum of one, a proposal
    /// by a sign-capable caller reaches the quorum immediately; a proposal
    /// by a propose-only caller starts with no signers.
    fn propose_action(&mut self, caller: u64, action: Action) -> (r: Result<usize, MultisigError>)
        requires
            old(self).st().wf(),
        ensures
            final(self).st().wf(),
            propose_outcome(old(self).st(), final(self).st(), caller, action, r),
            match r {
                Ok(id) => {
                    &&& (old(self).st().addr_can_sign(caller) && old(self).st().quorum == 1
                        ==> final(self).st().spec_quorum_reached(id))
                    &&& (!old(self).st().addr_can_sign(caller) ==> final(self).st().spec_signer_ids(
                        id,
                    ).len() == 0)
                },
                Err(_) => true,
            },
    ;

    /// Proposes giving an address the board-member role; also usable to
    /// promote a proposer.
    fn propose_add_board_member(&mut self, caller: u64, board_member_address: u64) -> (r: Result<
        usize,
        MultisigError,
    >)
        requires
            old(self).st().wf(),
        ensures
            final(self).st().wf(),
            propose_outcome(
                old(self).st(),
                final(self).st(),
                caller,
                Action::AddBoardMember(board_member_address),
                r,
            ),
    ;

    /// Proposes giving an address the proposer role; also usable to demote a
    /// board member.
    fn propose_add_proposer(&mut self, caller: u64, proposer_address: u64) -> (r: Result<
        usize,
        MultisigError,
    >)
        requires
            old(self).st().wf(),
        ensures
            final(self).st().wf(),
            propose_outcome(
                old(self).st(),
                final(self).st(),
                caller,
                Action::AddProposer(proposer_address),
                r,
            ),
    ;

    /// Proposes removing a user, whatever role it holds.
    fn propose_remove_user(&mut self, caller: u64, user_address: u64) -> (r: Result<
        usize,
        MultisigError,
    >)
        requires
            old(self).st().wf(),
        ensures
            final(self).st().wf(),
            propose_outcome(
                old(self).st(),
                final(self).st(),
                caller,
                Action::RemoveUser(user_address),
                r,
            ),
    ;

    /// Proposes a new signature threshold.
    fn propose_change_quorum(&mut self, caller: u64, new_quorum: usize) -> (r: Result<
        usize,
        MultisigError,
    >)
        requires
            old(self).st().wf(),
        ensures
            final(self).st().wf(),
            propose_outcome(
                old(self).st(),
                final(self).st(),
                caller,
                Action::ChangeQuorum(new_quorum),
                r,
            ),
    ;

    /// Builds the payload of a call proposal: a missing endpoint name means
    /// a plain transfer and is stored empty.
    fn prepare_call_data(
        &self,
        to: u64,
        egld_amount: u64,
        opt_function: Option<Vec<u8>>,
        arguments: Vec<Vec<u8>>,
    ) -> (d: CallActionData)
        ensures
            d.to == to,
            d.egld_amount == egld_amount,
            d.endpoint_name@ == spec_endpoint_of(opt_function),
            d.arguments == arguments,
    ;

    /// Proposes a synchronous transfer, optionally calling an endpoint of
    /// the destination.
    fn propose_transfer_execute(
        &mut self,
        caller: u64,
        to: u64,
        egld_amount: u64,
        opt_function: Option<Vec<u8>>,
        arguments: Vec<Vec<u8>>,
    ) -> (r: Result<usize, MultisigError>)
        requires
            old(self).st().wf(),
        ensures
            final(self).st().wf(),
            propose_bookkeeping(old(self).st(), final(self).st(), caller, r),
            match r {
                Ok(id) => is_send_transfer_execute(
                    final(self).st().spec_action_at(id),
                    to,
                    egld_amount,
                    spec_endpoint_of(opt_function),
                    arguments.deep_view(),
                ),
                Err(_) => true,
            },
    ;

    /// Proposes an asynchronous call of the destination, whose completion is
    /// decoupled from performing the action.
    fn propose_async_call(
        &mut self,
        caller: u64,
        to: u64,
        egld_amount: u64,
        opt_function: Option<Vec<u8>>,
        arguments: Vec<Vec<u8>>,
    ) -> (r: Result<usize, MultisigError>)
        requires
            old(self).st().wf(),
        ensures
            final(self).st().wf(),
            propose_bookkeeping(old(self).st(), final(self).st(), caller, r),
            match r {
                Ok(id) => is_send_async_call(
                    final(self).st().spec_action_at(id),
                    to,
                    egld_amount,
                    spec_endpoint_of(opt_function),
                    arguments.deep_view(),
                ),
                Err(_) => true,
            },
    ;

    /// Proposes deploying a contract from the code of a source address.
    fn propose_sc_deploy_from_source(
        &mut self,
        caller: u64,
        amount: u64,
        source: u64,
        code_metadata: u64,
        arguments: Vec<Vec<u8>>,
    ) -> (r: Result<usize, MultisigError>)
        requires
            old(self).st().wf(),
        ensures
            final(self).st().wf(),
            propose_outcome(
                old(self).st(),
                final(self).st(),
                caller,
                (Action::SCDeployFromSource { amount, source, code_metadata, arguments }),
                r,
            ),
    ;

    /// Proposes upgrading a deployed contract from the code of a source
    /// address.
    fn propose_sc_upgrade_from_source(
        &mut self,
        caller: u64,
        sc_address: u64,
        amount: u64,
        source: u64,
        code_metadata: u64,
        arguments: Vec<Vec<u8>>,
    ) -> (r: Result<usize, MultisigError>)
        requires
            old(self).st().wf(),
        ensures
            final(self).st().wf(),
            propose_outcome(
                old(self).st(),
                final(self).st(),
                caller,
                (Action::SCUpgradeFromSource {
                    sc_address,
                    amount,
                    source,
                    code_metadata,
                    arguments,
                }),
                r,
            ),
    ;

    /// Proposes delegating an amount to a staking provider.
    fn propose_delegate(&mut self, caller: u64, provider_address: u64, amount: u64) -> (r: Result<
        usize,
        MultisigError,
    >)
        requires
            old(self).st().wf(),
        ensures
            final(self).st().wf(),
            propose_outcome(
                old(self).st(),
                final(self).st(),
                caller,
                (Action::Delegate { provider_address, amount }),
                r,
            ),
    ;

    /// Proposes undelegating an amount from a staking provider.
    fn propose_undelegate(&mut self, caller: u64, provider_address: u64, amount: u64) -> (r: Result<
        usize,
        MultisigError,
    >)
        requires
            old(self).st().wf(),
        ensures
            final(self).st().wf(),
            propose_outcome(
                old(self).st(),
                final(self).st(),
                caller,
                (Action::UnDelegate { provider_address, amount }),
                r,
            ),
    ;

    /// Proposes redelegating the rewards accumulated at a staking provider.
    fn propose_redelegate_rewards(&mut self, caller: u64, provider_address: u64) -> (r: Result<
        usize,
        MultisigError,
    >)
        requires
            old(self).st().wf(),
        ensures
            final(self).st().wf(),
            propose_outcome(
                old(self).st(),
                final(self).st(),
                caller,
                Action::ReDelegateRewards(provider_address),
                r,
            ),
    ;

    /// Proposes claiming the rewards accumulated at a staking provider.
    fn propose_claim_rewards(&mut self, caller: u64, provider_address: u64) -> (r: Result<
        usize,
        MultisigError,
    >)
        requires
            old(self).st().wf(),
        ensures
            final(self).st().wf(),
            propose_outcome(
                old(self).st(),
                final(self).st(),
                caller,
                Action::ClaimRewards(provider_address),
                r,
            ),
    ;

    /// Proposes withdrawing previously undelegated funds from a staking
    /// provider.
    fn propose_withdraw(&mut self, caller: u64, provider_address: u64) -> (r: Result<
        usize,
        MultisigError,
    >)
        requires
            old(self).st().wf(),
        ensures
            final(self).st().wf(),
            propose_outcome(
                old(self).st(),
                final(self).st(),
                caller,
                Action::Withdraw(provider_address),
                r,
            ),
    ;

    /// Proposes distributing the current balance to the beneficiaries, pro
    /// rata by their fractions.
    fn propose_distribute_funds(&mut self, caller: u64) -> (r: Result<usize, MultisigError>)
        requires
            old(self).st().wf(),
        ensures
            final(self).st().wf(),
            propose_outcome(old(self).st(), final(self).st(), caller, Action::DistributeFunds, r),
    ;

    /// Proposes registering a beneficiary with a fraction of future
    /// distributions.
    fn propose_add_beneficiary(
        &mut self,
        caller: u64,
        beneficiary_address: u64,
        amount_fraction: u32,
    ) -> (r: Result<usize, MultisigError>)
        requires
            old(self).st().wf(),
        ensures
            final(self).st().wf(),
            propose_outcome(
                old(self).st(),
                final(self).st(),
                caller,
                (Action::AddBeneficiary { beneficiary_address, amount_fraction }),
                r,
            ),
    ;

    /// Proposes removing a beneficiary from the distribution table.
    fn propose_remove_beneficiary(&mut self, caller: u64, beneficiary_address: u64) -> (r: Result<
        usize,
        MultisigError,
    >)
        requires
            old(self).st().wf(),
        ensures
            final(self).st().wf(),
            propose_outcome(
                old(self).st(),
                final(self).st(),
                caller,
                Action::RemoveBeneficiary(beneficiary_address),
                r,
            ),
    ;
}

impl MultisigProposeModule for Multisig {
    open spec fn st(&self) -> Multisig {
        *self
    }

    fn propose_action(&mut self, caller: u64, action: Action) -> (r: Result<usize, MultisigError>)
    {
        let (caller_id, caller_role) = self.get_caller_id_and_role(caller);
        if !caller_role.can_propose() {
            return Err(MultisigError::Unauthorized);
        }
        let ghost pre = *self;
        proof {
            lemma_first_index_with_key(pre.users@, caller);
        }
        self.actions.push(Some(action));
        let mut sigs: Vec<usize> = Vec::new();
        if caller_role.can_sign() {
            sigs.push(caller_id);
        }
        self.signers.push(sigs);
        let id = self.actions.len();
        proof {
            assert(self.actions@ == pre.actions@.push(Some(action)));
            assert(self.signers@ == pre.signers@.push(sigs));
            assert(self.spec_signer_ids(id) == sigs@);
            if pre.addr_can_sign(caller) {
                assert(sigs@ =~= seq![pre.spec_user_id(caller)]);
            } else {
                assert(sigs@ =~= Seq::<usize>::empty());
            }
        }
        Ok(id)
    }

    fn propose_add_board_member(&mut self, caller: u64, board_member_address: u64) -> (r: Result<
        usize,
        MultisigError,
    >) {
        self.propose_action(caller, Action::AddBoardMember(board_member_address))
    }

    fn propose_add_proposer(&mut self, caller: u64, proposer_address: u64) -> (r: Result<
        usize,
        MultisigError,
    >) {
        self.propose_action(caller, Action::AddProposer(proposer_address))
    }

    fn propose_remove_user(&mut self, caller: u64, user_address: u64) -> (r: Result<
        usize,
        MultisigError,
    >) {
        self.propose_action(caller, Action::RemoveUser(user_address))
    }

    fn propose_change_quorum(&mut self, caller: u64, new_quorum: usize) -> (r: Result<
        usize,
        MultisigError,
    >) {
        self.propose_action(caller, Action::ChangeQuorum(new_quorum))
    }

    fn prepare_call_data(
        &self,
        to: u64,
        egld_amount: u64,
        opt_function: Option<Vec<u8>>,
        arguments: Vec<Vec<u8>>,
    ) -> (d: CallActionData) {
        let endpoint_name = match opt_function {
            Some(data) => data,
            None => Vec::new(),
        };
        CallActionData { to, egld_amount, endpoint_name, arguments }
    }

    fn propose_transfer_execute(
        &mut self,
        caller: u64,
        to: u64,
        egld_amount: u64,
        opt_function: Option<Vec<u8>>,
        arguments: Vec<Vec<u8>>,
    ) -> (r: Result<usize, MultisigError>) {
        let call_data = self.prepare_call_data(to, egld_amount, opt_function, arguments);
        self.propose_action(caller, Action::SendTransferExecute(call_data))
    }

    fn propose_async_call(
        &mut self,
        caller: u64,
        to: u64,
        egld_amount: u64,
        opt_function: Option<Vec<u8>>,
        arguments: Vec<Vec<u8>>,
    ) -> (r: Result<usize, MultisigError>) {
        let call_data = self.prepare_call_data(to, egld_amount, opt_function, arguments);
        self.propose_action(caller, Action::SendAsyncCall(call_data))
    }

    fn propose_sc_deploy_from_source(
        &mut self,
        caller: u64,
        amount: u64,
        source: u64,
        code_metadata: u64,
        arguments: Vec<Vec<u8>>,
    ) -> (r: Result<usize, MultisigError>) {
        self.propose_action(
            caller,
            Action::SCDeployFromSource { amount, source, code_metadata, arguments },
        )
    }

    fn propose_sc_upgrade_from_source(
        &mut self,
        caller: u64,
        sc_address: u64,
        amount: u64,
        source: u64,
        code_metadata: u64,
        arguments: Vec<Vec<u8>>,
    ) -> (r: Result<usize, MultisigError>) {
        self.propose_action(
            caller,
            Action::SCUpgradeFromSource { sc_address, amount, source, code_metadata, arguments },
        )
    }

    fn propose_delegate(&mut self, caller: u64, provider_address: u64, amount: u64) -> (r: Result<
        usize,
        MultisigError,
    >) {
        self.propose_action(caller, Action::Delegate { provider_address, amount })
    }

    fn propose_undelegate(&mut self, caller: u64, provider_address: u64, amount: u64) -> (r: Result<
        usize,
        MultisigError,
    >) {
        self.propose_action(caller, Action::UnDelegate { provider_address, amount })
    }

    fn propose_redelegate_rewards(&mut self, caller: u64, provider_address: u64) -> (r: Result<
        usize,
        MultisigError,
    >) {
        self.propose_action(caller, Action::ReDelegateRewards(provider_address))
    }

    fn propose_claim_rewards(&mut self, caller: u64, provider_address: u64) -> (r: Result<
        usize,
        MultisigError,
    >) {
        self.propose_action(caller, Action::ClaimRewards(provider_address))
    }

    fn propose_withdraw(&mut self, caller: u64, provider_address: u64) -> (r: Result<
        usize,
        MultisigError,
    >) {
        self.propose_action(caller, Action::Withdraw(provider_address))
    }

    fn propose_distribute_funds(&mut self, caller: u64) -> (r: Result<usize, MultisigError>) {
        self.propose_action(caller, Action::DistributeFunds)
    }

    fn propose_add_beneficiary(
        &mut self,
        caller: u64,
        beneficiary_address: u64,
        amount_fraction: u32,
    ) -> (r: Result<usize, MultisigError>) {
        self.propose_action(
            caller,
            Action::AddBeneficiary { beneficiary_address, amount_fraction },
        )
    }

    fn propose_remove_beneficiary(&mut self, caller: u64, beneficiary_address: u64) -> (r: Result<
        usize,
        MultisigError,
    >) {
        self.propose_action(caller, Action::RemoveBeneficiary(beneficiary_address))
    }
}

} // verus!
