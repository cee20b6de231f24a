use multisig::action::{Action, ExternalEffect, MultisigError};
use multisig::propose::MultisigProposeModule;
use multisig::state::Multisig;

const ALICE: u64 = 10;
const BOB: u64 = 20;
const CAROL: u64 = 30;
const DEST: u64 = 99;

fn two_board_members(quorum: usize) -> Multisig {
    Multisig::new(quorum, vec![ALICE, BOB]).unwrap()
}

fn one_board_member() -> Multisig {
    Multisig::new(1, vec![ALICE]).unwrap()
}

/// A board with ALICE and a plain proposer CAROL, quorum 1.
fn board_with_proposer() -> Multisig {
    let mut ms = one_board_member();
    let id = ms.propose_add_proposer(ALICE, CAROL).unwrap();
    ms.perform_action(ALICE, id, 0).unwrap();
    ms
}

#[test]
fn new_rejects_zero_quorum() {
    assert_eq!(
        Multisig::new(0, vec![ALICE]).unwrap_err(),
        MultisigError::InvalidArgument
    );
}

#[test]
fn new_rejects_unreachable_quorum() {
    assert_eq!(
        Multisig::new(3, vec![ALICE, BOB]).unwrap_err(),
        MultisigError::InvalidArgument
    );
}

#[test]
fn new_rejects_duplicate_board() {
    assert_eq!(
        Multisig::new(1, vec![ALICE, ALICE]).unwrap_err(),
        MultisigError::InvalidArgument
    );
}

#[test]
fn quorum_one_proposal_reaches_quorum_immediately() {
    let mut ms = one_board_member();
    let id = ms.propose_change_quorum(ALICE, 1).unwrap();
    assert_eq!(id, 1);
    assert_eq!(ms.quorum_reached(id), Ok(true));
    assert_eq!(ms.signed(id), Ok(vec![ALICE]));
}

#[test]
fn proposer_proposal_starts_with_empty_signer_set() {
    let mut ms = board_with_proposer();
    let id = ms
        .propose_transfer_execute(CAROL, DEST, 100, None, vec![])
        .unwrap();
    assert_eq!(ms.signed(id), Ok(vec![]));
    assert_eq!(ms.quorum_reached(id), Ok(false));
}

#[test]
fn unknown_caller_cannot_propose() {
    let mut ms = one_board_member();
    assert_eq!(
        ms.propose_change_quorum(DEST, 1).unwrap_err(),
        MultisigError::Unauthorized
    );
}

#[test]
fn proposer_cannot_sign() {
    let mut ms = board_with_proposer();
    let id = ms.propose_distribute_funds(CAROL).unwrap();
    assert_eq!(ms.sign(CAROL, id).unwrap_err(), MultisigError::Unauthorized);
}

#[test]
fn sign_twice_fails_with_already_signed() {
    let mut ms = two_board_members(2);
    let id = ms.propose_change_quorum(ALICE, 1).unwrap();
    assert_eq!(ms.sign(ALICE, id).unwrap_err(), MultisigError::AlreadySigned);
    assert_eq!(ms.sign(BOB, id), Ok(()));
    assert_eq!(ms.sign(BOB, id).unwrap_err(), MultisigError::AlreadySigned);
}

#[test]
fn unsign_then_sign_restores_membership() {
    let mut ms = two_board_members(2);
    let id = ms.propose_change_quorum(ALICE, 1).unwrap();
    assert_eq!(ms.sign(BOB, id), Ok(()));
    assert_eq!(ms.unsign(BOB, id), Ok(()));
    assert_eq!(ms.signed(id), Ok(vec![ALICE]));
    assert_eq!(ms.sign(BOB, id), Ok(()));
    let mut who = ms.signed(id).unwrap();
    who.sort();
    assert_eq!(who, vec![ALICE, BOB]);
}

#[test]
fn unsign_without_signature_fails_with_not_found() {
    let mut ms = two_board_members(2);
    let id = ms.propose_change_quorum(ALICE, 1).unwrap();
    assert_eq!(ms.unsign(BOB, id).unwrap_err(), MultisigError::NotFound);
}

#[test]
fn sign_unknown_action_fails_with_not_found() {
    let mut ms = one_board_member();
    assert_eq!(ms.sign(ALICE, 1).unwrap_err(), MultisigError::NotFound);
    assert_eq!(ms.sign(ALICE, 0).unwrap_err(), MultisigError::NotFound);
}

#[test]
fn perform_below_quorum_fails_and_changes_nothing() {
    let mut ms = two_board_members(2);
    let id = ms.propose_change_quorum(ALICE, 1).unwrap();
    assert_eq!(
        ms.perform_action(ALICE, id, 0).unwrap_err(),
        MultisigError::QuorumNotReached
    );
    assert_eq!(ms.get_quorum(), 2);
    assert_eq!(ms.signed(id), Ok(vec![ALICE]));
    assert_eq!(ms.get_action(id), Ok(&Action::ChangeQuorum(1)));
}

#[test]
fn performed_action_is_removed() {
    let mut ms = two_board_members(1);
    let id = ms.propose_add_board_member(ALICE, CAROL).unwrap();
    assert_eq!(ms.perform_action(ALICE, id, 0), Ok(vec![]));
    assert_eq!(ms.get_action(id).unwrap_err(), MultisigError::NotFound);
    assert_eq!(ms.signed(id).unwrap_err(), MultisigError::NotFound);
    assert_eq!(ms.quorum_reached(id).unwrap_err(), MultisigError::NotFound);
    assert_eq!(
        ms.perform_action(ALICE, id, 0).unwrap_err(),
        MultisigError::NotFound
    );
    assert_eq!(ms.get_num_board_members(), 3);
}

#[test]
fn discard_removes_action_without_effects() {
    let mut ms = one_board_member();
    let id = ms
        .propose_transfer_execute(ALICE, DEST, 100, None, vec![])
        .unwrap();
    assert_eq!(ms.discard_action(ALICE, id), Ok(()));
    assert_eq!(ms.get_action(id).unwrap_err(), MultisigError::NotFound);
    assert_eq!(
        ms.discard_action(ALICE, id).unwrap_err(),
        MultisigError::NotFound
    );
}

#[test]
fn action_ids_are_never_reused() {
    let mut ms = one_board_member();
    let first = ms.propose_distribute_funds(ALICE).unwrap();
    assert_eq!(first, 1);
    ms.discard_action(ALICE, first).unwrap();
    let second = ms.propose_distribute_funds(ALICE).unwrap();
    assert_eq!(second, 2);
    assert_eq!(ms.get_action_last_index(), 2);
}

#[test]
fn quorum_change_beyond_board_rolls_back() {
    let mut ms = two_board_members(2);
    let id = ms.propose_change_quorum(ALICE, 3).unwrap();
    assert_eq!(ms.signed(id), Ok(vec![ALICE]));
    assert_eq!(ms.quorum_reached(id), Ok(false));
    assert_eq!(ms.sign(BOB, id), Ok(()));
    assert_eq!(ms.quorum_reached(id), Ok(true));
    assert_eq!(
        ms.perform_action(ALICE, id, 0).unwrap_err(),
        MultisigError::InvariantViolation
    );
    // The whole perform rolled back: old quorum, action still pending.
    assert_eq!(ms.get_quorum(), 2);
    assert_eq!(ms.get_action(id), Ok(&Action::ChangeQuorum(3)));
    let mut who = ms.signed(id).unwrap();
    who.sort();
    assert_eq!(who, vec![ALICE, BOB]);
}

#[test]
fn quorum_change_within_board_succeeds() {
    let mut ms = two_board_members(1);
    let id = ms.propose_change_quorum(ALICE, 2).unwrap();
    assert_eq!(ms.perform_action(ALICE, id, 0), Ok(vec![]));
    assert_eq!(ms.get_quorum(), 2);
}

#[test]
fn zero_quorum_change_fails_with_invalid_argument() {
    let mut ms = one_board_member();
    let id = ms.propose_change_quorum(ALICE, 0).unwrap();
    assert_eq!(
        ms.perform_action(ALICE, id, 0).unwrap_err(),
        MultisigError::InvalidArgument
    );
    assert_eq!(ms.get_quorum(), 1);
}

#[test]
fn proposer_transfer_reaches_exactly_one_send() {
    let mut ms = board_with_proposer();
    let id = ms
        .propose_transfer_execute(CAROL, DEST, 100, None, vec![])
        .unwrap();
    assert_eq!(ms.signed(id), Ok(vec![]));
    assert_eq!(ms.sign(ALICE, id), Ok(()));
    assert_eq!(ms.quorum_reached(id), Ok(true));
    let effects = ms.perform_action(ALICE, id, 0).unwrap();
    assert_eq!(
        effects,
        vec![ExternalEffect::TransferExecute {
            to: DEST,
            egld_amount: 100,
            endpoint_name: vec![],
            arguments: vec![],
        }]
    );
    assert_eq!(ms.get_action(id).unwrap_err(), MultisigError::NotFound);
}

#[test]
fn transfer_with_endpoint_keeps_name_and_arguments() {
    let mut ms = one_board_member();
    let id = ms
        .propose_transfer_execute(
            ALICE,
            DEST,
            7,
            Some(b"claim".to_vec()),
            vec![b"a".to_vec(), b"bc".to_vec()],
        )
        .unwrap();
    let effects = ms.perform_action(ALICE, id, 0).unwrap();
    assert_eq!(
        effects,
        vec![ExternalEffect::TransferExecute {
            to: DEST,
            egld_amount: 7,
            endpoint_name: b"claim".to_vec(),
            arguments: vec![b"a".to_vec(), b"bc".to_vec()],
        }]
    );
}

#[test]
fn async_call_produces_async_effect() {
    let mut ms = one_board_member();
    let id = ms
        .propose_async_call(ALICE, DEST, 5, Some(b"f".to_vec()), vec![])
        .unwrap();
    let effects = ms.perform_action(ALICE, id, 0).unwrap();
    assert_eq!(
        effects,
        vec![ExternalEffect::AsyncCall {
            to: DEST,
            egld_amount: 5,
            endpoint_name: b"f".to_vec(),
            arguments: vec![],
        }]
    );
}

#[test]
fn deploy_and_upgrade_effects_carry_the_payload() {
    let mut ms = one_board_member();
    let id = ms
        .propose_sc_deploy_from_source(ALICE, 1, 42, 3, vec![b"x".to_vec()])
        .unwrap();
    assert_eq!(
        ms.perform_action(ALICE, id, 0).unwrap(),
        vec![ExternalEffect::DeployFromSource {
            amount: 1,
            source: 42,
            code_metadata: 3,
            arguments: vec![b"x".to_vec()],
        }]
    );
    let id = ms
        .propose_sc_upgrade_from_source(ALICE, 77, 2, 42, 3, vec![])
        .unwrap();
    assert_eq!(
        ms.perform_action(ALICE, id, 0).unwrap(),
        vec![ExternalEffect::UpgradeFromSource {
            sc_address: 77,
            amount: 2,
            source: 42,
            code_metadata: 3,
            arguments: vec![],
        }]
    );
}

#[test]
fn staking_actions_produce_their_effects() {
    let mut ms = one_board_member();
    let id = ms.propose_delegate(ALICE, DEST, 500).unwrap();
    assert_eq!(
        ms.perform_action(ALICE, id, 0).unwrap(),
        vec![ExternalEffect::Delegate { provider_address: DEST, amount: 500 }]
    );
    let id = ms.propose_undelegate(ALICE, DEST, 200).unwrap();
    assert_eq!(
        ms.perform_action(ALICE, id, 0).unwrap(),
        vec![ExternalEffect::UnDelegate { provider_address: DEST, amount: 200 }]
    );
    let id = ms.propose_redelegate_rewards(ALICE, DEST).unwrap();
    assert_eq!(
        ms.perform_action(ALICE, id, 0).unwrap(),
        vec![ExternalEffect::ReDelegateRewards { provider_address: DEST }]
    );
    let id = ms.propose_claim_rewards(ALICE, DEST).unwrap();
    assert_eq!(
        ms.perform_action(ALICE, id, 0).unwrap(),
        vec![ExternalEffect::ClaimRewards { provider_address: DEST }]
    );
    let id = ms.propose_withdraw(ALICE, DEST).unwrap();
    assert_eq!(
        ms.perform_action(ALICE, id, 0).unwrap(),
        vec![ExternalEffect::Withdraw { provider_address: DEST }]
    );
}

#[test]
fn promote_proposer_to_board_member() {
    let mut ms = board_with_proposer();
    assert_eq!(ms.get_num_proposers(), 1);
    assert_eq!(ms.get_num_board_members(), 1);
    let id = ms.propose_add_board_member(ALICE, CAROL).unwrap();
    ms.perform_action(ALICE, id, 0).unwrap();
    assert_eq!(ms.get_num_proposers(), 0);
    assert_eq!(ms.get_num_board_members(), 2);
    let id = ms.propose_change_quorum(CAROL, 2).unwrap();
    assert_eq!(ms.sign(CAROL, id).unwrap_err(), MultisigError::AlreadySigned);
}

#[test]
fn demoting_a_board_member_respects_the_quorum() {
    let mut ms = two_board_members(2);
    let id = ms.propose_add_proposer(ALICE, BOB).unwrap();
    ms.sign(BOB, id).unwrap();
    assert_eq!(
        ms.perform_action(ALICE, id, 0).unwrap_err(),
        MultisigError::InvariantViolation
    );
    assert_eq!(ms.get_num_board_members(), 2);

    let mut ms = two_board_members(1);
    let id = ms.propose_add_proposer(ALICE, BOB).unwrap();
    assert_eq!(ms.perform_action(ALICE, id, 0), Ok(vec![]));
    assert_eq!(ms.get_num_board_members(), 1);
    assert_eq!(ms.get_num_proposers(), 1);
}

#[test]
fn removing_the_last_board_member_fails() {
    let mut ms = one_board_member();
    let id = ms.propose_remove_user(ALICE, ALICE).unwrap();
    assert_eq!(
        ms.perform_action(ALICE, id, 0).unwrap_err(),
        MultisigError::InvariantViolation
    );
    assert_eq!(ms.get_num_board_members(), 1);
}

#[test]
fn removed_user_loses_all_capabilities() {
    let mut ms = board_with_proposer();
    let id = ms.propose_remove_user(ALICE, CAROL).unwrap();
    assert_eq!(ms.perform_action(ALICE, id, 0), Ok(vec![]));
    assert_eq!(ms.get_num_proposers(), 0);
    assert_eq!(
        ms.propose_distribute_funds(CAROL).unwrap_err(),
        MultisigError::Unauthorized
    );
}

#[test]
fn removing_an_unknown_user_fails_with_not_found() {
    let mut ms = one_board_member();
    let id = ms.propose_remove_user(ALICE, DEST).unwrap();
    assert_eq!(
        ms.perform_action(ALICE, id, 0).unwrap_err(),
        MultisigError::NotFound
    );
}

#[test]
fn beneficiary_fractions_never_exceed_the_unit() {
    let mut ms = one_board_member();
    let id = ms.propose_add_beneficiary(ALICE, BOB, 6000).unwrap();
    assert_eq!(ms.perform_action(ALICE, id, 0), Ok(vec![]));
    assert_eq!(ms.get_user_fraction(BOB), Ok(6000));

    let id = ms.propose_add_beneficiary(ALICE, CAROL, 5000).unwrap();
    assert_eq!(
        ms.perform_action(ALICE, id, 0).unwrap_err(),
        MultisigError::InvariantViolation
    );
    assert_eq!(ms.get_beneficiaries(), vec![(BOB, 6000)]);

    let id = ms.propose_add_beneficiary(ALICE, CAROL, 4000).unwrap();
    assert_eq!(ms.perform_action(ALICE, id, 0), Ok(vec![]));
    assert_eq!(ms.get_beneficiaries(), vec![(BOB, 6000), (CAROL, 4000)]);
}

#[test]
fn adding_a_beneficiary_again_replaces_its_fraction() {
    let mut ms = one_board_member();
    let id = ms.propose_add_beneficiary(ALICE, BOB, 9000).unwrap();
    ms.perform_action(ALICE, id, 0).unwrap();
    let id = ms.propose_add_beneficiary(ALICE, BOB, 2000).unwrap();
    ms.perform_action(ALICE, id, 0).unwrap();
    assert_eq!(ms.get_beneficiaries(), vec![(BOB, 2000)]);
    // The replacement freed room for another beneficiary.
    let id = ms.propose_add_beneficiary(ALICE, CAROL, 8000).unwrap();
    assert_eq!(ms.perform_action(ALICE, id, 0), Ok(vec![]));
}

#[test]
fn removing_a_beneficiary_frees_its_fraction() {
    let mut ms = one_board_member();
    let id = ms.propose_add_beneficiary(ALICE, BOB, 10000).unwrap();
    ms.perform_action(ALICE, id, 0).unwrap();
    let id = ms.propose_remove_beneficiary(ALICE, BOB).unwrap();
    assert_eq!(ms.perform_action(ALICE, id, 0), Ok(vec![]));
    assert_eq!(ms.get_user_fraction(BOB).unwrap_err(), MultisigError::NotFound);
    assert_eq!(ms.get_beneficiaries(), vec![]);
    let id = ms.propose_remove_beneficiary(ALICE, BOB).unwrap();
    assert_eq!(
        ms.perform_action(ALICE, id, 0).unwrap_err(),
        MultisigError::NotFound
    );
}

#[test]
fn distribution_pays_each_fraction_rounded_down() {
    let mut ms = one_board_member();
    let id = ms.propose_add_beneficiary(ALICE, BOB, 2500).unwrap();
    ms.perform_action(ALICE, id, 0).unwrap();
    let id = ms.propose_add_beneficiary(ALICE, CAROL, 5000).unwrap();
    ms.perform_action(ALICE, id, 0).unwrap();

    let id = ms.propose_distribute_funds(ALICE).unwrap();
    let effects = ms.perform_action(ALICE, id, 1000).unwrap();
    assert_eq!(
        effects,
        vec![
            ExternalEffect::Transfer { to: BOB, amount: 250 },
            ExternalEffect::Transfer { to: CAROL, amount: 500 },
        ]
    );

    // 999 * 5000 / 10000 rounds down to 499; the remainder is undistributed.
    let id = ms.propose_distribute_funds(ALICE).unwrap();
    let effects = ms.perform_action(ALICE, id, 999).unwrap();
    assert_eq!(
        effects,
        vec![
            ExternalEffect::Transfer { to: BOB, amount: 249 },
            ExternalEffect::Transfer { to: CAROL, amount: 499 },
        ]
    );
}

#[test]
fn perform_requires_a_sign_capable_caller() {
    let mut ms = board_with_proposer();
    let id = ms.propose_distribute_funds(ALICE).unwrap();
    assert_eq!(
        ms.perform_action(CAROL, id, 0).unwrap_err(),
        MultisigError::Unauthorized
    );
    assert_eq!(
        ms.discard_action(CAROL, id).unwrap_err(),
        MultisigError::Unauthorized
    );
}
