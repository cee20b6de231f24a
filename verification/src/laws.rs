//! Laws of the action lifecycle, stated over the same spec functions the
//! operations' contracts use.

use vstd::prelude::*;

use crate::action::{Role, PERCENTAGE_TOTAL};
use crate::perform::action_consumed;
use crate::state::{count_role, fraction_sum, Multisig};

verus! {

/// Withdrawing a signature and signing again restores the signer set's
/// membership exactly: for a duplicate-free signer sequence `s` holding `x`,
/// removing `x` (what `unsign` does) leaves a sequence without `x` — so the
/// later `sign` is accepted — and pushing `x` back (what `sign` does) yields
/// the same set of signers as before.
pub proof fn lemma_unsign_then_sign_restores(s: Seq<usize>, x: usize)
    requires
        s.no_duplicates(),
        s.contains(x),
    ensures
        !s.remove_value(x).contains(x),
        s.remove_value(x).push(x).to_set() == s.to_set(),
{
    s.index_of_first_ensures(x);
    let i = s.index_of_first(x).unwrap();
    let t = s.remove(i);
    assert(s.remove_value(x) == t);
    assert forall|j: int| 0 <= j < t.len() implies #[trigger] t[j] != x by {
        if j < i {
            assert(t[j] == s[j]);
        } else {
            assert(t[j] == s[j + 1]);
        }
    }
    assert(!t.contains(x));
    let u = t.push(x);
    assert forall|a: usize| u.to_set().contains(a) implies s.to_set().contains(a) by {
        assert(u.contains(a));
        let j = choose|j: int| 0 <= j < u.len() && u[j] == a;
        if j < t.len() {
            if j < i {
                assert(s[j] == a);
            } else {
                assert(s[j + 1] == a);
            }
        } else {
            assert(a == x);
        }
        assert(s.contains(a));
    }
    assert forall|a: usize| s.to_set().contains(a) implies u.to_set().contains(a) by {
        assert(s.contains(a));
        let k = choose|k: int| 0 <= k < s.len() && s[k] == a;
        if k == i {
            assert(u[u.len() - 1] == x);
        } else if k < i {
            assert(u[k] == s[k]);
        } else {
            assert(u[k - 1] == s[k]);
        }
        assert(u.contains(a));
    }
    assert(u.to_set() =~= s.to_set());
}

/// A consumed action no longer exists: after a successful perform or
/// discard, a lookup, a signer query or a quorum query under the same id
/// fails with `NotFound`, by those operations' own contracts.
pub proof fn lemma_consumed_action_not_found(pre: Multisig, post: Multisig, action_id: usize)
    requires
        1 <= action_id <= pre.actions@.len(),
        action_consumed(pre, post, action_id),
    ensures
        !post.action_exists(action_id),
{
}

/// The quorum invariant every operation preserves: in a well-formed state
/// the quorum is at least one and never exceeds the number of sign-capable
/// parties. Every mutating operation ensures the final state is well-formed
/// or fails without changing anything, so this bound holds after any
/// sequence of operations.
pub proof fn lemma_wf_quorum_bound(s: Multisig)
    requires
        s.wf(),
    ensures
        1 <= s.quorum,
        s.quorum <= count_role(s.users@, Role::BoardMember),
{
}

/// The beneficiary invariant every operation preserves: in a well-formed
/// state the fractions of all beneficiaries sum to at most the whole unit.
/// An addition that would exceed it fails with `InvariantViolation` and
/// leaves the table unchanged, by `perform_action`'s contract.
pub proof fn lemma_wf_fraction_bound(s: Multisig)
    requires
        s.wf(),
    ensures
        fraction_sum(s.beneficiaries@) <= PERCENTAGE_TOTAL,
{
}

} // verus!
