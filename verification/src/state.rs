//! The authoritative state: identity and role registry, append-only action
//! store, per-action signer sets, beneficiary table and the quorum scalar,
//! together with the signing operations and the read-only queries.
//!
//! The well-formedness predicate [`Multisig::wf`] is the central invariant:
//! every operation requires it and re-establishes it, and every failing
//! operation leaves the state exactly as it was.

use vstd::prelude::*;

use crate::action::{Action, MultisigError, Role, PERCENTAGE_TOTAL};

verus! {

/// The position of the first entry of `s` whose key is `key`, or -1 when no
/// entry has that key.
pub open spec fn first_index_with_key<T>(s: Seq<(u64, T)>, key: u64) -> int
    decreases s.len(),
{
    if s.len() == 0 {
        -1
    } else if s.first().0 == key {
        0
    } else {
        let rest = first_index_with_key(s.drop_first(), key);
        if rest < 0 {
            -1
        } else {
            1 + rest
        }
    }
}

/// `first_index_with_key` finds the first match: a non-negative result is a
/// matching position preceded by no match, and -1 means no entry matches.
pub proof fn lemma_first_index_with_key<T>(s: Seq<(u64, T)>, key: u64)
    ensures
        first_index_with_key(s, key) >= 0 ==> {
            let i = first_index_with_key(s, key);
            &&& i < s.len()
            &&& s[i].0 == key
            &&& forall|j: int| 0 <= j < i ==> (#[trigger] s[j]).0 != key
        },
        first_index_with_key(s, key) < 0 ==> first_index_with_key(s, key) == -1
            && (forall|j: int| 0 <= j < s.len() ==> (#[trigger] s[j]).0 != key),
    decreases s.len(),
{
    if s.len() > 0 && s.first().0 != key {
        lemma_first_index_with_key(s.drop_first(), key);
        let rest = first_index_with_key(s.drop_first(), key);
        if rest >= 0 {
            assert(s[1 + rest] == s.drop_first()[rest]);
            assert forall|j: int| 0 <= j < 1 + rest implies (#[trigger] s[j]).0 != key by {
                if j == 0 {
                    assert(s[0] == s.first());
                } else {
                    assert(s[j] == s.drop_first()[j - 1]);
                }
            }
        } else {
            assert forall|j: int| 0 <= j < s.len() implies (#[trigger] s[j]).0 != key by {
                if j == 0 {
                    assert(s[0] == s.first());
                } else {
                    assert(s[j] == s.drop_first()[j - 1]);
                }
            }
        }
    }
}

/// How many entries of `s` hold the role `r`.
pub open spec fn count_role(s: Seq<(u64, Role)>, r: Role) -> int
    decreases s.len(),
{
    if s.len() == 0 {
        0
    } else {
        count_role(s.drop_last(), r) + (if s.last().1 == r {
            1int
        } else {
            0int
        })
    }
}

/// A role count lies between zero and the registry's size.
pub proof fn lemma_count_role_le_len(s: Seq<(u64, Role)>, r: Role)
    ensures
        0 <= count_role(s, r) <= s.len(),
    decreases s.len(),
{
    if s.len() > 0 {
        lemma_count_role_le_len(s.drop_last(), r);
    }
}

/// Appending an entry raises the count of its own role by one and leaves
/// every other count unchanged.
pub proof fn lemma_count_role_push(s: Seq<(u64, Role)>, e: (u64, Role), r: Role)
    ensures
        count_role(s.push(e), r) == count_role(s, r) + (if e.1 == r {
            1int
        } else {
            0int
        }),
{
    assert(s.push(e).drop_last() =~= s);
    assert(s.push(e).last() == e);
}

/// Replacing the entry at `i` adjusts a role count by the roles of the old
/// and the new entry alone.
pub proof fn lemma_count_role_update(s: Seq<(u64, Role)>, i: int, e: (u64, Role), r: Role)
    requires
        0 <= i < s.len(),
    ensures
        count_role(s.update(i, e), r) == count_role(s, r) - (if s[i].1 == r {
            1int
        } else {
            0int
        }) + (if e.1 == r {
            1int
        } else {
            0int
        }),
    decreases s.len(),
{
    let t = s.update(i, e);
    if i == s.len() - 1 {
        assert(t.drop_last() =~= s.drop_last());
        assert(t.last() == e);
    } else {
        assert(t.drop_last() =~= s.drop_last().update(i, e));
        lemma_count_role_update(s.drop_last(), i, e, r);
        assert(t.last() == s.last());
    }
}

/// An entry holding another role keeps the count of `r` below the size.
pub proof fn lemma_count_role_other(s: Seq<(u64, Role)>, i: int, r: Role)
    requires
        0 <= i < s.len(),
        s[i].1 != r,
    ensures
        count_role(s, r) <= s.len() - 1,
    decreases s.len(),
{
    lemma_count_role_le_len(s.drop_last(), r);
    if i < s.len() - 1 {
        lemma_count_role_other(s.drop_last(), i, r);
    }
}

/// An entry holding role `r` makes the count of `r` at least one.
pub proof fn lemma_count_role_at_least_one(s: Seq<(u64, Role)>, i: int, r: Role)
    requires
        0 <= i < s.len(),
        s[i].1 == r,
    ensures
        count_role(s, r) >= 1,
    decreases s.len(),
{
    lemma_count_role_le_len(s.drop_last(), r);
    if i < s.len() - 1 {
        lemma_count_role_at_least_one(s.drop_last(), i, r);
    }
}

/// The sum of the beneficiaries' fractions.
pub open spec fn fraction_sum(s: Seq<(u64, u32)>) -> int
    decreases s.len(),
{
    if s.len() == 0 {
        0
    } else {
        fraction_sum(s.drop_last()) + s.last().1
    }
}

/// A fraction sum is never negative.
pub proof fn lemma_fraction_sum_nonneg(s: Seq<(u64, u32)>)
    ensures
        0 <= fraction_sum(s),
    decreases s.len(),
{
    if s.len() > 0 {
        lemma_fraction_sum_nonneg(s.drop_last());
    }
}

/// Appending an entry raises the fraction sum by exactly its fraction.
pub proof fn lemma_fraction_sum_push(s: Seq<(u64, u32)>, e: (u64, u32))
    ensures
        fraction_sum(s.push(e)) == fraction_sum(s) + e.1,
{
    assert(s.push(e).drop_last() =~= s);
    assert(s.push(e).last() == e);
}

/// Replacing the entry at `i` moves the fraction sum by the difference of
/// the new and the old fraction.
pub proof fn lemma_fraction_sum_update(s: Seq<(u64, u32)>, i: int, e: (u64, u32))
    requires
        0 <= i < s.len(),
    ensures
        fraction_sum(s.update(i, e)) == fraction_sum(s) - s[i].1 + e.1,
    decreases s.len(),
{
    let t = s.update(i, e);
    if i == s.len() - 1 {
        assert(t.drop_last() =~= s.drop_last());
        assert(t.last() == e);
    } else {
        assert(t.drop_last() =~= s.drop_last().update(i, e));
        lemma_fraction_sum_update(s.drop_last(), i, e);
        assert(t.last() == s.last());
    }
}

/// Removing the entry at `i` lowers the fraction sum by exactly its fraction.
pub proof fn lemma_fraction_sum_remove(s: Seq<(u64, u32)>, i: int)
    requires
        0 <= i < s.len(),
    ensures
        fraction_sum(s.remove(i)) == fraction_sum(s) - s[i].1,
    decreases s.len(),
{
    let t = s.remove(i);
    if i == s.len() - 1 {
        assert(t =~= s.drop_last());
    } else {
        assert(t.drop_last() =~= s.drop_last().remove(i));
        lemma_fraction_sum_remove(s.drop_last(), i);
        assert(t.last() == s.last());
    }
}

/// Every single fraction is at most the whole sum.
pub proof fn lemma_fraction_member_le_sum(s: Seq<(u64, u32)>, i: int)
    requires
        0 <= i < s.len(),
    ensures
        s[i].1 <= fraction_sum(s),
    decreases s.len(),
{
    lemma_fraction_sum_nonneg(s.drop_last());
    if i < s.len() - 1 {
        lemma_fraction_member_le_sum(s.drop_last(), i);
    }
}

/// Finds the first entry of `v` whose key is `key`.
pub fn find_index_u64<T>(v: &Vec<(u64, T)>, key: u64) -> (r: Option<usize>)
    ensures
        match r {
            Some(i) => i == first_index_with_key(v@, key) && i < v.len() && v@[i as int].0 == key,
            None => first_index_with_key(v@, key) == -1,
        },
{
    let mut i: usize = 0;
    while i < v.len()
        invariant
            i <= v@.len(),
            forall|j: int| 0 <= j < i ==> (#[trigger] v@[j]).0 != key,
        decreases v@.len() - i,
    {
        if v[i].0 == key {
            proof {
                lemma_first_index_with_key(v@, key);
            }
            return Some(i);
        }
        i += 1;
    }
    proof {
        lemma_first_index_with_key(v@, key);
    }
    None
}

/// The whole authorization state: one value of this type is the single
/// authoritative, sequentially driven store.
///
/// Party ids are positions in `users` plus one, assigned on first reference
/// and never reused; action ids are positions in `actions` plus one,
/// assigned sequentially and never reused — a performed or discarded action
/// leaves an empty slot behind.
#[derive(Debug)]
pub struct Multisig {
    /// The registry: address and role per party, indexed by party id - 1.
    pub users: Vec<(u64, Role)>,
    /// Cached count of parties whose role is `BoardMember`.
    pub num_board_members: usize,
    /// Cached count of parties whose role is `Proposer`.
    pub num_proposers: usize,
    /// How many distinct signatures an action needs before it may execute.
    pub quorum: usize,
    /// The action log, indexed by action id - 1; `None` marks a slot whose
    /// action was performed or discarded.
    pub actions: Vec<Option<Action>>,
    /// Per action slot, the ids of the parties who have signed it.
    pub signers: Vec<Vec<usize>>,
    /// The distribution table: address and fraction per beneficiary.
    pub beneficiaries: Vec<(u64, u32)>,
    /// Cached sum of all beneficiary fractions.
    pub fraction_total: u32,
}

impl Multisig {
    /// Well-formedness: the quorum is reachable, the cached counts are the
    /// true counts, signer sets are duplicate-free sets of known parties,
    /// consumed actions have no signers, addresses are unique keys, and the
    /// beneficiary fractions never exceed the whole unit.
    pub open spec fn wf(&self) -> bool {
        &&& 1 <= self.quorum
        &&& self.quorum <= self.num_board_members
        &&& self.num_board_members == count_role(self.users@, Role::BoardMember)
        &&& self.num_proposers == count_role(self.users@, Role::Proposer)
        &&& self.actions@.len() == self.signers@.len()
        &&& (forall|i: int|
            0 <= i < self.signers@.len() ==> (#[trigger] self.signers@[i])@.no_duplicates())
        &&& (forall|i: int, j: int|
            0 <= i < self.signers@.len() && 0 <= j < self.signers@[i]@.len() ==> 1 <= #[trigger] self.signers@[i]@[j] <= self.users@.len())
        &&& (forall|i: int|
            0 <= i < self.actions@.len() && self.actions@[i] is None ==> (
            #[trigger] self.signers@[i])@.len() == 0)
        &&& (forall|i: int, j: int|
            0 <= i < j < self.users@.len() ==> (#[trigger] self.users@[i]).0 != (
            #[trigger] self.users@[j]).0)
        &&& (forall|i: int, j: int|
            0 <= i < j < self.beneficiaries@.len() ==> (#[trigger] self.beneficiaries@[i]).0 != (
            #[trigger] self.beneficiaries@[j]).0)
        &&& self.fraction_total == fraction_sum(self.beneficiaries@)
        &&& self.fraction_total <= PERCENTAGE_TOTAL
    }

    /// The registry position of `address`, or -1 when it is unknown.
    pub open spec fn user_idx(&self, address: u64) -> int {
        first_index_with_key(self.users@, address)
    }

    /// Whether `address` has ever been referenced by the registry.
    pub open spec fn has_user(&self, address: u64) -> bool {
        self.user_idx(address) >= 0
    }

    /// The party id of `address`: its registry position plus one, or zero
    /// when the address is unknown.
    pub open spec fn spec_user_id(&self, address: u64) -> usize {
        (self.user_idx(address) + 1) as usize
    }

    /// The role of `address`; an unknown address has no capability.
    pub open spec fn spec_role_of(&self, address: u64) -> Role {
        if self.has_user(address) {
            self.users@[self.user_idx(address)].1
        } else {
            Role::Inactive
        }
    }

    /// Whether `address` may create proposals.
    pub open spec fn addr_can_propose(&self, address: u64) -> bool {
        self.spec_role_of(address).spec_can_propose()
    }

    /// Whether `address` may sign proposals and count toward the quorum.
    pub open spec fn addr_can_sign(&self, address: u64) -> bool {
        self.spec_role_of(address).spec_can_sign()
    }

    /// Whether `action_id` names an action that exists and is still pending.
    pub open spec fn action_exists(&self, action_id: usize) -> bool {
        &&& 1 <= action_id <= self.actions@.len()
        &&& self.actions@[action_id - 1] is Some
    }

    /// The pending action stored under `action_id`.
    pub open spec fn spec_action_at(&self, action_id: usize) -> Action {
        self.actions@[action_id - 1].unwrap()
    }

    /// The ids of the parties who have signed action `action_id`, in the
    /// order in which the signatures arrived.
    pub open spec fn spec_signer_ids(&self, action_id: usize) -> Seq<usize> {
        self.signers@[action_id - 1]@
    }

    /// Whether `party_id` has signed action `action_id`.
    pub open spec fn spec_has_signed(&self, action_id: usize, party_id: usize) -> bool {
        self.spec_signer_ids(action_id).contains(party_id)
    }

    /// Whether action `action_id` has gathered at least `quorum` signatures.
    pub open spec fn spec_quorum_reached(&self, action_id: usize) -> bool {
        self.spec_signer_ids(action_id).len() >= self.quorum
    }
}

/// The registry, quorum, beneficiary table and cached counts of `post` are
/// those of `pre`.
pub open spec fn same_registry(pre: Multisig, post: Multisig) -> bool {
    &&& post.users == pre.users
    &&& post.num_board_members == pre.num_board_members
    &&& post.num_proposers == pre.num_proposers
    &&& post.quorum == pre.quorum
    &&& post.beneficiaries == pre.beneficiaries
    &&& post.fraction_total == pre.fraction_total
}

/// The action log of `post` is that of `pre`, and its signer slots agree
/// with those of `pre` everywhere but possibly at `slot`.
pub open spec fn signers_changed_at_most_at(pre: Multisig, post: Multisig, slot: int) -> bool {
    &&& post.actions == pre.actions
    &&& post.signers@.len() == pre.signers@.len()
    &&& (forall|j: int|
        0 <= j < pre.signers@.len() && j != slot ==> post.signers@[j] == pre.signers@[j])
}

impl Multisig {
    /// Creates the state with an initial board and quorum. Every given
    /// address becomes a board member with the party id matching its
    /// position plus one. The quorum must be at least one, reachable by the
    /// given board, and the addresses must be distinct.
    pub fn new(quorum: usize, board: Vec<u64>) -> (r: Result<Multisig, MultisigError>)
        ensures
            match r {
                Ok(ms) => {
                    &&& ms.wf()
                    &&& 1 <= quorum <= board@.len()
                    &&& board@.no_duplicates()
                    &&& ms.quorum == quorum
                    &&& ms.users@.len() == board@.len()
                    &&& (forall|i: int|
                        0 <= i < board@.len() ==> ms.users@[i] == (board@[i], Role::BoardMember))
                    &&& ms.actions@.len() == 0
                    &&& ms.signers@.len() == 0
                    &&& ms.beneficiaries@.len() == 0
                },
                Err(e) => {
                    &&& e == MultisigError::InvalidArgument
                    &&& (quorum < 1 || quorum > board@.len() || !board@.no_duplicates())
                },
            },
    {
        if quorum < 1 || quorum > board.len() {
            return Err(MultisigError::InvalidArgument);
        }
        let mut users: Vec<(u64, Role)> = Vec::new();
        let mut k: usize = 0;
        while k < board.len()
            invariant
                k <= board@.len(),
                users@.len() == k,
                forall|i: int| 0 <= i < k ==> users@[i] == (board@[i], Role::BoardMember),
                forall|i: int, j: int| 0 <= i < j < k ==> board@[i] != board@[j],
                count_role(users@, Role::BoardMember) == k,
                count_role(users@, Role::Proposer) == 0,
            decreases board@.len() - k,
        {
            let addr = board[k];
            if find_index_u64(&users, addr).is_some() {
                proof {
                    let i = first_index_with_key(users@, addr);
                    assert(board@[i] == board@[k as int]);
                    assert(!board@.no_duplicates());
                }
                return Err(MultisigError::InvalidArgument);
            }
            proof {
                lemma_first_index_with_key(users@, addr);
                assert forall|x: int| 0 <= x < k implies board@[x] != addr by {
                    assert(users@[x].0 == board@[x]);
                }
                lemma_count_role_push(users@, (addr, Role::BoardMember), Role::BoardMember);
                lemma_count_role_push(users@, (addr, Role::BoardMember), Role::Proposer);
            }
            users.push((addr, Role::BoardMember));
            k += 1;
        }
        let n = users.len();
        Ok(
            Multisig {
                users,
                num_board_members: n,
                num_proposers: 0,
                quorum,
                actions: Vec::new(),
                signers: Vec::new(),
                beneficiaries: Vec::new(),
                fraction_total: 0,
            },
        )
    }

    /// Looks `address` up in the registry: its party id (zero when unknown)
    /// and its role.
    pub fn get_caller_id_and_role(&self, address: u64) -> (r: (usize, Role))
        ensures
            r.0 == self.spec_user_id(address),
            r.1 == self.spec_role_of(address),
            r.0 <= self.users.len(),
            self.has_user(address) ==> r.0 == self.user_idx(address) + 1,
            !self.has_user(address) ==> r.0 == 0,
    {
        match find_index_u64(&self.users, address) {
            Some(i) => (i + 1, self.users[i].1),
            None => (0, Role::Inactive),
        }
    }

    /// The role of the party with id `party_id`.
    pub fn role_of(&self, party_id: usize) -> (r: Role)
        requires
            1 <= party_id <= self.users@.len(),
        ensures
            r == self.users@[party_id - 1].1,
    {
        self.users[party_id - 1].1
    }

    /// Returns the party id of `address`, allocating the next id with no
    /// capability when the address is new. Idempotent: a known address keeps
    /// its id and the state is untouched.
    pub fn resolve_or_create(&mut self, address: u64) -> (id: usize)
        requires
            old(self).wf(),
        ensures
            final(self).wf(),
            id == final(self).spec_user_id(address),
            final(self).has_user(address),
            1 <= id <= final(self).users@.len(),
            id == final(self).user_idx(address) + 1,
            old(self).has_user(address) ==> *final(self) == *old(self) && id == old(
                self,
            ).spec_user_id(address),
            !old(self).has_user(address) ==> id == old(self).users@.len() + 1,
            !old(self).has_user(address) ==> {
                &&& final(self).users@ == old(self).users@.push((address, Role::Inactive))
                &&& final(self).num_board_members == old(self).num_board_members
                &&& final(self).num_proposers == old(self).num_proposers
                &&& final(self).quorum == old(self).quorum
                &&& final(self).actions == old(self).actions
                &&& final(self).signers == old(self).signers
                &&& final(self).beneficiaries == old(self).beneficiaries
                &&& final(self).fraction_total == old(self).fraction_total
            },
    {
        match find_index_u64(&self.users, address) {
            Some(i) => i + 1,
            None => {
                proof {
                    lemma_count_role_push(
                        self.users@,
                        (address, Role::Inactive),
                        Role::BoardMember,
                    );
                    lemma_count_role_push(self.users@, (address, Role::Inactive), Role::Proposer);
                    lemma_first_index_with_key(self.users@, address);
                }
                self.users.push((address, Role::Inactive));
                proof {
                    lemma_first_index_with_key(self.users@, address);
                    assert(self.users@[self.users@.len() - 1].0 == address);
                    assert(first_index_with_key(self.users@, address) == self.users@.len() - 1);
                }
                self.users.len()
            },
        }
    }

    /// Gives the party `party_id` the role `new_role` and adjusts the cached
    /// counts. The caller must have ruled out a demotion that would leave
    /// the quorum above the board count; this is the registry primitive the
    /// dispatcher validates against before calling.
    pub fn set_role(&mut self, party_id: usize, new_role: Role)
        requires
            old(self).wf(),
            1 <= party_id <= old(self).users@.len(),
            (old(self).users@[party_id - 1].1 is BoardMember && !(new_role is BoardMember))
                ==> old(self).quorum <= old(self).num_board_members - 1,
        ensures
            final(self).wf(),
            final(self).users@ == old(self).users@.update(
                party_id - 1,
                (old(self).users@[party_id - 1].0, new_role),
            ),
            final(self).quorum == old(self).quorum,
            final(self).actions == old(self).actions,
            final(self).signers == old(self).signers,
            final(self).beneficiaries == old(self).beneficiaries,
            final(self).fraction_total == old(self).fraction_total,
            final(self).num_board_members == count_role(final(self).users@, Role::BoardMember),
            final(self).num_proposers == count_role(final(self).users@, Role::Proposer),
    {
        let i = party_id - 1;
        let n = self.users.len();
        let addr = self.users[i].0;
        let old_role = self.users[i].1;
        proof {
            assert(self.users@.len() == n);
            lemma_count_role_update(self.users@, i as int, (addr, new_role), Role::BoardMember);
            lemma_count_role_update(self.users@, i as int, (addr, new_role), Role::Proposer);
            lemma_count_role_le_len(self.users@, Role::BoardMember);
            lemma_count_role_le_len(self.users@, Role::Proposer);
            if old_role is BoardMember {
                lemma_count_role_at_least_one(self.users@, i as int, Role::BoardMember);
            }
            if old_role is Proposer {
                lemma_count_role_at_least_one(self.users@, i as int, Role::Proposer);
            }
            if !(old_role is BoardMember) {
                lemma_count_role_other(self.users@, i as int, Role::BoardMember);
            }
            if !(old_role is Proposer) {
                lemma_count_role_other(self.users@, i as int, Role::Proposer);
            }
        }
        self.users[i] = (addr, new_role);
        match old_role {
            Role::BoardMember => {
                self.num_board_members = self.num_board_members - 1;
            },
            Role::Proposer => {
                self.num_proposers = self.num_proposers - 1;
            },
            Role::Inactive => {},
        }
        match new_role {
            Role::BoardMember => {
                self.num_board_members = self.num_board_members + 1;
            },
            Role::Proposer => {
                self.num_proposers = self.num_proposers + 1;
            },
            Role::Inactive => {},
        }
    }

    /// Sets a new quorum. Fails with `InvalidArgument` on a zero quorum and
    /// with `InvariantViolation` when the new quorum exceeds the number of
    /// board members; on failure nothing changes.
    pub fn set_quorum(&mut self, new_quorum: usize) -> (r: Result<(), MultisigError>)
        requires
            old(self).wf(),
        ensures
            final(self).wf(),
            match r {
                Ok(()) => {
                    &&& 1 <= new_quorum <= old(self).num_board_members
                    &&& final(self).quorum == new_quorum
                    &&& final(self).users == old(self).users
                    &&& final(self).num_board_members == old(self).num_board_members
                    &&& final(self).num_proposers == old(self).num_proposers
                    &&& final(self).actions == old(self).actions
                    &&& final(self).signers == old(self).signers
                    &&& final(self).beneficiaries == old(self).beneficiaries
                    &&& final(self).fraction_total == old(self).fraction_total
                },
                Err(e) => {
                    &&& *final(self) == *old(self)
                    &&& (e == MultisigError::InvalidArgument && new_quorum < 1) || (e
                        == MultisigError::InvariantViolation && new_quorum >= 1 && new_quorum > old(
                        self,
                    ).num_board_members)
                },
            },
    {
        if new_quorum < 1 {
            return Err(MultisigError::InvalidArgument);
        }
        if new_quorum > self.num_board_members {
            return Err(MultisigError::InvariantViolation);
        }
        self.quorum = new_quorum;
        Ok(())
    }
}

/// Whether `x` occurs in `v`.
fn contains_id(v: &Vec<usize>, x: usize) -> (b: bool)
    ensures
        b == v@.contains(x),
{
    let mut i: usize = 0;
    while i < v.len()
        invariant
            i <= v@.len(),
            forall|j: int| 0 <= j < i ==> v@[j] != x,
        decreases v@.len() - i,
    {
        if v[i] == x {
            return true;
        }
        i += 1;
    }
    false
}

/// Finds the position of the first occurrence of `x` in `v`.
fn find_id(v: &Vec<usize>, x: usize) -> (r: Option<usize>)
    ensures
        match r {
            Some(i) => i < v.len() && v@[i as int] == x && (forall|j: int|
                0 <= j < i ==> v@[j] != x),
            None => !v@.contains(x),
        },
{
    let mut i: usize = 0;
    while i < v.len()
        invariant
            i <= v@.len(),
            forall|j: int| 0 <= j < i ==> v@[j] != x,
        decreases v@.len() - i,
    {
        if v[i] == x {
            return Some(i);
        }
        i += 1;
    }
    None
}

impl Multisig {
    /// Adds the caller's signature to a pending action. Fails with
    /// `Unauthorized` when the caller may not sign, `NotFound` when the
    /// action id names no pending action, and `AlreadySigned` when the
    /// caller's signature is already present; every failure leaves the state
    /// untouched.
    pub fn sign(&mut self, caller: u64, action_id: usize) -> (r: Result<(), MultisigError>)
        requires
            old(self).wf(),
        ensures
            final(self).wf(),
            match r {
                Ok(()) => {
                    &&& old(self).addr_can_sign(caller)
                    &&& old(self).action_exists(action_id)
                    &&& !old(self).spec_has_signed(action_id, old(self).spec_user_id(caller))
                    &&& same_registry(*old(self), *final(self))
                    &&& signers_changed_at_most_at(*old(self), *final(self), action_id - 1)
                    &&& final(self).spec_signer_ids(action_id) == old(self).spec_signer_ids(
                        action_id,
                    ).push(old(self).spec_user_id(caller))
                },
                Err(e) => {
                    &&& *final(self) == *old(self)
                    &&& match e {
                        MultisigError::Unauthorized => !old(self).addr_can_sign(caller),
                        MultisigError::NotFound => old(self).addr_can_sign(caller) && !old(
                            self,
                        ).action_exists(action_id),
                        MultisigError::AlreadySigned => {
                            &&& old(self).addr_can_sign(caller)
                            &&& old(self).action_exists(action_id)
                            &&& old(self).spec_has_signed(
                                action_id,
                                old(self).spec_user_id(caller),
                            )
                        },
                        _ => false,
                    }
                },
            },
    {
        let (caller_id, caller_role) = self.get_caller_id_and_role(caller);
        if !caller_role.can_sign() {
            return Err(MultisigError::Unauthorized);
        }
        if action_id < 1 || action_id > self.actions.len() {
            return Err(MultisigError::NotFound);
        }
        if self.actions[action_id - 1].is_none() {
            return Err(MultisigError::NotFound);
        }
        if contains_id(&self.signers[action_id - 1], caller_id) {
            return Err(MultisigError::AlreadySigned);
        }
        let ghost pre = *self;
        proof {
            lemma_first_index_with_key(pre.users@, caller);
            assert(1 <= caller_id <= pre.users@.len());
        }
        let slot = &mut self.signers[action_id - 1];
        slot.push(caller_id);
        proof {
            let s_old = pre.signers@[action_id - 1]@;
            let s_new = self.signers@[action_id - 1]@;
            assert(s_new == s_old.push(caller_id));
            assert forall|a: int, b: int|
                0 <= a < b < s_new.len() implies s_new[a] != s_new[b] by {
                if b < s_old.len() {
                } else {
                    assert(s_new[b] == caller_id);
                    assert(!s_old.contains(caller_id));
                }
            }
            assert(s_new.no_duplicates());
            assert forall|j: int| 0 <= j < s_new.len() implies 1 <= #[trigger] s_new[j]
                <= self.users@.len() by {
                if j < s_old.len() {
                    assert(s_old[j] == pre.signers@[action_id - 1]@[j]);
                }
            }
        }
        Ok(())
    }

    /// Withdraws the caller's signature from a pending action. Fails with
    /// `Unauthorized` when the caller may not sign and `NotFound` when the
    /// action id names no pending action or the caller has not signed it;
    /// every failure leaves the state untouched.
    pub fn unsign(&mut self, caller: u64, action_id: usize) -> (r: Result<(), MultisigError>)
        requires
            old(self).wf(),
        ensures
            final(self).wf(),
            match r {
                Ok(()) => {
                    &&& old(self).addr_can_sign(caller)
                    &&& old(self).action_exists(action_id)
                    &&& old(self).spec_has_signed(action_id, old(self).spec_user_id(caller))
                    &&& same_registry(*old(self), *final(self))
                    &&& signers_changed_at_most_at(*old(self), *final(self), action_id - 1)
                    &&& final(self).spec_signer_ids(action_id) == old(self).spec_signer_ids(
                        action_id,
                    ).remove_value(old(self).spec_user_id(caller))
                },
                Err(e) => {
                    &&& *final(self) == *old(self)
                    &&& match e {
                        MultisigError::Unauthorized => !old(self).addr_can_sign(caller),
                        MultisigError::NotFound => old(self).addr_can_sign(caller) && !(old(
                            self,
                        ).action_exists(action_id) && old(self).spec_has_signed(
                            action_id,
                            old(self).spec_user_id(caller),
                        )),
                        _ => false,
                    }
                },
            },
    {
        let (caller_id, caller_role) = self.get_caller_id_and_role(caller);
        if !caller_role.can_sign() {
            return Err(MultisigError::Unauthorized);
        }
        if action_id < 1 || action_id > self.actions.len() {
            return Err(MultisigError::NotFound);
        }
        if self.actions[action_id - 1].is_none() {
            return Err(MultisigError::NotFound);
        }
        let pos = find_id(&self.signers[action_id - 1], caller_id);
        match pos {
            None => Err(MultisigError::NotFound),
            Some(i) => {
                let ghost pre = *self;
                let slot = &mut self.signers[action_id - 1];
                slot.remove(i);
                proof {
                    let s_old = pre.signers@[action_id - 1]@;
                    let s_new = self.signers@[action_id - 1]@;
                    assert(s_new == s_old.remove(i as int));
                    assert(s_old[i as int] == caller_id);
                    assert(s_old.contains(caller_id));
                    s_old.index_of_first_ensures(caller_id);
                    let k = s_old.index_of_first(caller_id).unwrap();
                    assert(0 <= k < s_old.len() && s_old[k] == caller_id);
                    assert(k == i as int);
                    assert(s_old.remove_value(caller_id) == s_old.remove(i as int));
                    assert forall|a: int, b: int|
                        0 <= a < b < s_new.len() implies s_new[a] != s_new[b] by {
                        assert(s_new[a] == (if a < i as int {
                            s_old[a]
                        } else {
                            s_old[a + 1]
                        }));
                        assert(s_new[b] == (if b < i as int {
                            s_old[b]
                        } else {
                            s_old[b + 1]
                        }));
                    }
                    assert(s_new.no_duplicates());
                }
                Ok(())
            },
        }
    }

    /// The pending action stored under `action_id`, or `NotFound`.
    pub fn get_action(&self, action_id: usize) -> (r: Result<&Action, MultisigError>)
        ensures
            match r {
                Ok(a) => self.action_exists(action_id) && *a == self.spec_action_at(action_id),
                Err(e) => e == MultisigError::NotFound && !self.action_exists(action_id),
            },
    {
        if action_id < 1 || action_id > self.actions.len() {
            return Err(MultisigError::NotFound);
        }
        match &self.actions[action_id - 1] {
            Some(a) => Ok(a),
            None => Err(MultisigError::NotFound),
        }
    }

    /// The addresses of the parties who have signed the pending action
    /// `action_id`, in signing order, or `NotFound`.
    pub fn signed(&self, action_id: usize) -> (r: Result<Vec<u64>, MultisigError>)
        requires
            self.wf(),
        ensures
            match r {
                Ok(addrs) => {
                    &&& self.action_exists(action_id)
                    &&& addrs@.len() == self.spec_signer_ids(action_id).len()
                    &&& (forall|j: int|
                        0 <= j < addrs@.len() ==> addrs@[j] == self.users@[self.spec_signer_ids(
                            action_id,
                        )[j] - 1].0)
                },
                Err(e) => e == MultisigError::NotFound && !self.action_exists(action_id),
            },
    {
        if action_id < 1 || action_id > self.actions.len() {
            return Err(MultisigError::NotFound);
        }
        if self.actions[action_id - 1].is_none() {
            return Err(MultisigError::NotFound);
        }
        let slot = &self.signers[action_id - 1];
        let mut addrs: Vec<u64> = Vec::new();
        let mut i: usize = 0;
        while i < slot.len()
            invariant
                self.wf(),
                1 <= action_id <= self.signers@.len(),
                slot == self.signers@[action_id - 1],
                i <= slot@.len(),
                addrs@.len() == i,
                forall|j: int| 0 <= j < i ==> addrs@[j] == self.users@[slot@[j] - 1].0,
            decreases slot@.len() - i,
        {
            let id = slot[i];
            addrs.push(self.users[id - 1].0);
            i += 1;
        }
        Ok(addrs)
    }

    /// Whether the pending action `action_id` has reached the quorum, or
    /// `NotFound`.
    pub fn quorum_reached(&self, action_id: usize) -> (r: Result<bool, MultisigError>)
        requires
            self.wf(),
        ensures
            match r {
                Ok(b) => self.action_exists(action_id) && b == self.spec_quorum_reached(action_id),
                Err(e) => e == MultisigError::NotFound && !self.action_exists(action_id),
            },
    {
        if action_id < 1 || action_id > self.actions.len() {
            return Err(MultisigError::NotFound);
        }
        if self.actions[action_id - 1].is_none() {
            return Err(MultisigError::NotFound);
        }
        Ok(self.signers[action_id - 1].len() >= self.quorum)
    }

    /// The id of the most recently proposed action; ids below it and above
    /// zero all name slots of the log, pending or consumed.
    pub fn get_action_last_index(&self) -> (r: usize)
        ensures
            r == self.actions@.len(),
    {
        self.actions.len()
    }

    /// The current signature threshold.
    pub fn get_quorum(&self) -> (r: usize)
        ensures
            r == self.quorum,
    {
        self.quorum
    }

    /// How many parties hold the board-member role.
    pub fn get_num_board_members(&self) -> (r: usize)
        ensures
            r == self.num_board_members,
    {
        self.num_board_members
    }

    /// How many parties hold the proposer role.
    pub fn get_num_proposers(&self) -> (r: usize)
        ensures
            r == self.num_proposers,
    {
        self.num_proposers
    }

    /// A copy of the beneficiary table, in insertion order.
    pub fn get_beneficiaries(&self) -> (r: Vec<(u64, u32)>)
        ensures
            r@ == self.beneficiaries@,
    {
        let mut out: Vec<(u64, u32)> = Vec::new();
        let mut i: usize = 0;
        while i < self.beneficiaries.len()
            invariant
                i <= self.beneficiaries@.len(),
                out@ =~= self.beneficiaries@.take(i as int),
            decreases self.beneficiaries@.len() - i,
        {
            let e = self.beneficiaries[i];
            out.push(e);
            i += 1;
        }
        proof {
            assert(out@ =~= self.beneficiaries@);
        }
        out
    }

    /// The distribution fraction registered for `address`, or `NotFound`.
    pub fn get_user_fraction(&self, address: u64) -> (r: Result<u32, MultisigError>)
        ensures
            match r {
                Ok(f) => {
                    &&& first_index_with_key(self.beneficiaries@, address) >= 0
                    &&& f == self.beneficiaries@[first_index_with_key(
                        self.beneficiaries@,
                        address,
                    )].1
                },
                Err(e) => e == MultisigError::NotFound && first_index_with_key(
                    self.beneficiaries@,
                    address,
                ) == -1,
            },
    {
        match find_index_u64(&self.beneficiaries, address) {
            Some(i) => Ok(self.beneficiaries[i].1),
            None => Err(MultisigError::NotFound),
        }
    }
}

} // verus!
