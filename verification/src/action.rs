//! The data carried through the action lifecycle: party roles, proposable
//! actions with their payloads, the error taxonomy, and the descriptions of
//! external effects that performing an action produces.

use vstd::prelude::*;

verus! {

/// The share unit for beneficiary fractions: a fraction is expressed in
/// basis points of this whole, and the fractions of all beneficiaries
/// together never exceed it.
pub const PERCENTAGE_TOTAL: u32 = 10_000;

/// A party's standing in the identity registry.
///
/// Addresses are opaque numeric identifiers assigned by the surrounding
/// environment; the registry maps each known address to a stable party id
/// and one of these roles.
#[derive(Clone, Copy, PartialEq, Eq, Structural, Debug)]
pub enum Role {
    /// A known party with no capability (for example a removed user).
    Inactive,
    /// May create proposals but does not count toward the quorum.
    Proposer,
    /// May create proposals and sign them.
    BoardMember,
}

impl Role {
    /// Whether a party with this role may create proposals.
    pub open spec fn spec_can_propose(self) -> bool {
        self == Role::Proposer || self == Role::BoardMember
    }

    /// Whether a party with this role may create proposals.
    #[verifier::when_used_as_spec(spec_can_propose)]
    pub fn can_propose(self) -> (b: bool)
        ensures
            b == self.spec_can_propose(),
    {
        match self {
            Role::Proposer => true,
            Role::BoardMember => true,
            Role::Inactive => false,
        }
    }

    /// Whether a party with this role may sign proposals; only board
    /// members count toward the quorum.
    pub open spec fn spec_can_sign(self) -> bool {
        self == Role::BoardMember
    }

    /// Whether a party with this role may sign proposals.
    #[verifier::when_used_as_spec(spec_can_sign)]
    pub fn can_sign(self) -> (b: bool)
        ensures
            b == self.spec_can_sign(),
    {
        match self {
            Role::BoardMember => true,
            Role::Proposer => false,
            Role::Inactive => false,
        }
    }
}

/// The payload of a proposed outgoing call: destination, native amount,
/// endpoint name (empty for a plain transfer) and serialized arguments.
#[derive(Debug, PartialEq, Eq)]
pub struct CallActionData {
    pub to: u64,
    pub egld_amount: u64,
    pub endpoint_name: Vec<u8>,
    pub arguments: Vec<Vec<u8>>,
}

/// One proposable operation, immutable once stored. Each variant carries
/// exactly the payload needed to perform it.
#[derive(Debug, PartialEq, Eq)]
pub enum Action {
    /// Give an address the board-member role, creating the party if needed.
    /// Also promotes a proposer to board member.
    AddBoardMember(u64),
    /// Give an address the proposer role, creating the party if needed.
    /// Also demotes a board member to proposer.
    AddProposer(u64),
    /// Strip an address of whatever role it holds.
    RemoveUser(u64),
    /// Set a new signature threshold.
    ChangeQuorum(usize),
    /// Transfer funds, optionally calling an endpoint, synchronously.
    SendTransferExecute(CallActionData),
    /// Transfer funds and call an endpoint asynchronously.
    SendAsyncCall(CallActionData),
    /// Deploy a contract from the code of a source address.
    SCDeployFromSource { amount: u64, source: u64, code_metadata: u64, arguments: Vec<Vec<u8>> },
    /// Upgrade a deployed contract from the code of a source address.
    SCUpgradeFromSource {
        sc_address: u64,
        amount: u64,
        source: u64,
        code_metadata: u64,
        arguments: Vec<Vec<u8>>,
    },
    /// Delegate an amount to a staking provider.
    Delegate { provider_address: u64, amount: u64 },
    /// Undelegate an amount from a staking provider.
    UnDelegate { provider_address: u64, amount: u64 },
    /// Redelegate accumulated rewards at a staking provider.
    ReDelegateRewards(u64),
    /// Claim accumulated rewards from a staking provider.
    ClaimRewards(u64),
    /// Withdraw previously undelegated funds from a staking provider.
    Withdraw(u64),
    /// Send the current balance to the beneficiaries, pro rata.
    DistributeFunds,
    /// Register a beneficiary with a fraction of future distributions.
    AddBeneficiary { beneficiary_address: u64, amount_fraction: u32 },
    /// Remove a beneficiary from the distribution table.
    RemoveBeneficiary(u64),
}

/// Why an operation was refused. Every operation is atomic: on any of these,
/// the state is exactly as it was before the call.
#[derive(Clone, Copy, PartialEq, Eq, Structural, Debug)]
pub enum MultisigError {
    /// The caller's role lacks the capability the operation needs.
    Unauthorized,
    /// Unknown action id, unknown user or beneficiary, or an unsign by a
    /// party that has not signed.
    NotFound,
    /// The caller has already signed this action.
    AlreadySigned,
    /// The action's signature count is below the quorum.
    QuorumNotReached,
    /// The mutation would leave the quorum above the number of board
    /// members, or the beneficiary fractions above the whole unit.
    InvariantViolation,
    /// A malformed payload, such as a zero quorum.
    InvalidArgument,
}

/// An external effect that performing an action asks the surrounding
/// environment to carry out. The engine itself moves no funds and calls no
/// other program; it only decides and describes.
#[derive(Debug, PartialEq, Eq)]
pub enum ExternalEffect {
    /// Transfer funds and optionally call an endpoint, synchronously.
    TransferExecute { to: u64, egld_amount: u64, endpoint_name: Vec<u8>, arguments: Vec<Vec<u8>> },
    /// Transfer funds and call an endpoint asynchronously; its completion is
    /// decoupled from this operation and the action is consumed regardless.
    AsyncCall { to: u64, egld_amount: u64, endpoint_name: Vec<u8>, arguments: Vec<Vec<u8>> },
    /// Deploy a contract from the code of a source address.
    DeployFromSource { amount: u64, source: u64, code_metadata: u64, arguments: Vec<Vec<u8>> },
    /// Upgrade a contract from the code of a source address.
    UpgradeFromSource {
        sc_address: u64,
        amount: u64,
        source: u64,
        code_metadata: u64,
        arguments: Vec<Vec<u8>>,
    },
    /// Delegate an amount to a staking provider.
    Delegate { provider_address: u64, amount: u64 },
    /// Undelegate an amount from a staking provider.
    UnDelegate { provider_address: u64, amount: u64 },
    /// Redelegate accumulated rewards at a staking provider.
    ReDelegateRewards { provider_address: u64 },
    /// Claim accumulated rewards from a staking provider.
    ClaimRewards { provider_address: u64 },
    /// Withdraw previously undelegated funds from a staking provider.
    Withdraw { provider_address: u64 },
    /// A plain transfer of a beneficiary's share of a distribution.
    Transfer { to: u64, amount: u64 },
}

} // verus!
