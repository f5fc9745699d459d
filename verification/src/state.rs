use vstd::prelude::*;

verus! {

/// A record identity on the hosting ledger.
///
/// The protocol only ever compares identities for equality; derivation of an
/// identity from its seed components is the surrounding platform's work, so
/// the model keeps identities as plain opaque numbers.
pub type Address = u64;

/// Largest allowed councillor list of a Dao.
pub const MAX_NUM_COUNCILLORS: usize = 11;
/// Largest allowed verified-creator list of a stream.
pub const MAX_NUM_VERIFIED_CREATOR_ADDRESSES: usize = 50;
/// Largest supported token-mint decimal count.
pub const MAX_DECIMALS: u8 = 12;
/// Largest supported emission rate, in token units per connection per second.
pub const MAX_STREAM_RATE: u64 = 7_000_000_000;
/// Largest number of simultaneously open connections per stream.
pub const MAX_CONNECTIONS_PER_STREAM: u64 = 20_000;

/// The kind of the Dao's single in-flight proposal.
#[derive(Clone, Copy, Debug, PartialEq, Eq, Structural)]
pub enum ProposalType {
    /// Replace the councillor list and approval threshold.
    UpdateMultisig,
    /// Deactivate a stream owned by the Dao.
    DeactivateStream,
    /// Move funds from a stream's pool to a designated receiver.
    WithdrawFromStream,
}

impl Default for ProposalType {
    fn default() -> (t: Self)
        ensures
            t == ProposalType::DeactivateStream,
    {
        ProposalType::DeactivateStream
    }
}

/// One multisig-governed organization.
///
/// At most one proposal is in flight at a time; `proposal_signers` is
/// index-aligned with `councillors` and is reset whenever a proposal opens.
#[derive(Debug)]
pub struct Dao {
    /// Ordered list of authorized signer identities, 1..=11 entries.
    pub councillors: Vec<Address>,
    /// How many distinct signers a proposal needs, 1..=councillors.len().
    pub approval_threshold: u64,
    /// Which councillor, by index, has approved the in-flight proposal.
    pub proposal_signers: Vec<bool>,
    /// Whether a proposal is currently in flight.
    pub proposal_is_active: bool,
    /// The kind of the in-flight proposal.
    pub proposal_type: ProposalType,
    /// Staged payload of an `UpdateMultisig` proposal.
    pub proposed_councillors: Vec<Address>,
    pub proposed_approval_threshold: u64,
    /// Staged payload of a `DeactivateStream` proposal.
    pub proposed_deactivation_stream: Address,
    /// Staged payload of a `WithdrawFromStream` proposal.
    pub proposed_withdrawal_amount: u64,
    pub proposed_withdrawal_receiver_owner: Address,
    pub proposed_withdrawal_stream: Address,
    /// Informational counter of streams the Dao has opened.
    pub num_streams: u64,
}

/// Well-formedness of a Dao record.
///
/// A staged `UpdateMultisig` payload is validated when the proposal opens, so
/// every reachable Dao with such a proposal in flight carries a valid payload;
/// executing the proposal relies on that.
pub open spec fn dao_wf(d: Dao) -> bool {
    &&& 1 <= d.councillors.len() <= MAX_NUM_COUNCILLORS
    &&& 1 <= d.approval_threshold <= d.councillors.len()
    &&& d.proposal_signers.len() == d.councillors.len()
    &&& (d.proposal_is_active && d.proposal_type == ProposalType::UpdateMultisig ==> {
        &&& 1 <= d.proposed_councillors.len() <= MAX_NUM_COUNCILLORS
        &&& 1 <= d.proposed_approval_threshold <= d.proposed_councillors.len()
    })
}

/// One funded distribution channel, owned by exactly one Dao.
#[derive(Debug)]
pub struct Stream {
    /// Identity of the owning Dao.
    pub dao_address: Address,
    /// Identity of the token mint the stream pays in.
    pub token_mint_address: Address,
    /// Identity of the funding pool.
    pub token_pool_address: Address,
    /// Creators whose verified tokens may connect, at most 50 entries.
    pub verified_creator_addresses: Vec<Address>,
    /// Emission in token units per connection per second, at most
    /// `MAX_STREAM_RATE`.
    pub stream_rate: u64,
    /// Selects which external metadata authority is trusted.
    pub is_simulation: bool,
    /// Whether the stream is currently emitting.
    pub is_active: bool,
    /// How many connections are currently open, at most
    /// `MAX_CONNECTIONS_PER_STREAM`.
    pub num_connections: u64,
    /// Total units emitted over the stream's whole life.
    pub total_streamed: u64,
    /// Total units already claimed out of `total_streamed`.
    pub total_claimed: u64,
    /// Wall-clock second up to which emission is accounted for.
    pub last_update_timestamp: u64,
}

/// Well-formedness of a Stream record: the configured limits hold and no more
/// has been claimed than was ever emitted.
pub open spec fn stream_wf(s: Stream) -> bool {
    &&& s.verified_creator_addresses.len() <= MAX_NUM_VERIFIED_CREATOR_ADDRESSES
    &&& s.stream_rate <= MAX_STREAM_RATE
    &&& s.num_connections <= MAX_CONNECTIONS_PER_STREAM
    &&& s.total_claimed <= s.total_streamed
}

/// One staked qualifying token, per (owner, token) pair.
#[derive(Debug)]
pub struct Stake {
    pub owner_address: Address,
    pub nft_mint_address: Address,
    /// Identity of the vault holding the token while staked.
    pub nft_vault_address: Address,
    /// Whether the token currently sits in the vault.
    pub is_active: bool,
    /// How many open connections ride on this stake.
    pub num_connections: u64,
    pub cumulative_seconds_staked: u64,
    pub last_stake_timestamp: u64,
}

/// The join record granting one stake's owner a share of one stream's
/// emission, per (stake, stream) pair. Reusable across connect/disconnect
/// cycles: closing it keeps the counters on the record.
#[derive(Debug)]
pub struct Connection {
    pub owner_address: Address,
    pub stake_address: Address,
    pub stream_address: Address,
    pub dao_address: Address,
    /// When the connection was last opened.
    pub connection_timestamp: u64,
    /// Total units this connection has earned over its open periods.
    pub total_earned: u64,
    /// Total units already claimed out of `total_earned`.
    pub total_claimed: u64,
    /// The stream's `last_update_timestamp` as of this connection's last
    /// reconciliation.
    pub last_update_timestamp: u64,
    /// Whether the connection is currently open.
    pub is_active: bool,
}

/// Well-formedness of a Connection record: no more claimed than earned.
pub open spec fn connection_wf(c: Connection) -> bool {
    c.total_claimed <= c.total_earned
}

/// One creator entry of a token's external metadata record, as the protocol
/// reads it: the creator's identity and whether the creator is marked
/// verified. The surrounding platform deserializes the metadata record and
/// hands the list in.
#[derive(Clone, Copy, Debug)]
pub struct Creator {
    pub address: Address,
    pub verified: bool,
}

/// Marker for a program-only derived signing authority. A value of this type
/// stands for "this transfer was authorized by the governance or stake
/// logic"; the boundary checks the externally supplied authority identity
/// against the one it derives itself.
pub struct AuthAccount {}

} // verus!
