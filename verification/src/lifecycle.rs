//! Stake and connection lifecycle: staking a qualifying token, opening and
//! closing connections between a stake and a stream, and claiming earned
//! funds. Every operation that touches a stream reconciles it first, and a
//! connection's own books are brought current immediately after the
//! stream's within the same operation.

use vstd::prelude::*;

use crate::accrual::{
    can_fund_full, lemma_reconcile_conservation, projected_streamed, reconcile_outcome,
    reconcile_pre, reconciled, update_stream_state,
};
use crate::errors::ErrorCode;
use crate::state::{
    connection_wf, stream_wf, Address, Connection, Creator, Stake, Stream,
    MAX_CONNECTIONS_PER_STREAM,
};

verus! {

/// Whether some creator of the token's metadata both matches one of the
/// stream's verified creator addresses and is marked verified. This is the
/// sole gate keeping arbitrary tokens from claiming stream payouts.
pub open spec fn creators_match(stream_creators: Seq<Address>, creators: Seq<Creator>) -> bool {
    exists|i: int, j: int|
        0 <= i < stream_creators.len() && 0 <= j < creators.len() && creators[j].address
            == stream_creators[i] && creators[j].verified
}

/// A connection's books after crediting it for the stream's most recent
/// accrual: `s1` is the just-reconciled stream. If the stream is active, or
/// it froze after the connection's bookmark, the connection earns its
/// per-connection share of the interval it lagged behind and catches up to
/// the stream's bookmark; otherwise nothing is owed.
pub open spec fn credited_connection(s1: Stream, c: Connection) -> Connection {
    let lag = s1.last_update_timestamp - c.last_update_timestamp;
    if s1.is_active || lag > 0 {
        Connection {
            total_earned: (c.total_earned + s1.stream_rate * lag) as u64,
            last_update_timestamp: s1.last_update_timestamp,
            ..c
        }
    } else {
        c
    }
}

/// Checks that a metadata record is owned by the expected program: the
/// protocol's own identity when the stream runs in simulation, the external
/// metadata authority otherwise.
pub fn check_owner(
    actual_owner: Address,
    staking_program_id: Address,
    metadata_program_id: Address,
    is_simulation: bool,
) -> (r: Result<(), ErrorCode>)
    ensures
        r is Ok <==> actual_owner == (if is_simulation {
            staking_program_id
        } else {
            metadata_program_id
        }),
        r is Err ==> r == Err::<(), ErrorCode>(ErrorCode::InvalidAccountOwner),
{
    let expected_owner = if is_simulation {
        staking_program_id
    } else {
        metadata_program_id
    };
    if actual_owner != expected_owner {
        return Err(ErrorCode::InvalidAccountOwner);
    }
    Ok(())
}

/// Looks for a stream-approved, verified creator among a token's creators.
pub fn has_verified_creator_match(stream_creators: &Vec<Address>, creators: &Vec<Creator>) -> (b:
    bool)
    ensures
        b == creators_match(stream_creators@, creators@),
{
    let mut i: usize = 0;
    while i < stream_creators.len()
        invariant
            i <= stream_creators@.len(),
            forall|x: int, j: int|
                0 <= x < i && 0 <= j < creators@.len() ==> !(creators@[j].address
                    == stream_creators@[x] && creators@[j].verified),
        decreases stream_creators@.len() - i,
    {
        let target = stream_creators[i];
        let mut j: usize = 0;
        while j < creators.len()
            invariant
                i < stream_creators@.len(),
                j <= creators@.len(),
                target == stream_creators@[i as int],
                forall|k: int|
                    0 <= k < j ==> !(creators@[k].address == target && creators@[k].verified),
            decreases creators@.len() - j,
        {
            if creators[j].address == target && creators[j].verified {
                return true;
            }
            j = j + 1;
        }
        i = i + 1;
    }
    false
}

/// Creates a stake record for an (owner, token) pair: not yet active, with
/// no connections and no staking history.
pub fn initialize_stake(
    owner_address: Address,
    nft_mint_address: Address,
    nft_vault_address: Address,
) -> (s: Stake)
    ensures
        s.owner_address == owner_address,
        s.nft_mint_address == nft_mint_address,
        s.nft_vault_address == nft_vault_address,
        !s.is_active,
        s.num_connections == 0,
        s.cumulative_seconds_staked == 0,
        s.last_stake_timestamp == 0,
{
    Stake {
        owner_address,
        nft_mint_address,
        nft_vault_address,
        is_active: false,
        num_connections: 0,
        cumulative_seconds_staked: 0,
        last_stake_timestamp: 0,
    }
}

/// Records that the owner's token has been moved into the stake's vault:
/// the stake becomes active as of `now`. The token movement itself is the
/// ledger's work and precedes this state change.
pub fn stake_nft(stake: &mut Stake, signer: Address, now: u64) -> (r: Result<(), ErrorCode>)
    requires
        old(stake).owner_address == signer,
        !old(stake).is_active,
    ensures
        r is Ok,
        *final(stake) == (Stake { is_active: true, last_stake_timestamp: now, ..*old(stake) }),
{
    stake.is_active = true;
    stake.last_stake_timestamp = now;
    Ok(())
}

/// Records that the staked token has been returned to its owner: the stake
/// becomes inactive. Permitted only while no connection rides on the stake;
/// the reverse token movement is the ledger's work.
pub fn unstake_nft(stake: &mut Stake, signer: Address) -> (r: Result<(), ErrorCode>)
    requires
        old(stake).owner_address == signer,
        old(stake).is_active,
        old(stake).num_connections == 0,
    ensures
        r is Ok,
        *final(stake) == (Stake { is_active: false, ..*old(stake) }),
{
    stake.is_active = false;
    Ok(())
}

/// Creates a connection record for a (stake, stream) pair, closed and with
/// empty books; `connect_to_stream` opens it.
pub fn initialize_connection() -> (c: Connection)
    ensures
        !c.is_active,
        c.owner_address == 0,
        c.stake_address == 0,
        c.stream_address == 0,
        c.dao_address == 0,
        c.connection_timestamp == 0,
        c.total_earned == 0,
        c.total_claimed == 0,
        c.last_update_timestamp == 0,
{
    Connection {
        owner_address: 0,
        stake_address: 0,
        stream_address: 0,
        dao_address: 0,
        connection_timestamp: 0,
        total_earned: 0,
        total_claimed: 0,
        last_update_timestamp: 0,
        is_active: false,
    }
}

/// Opens the connection between an active stake and an active stream.
///
/// The token's creators (read from its metadata record by the boundary)
/// must contain a verified creator the stream approves; the stream is then
/// reconciled and must still be active, and the per-stream connection cap
/// must leave room. On success the connection opens with empty books seeded
/// at the stream's just-reconciled bookmark, and the stream's and stake's
/// connection counters both grow by one. The joining connection receives no
/// share of emission accounted for in this same call.
pub fn connect_to_stream(
    stream: &mut Stream,
    stake: &mut Stake,
    connection: &mut Connection,
    creators: &Vec<Creator>,
    signer: Address,
    stake_address: Address,
    stream_address: Address,
    current_pool_balance: u64,
    current_timestamp: u64,
) -> (r: Result<(), ErrorCode>)
    requires
        reconcile_pre(*old(stream), current_pool_balance, current_timestamp),
        old(stake).owner_address == signer,
        old(stake).is_active,
        !old(connection).is_active,
        old(stake).num_connections < u64::MAX,
    ensures
        stream_wf(*final(stream)),
        r is Ok ==> connection_wf(*final(connection)),
        final(stream).last_update_timestamp >= old(stream).last_update_timestamp,
        final(stream).total_streamed >= old(stream).total_streamed,
        r is Err ==> *final(stream) == *old(stream) && *final(stake) == *old(stake)
            && *final(connection) == *old(connection),
        !creators_match(old(stream).verified_creator_addresses@, creators@) <==> r == Err::<
            (),
            ErrorCode,
        >(ErrorCode::VerifiedCreatorAddressMismatch),
        ({
            let s1 = reconciled(*old(stream), current_pool_balance, current_timestamp, false);
            &&& (creators_match(old(stream).verified_creator_addresses@, creators@)
                && !s1.is_active) <==> r == Err::<(), ErrorCode>(ErrorCode::StreamIsInactive)
            &&& (creators_match(old(stream).verified_creator_addresses@, creators@) && s1.is_active
                && s1.num_connections + 1 > MAX_CONNECTIONS_PER_STREAM) <==> r == Err::<
                (),
                ErrorCode,
            >(ErrorCode::MaxConnectionsPerStreamExceeded)
            &&& r is Ok <==> (creators_match(old(stream).verified_creator_addresses@, creators@)
                && s1.is_active && s1.num_connections + 1 <= MAX_CONNECTIONS_PER_STREAM)
            &&& r is Ok ==> {
                &&& *final(stream) == (Stream {
                    num_connections: (s1.num_connections + 1) as u64,
                    ..s1
                })
                &&& *final(stake) == (Stake {
                    num_connections: (old(stake).num_connections + 1) as u64,
                    ..*old(stake)
                })
                &&& *final(connection) == (Connection {
                    owner_address: signer,
                    stake_address: stake_address,
                    stream_address: stream_address,
                    dao_address: old(stream).dao_address,
                    connection_timestamp: current_timestamp,
                    total_earned: 0,
                    total_claimed: 0,
                    last_update_timestamp: s1.last_update_timestamp,
                    is_active: true,
                })
            }
        }),
{
    if !has_verified_creator_match(&stream.verified_creator_addresses, creators) {
        return Err(ErrorCode::VerifiedCreatorAddressMismatch);
    }
    let ghost s0 = *stream;
    // Plan the first reconciliation and commit nothing until every check
    // passed, so a rejection leaves no trace of the accrual.
    let (new_total_streamed, new_last_update, still_active) = if stream.is_active {
        reconcile_outcome(stream, current_pool_balance, current_timestamp)
    } else {
        (stream.total_streamed, stream.last_update_timestamp, false)
    };
    if !still_active {
        return Err(ErrorCode::StreamIsInactive);
    }
    if stream.num_connections + 1 > MAX_CONNECTIONS_PER_STREAM {
        return Err(ErrorCode::MaxConnectionsPerStreamExceeded);
    }
    stream.total_streamed = new_total_streamed;
    stream.last_update_timestamp = new_last_update;
    connection.owner_address = signer;
    connection.stake_address = stake_address;
    connection.stream_address = stream_address;
    connection.dao_address = stream.dao_address;
    connection.connection_timestamp = current_timestamp;
    connection.total_earned = 0;
    connection.total_claimed = 0;
    connection.last_update_timestamp = stream.last_update_timestamp;
    connection.is_active = true;
    stake.num_connections = stake.num_connections + 1;
    let ghost s1 = *stream;
    proof {
        assert(s1 == reconciled(s0, current_pool_balance, current_timestamp, false));
        crate::accrual::lemma_reconcile_idempotent(s0, current_pool_balance, current_timestamp);
        assert(reconciled(s1, current_pool_balance, current_timestamp, false) == s1);
    }
    // The second reconciliation, at the same instant, only seats the new
    // connection: the books are already current.
    let _ = update_stream_state(stream, current_pool_balance, current_timestamp, true);
    proof {
        assert(*stream == (Stream { num_connections: (s1.num_connections + 1) as u64, ..s1 }));
    }
    Ok(())
}

/// What a claim needs of the records it touches, beyond a reconcilable
/// stream: an open, well-formed connection whose bookmark does not sit in
/// the future, whose earned counter has room for the pending credit, and
/// whose unclaimed share (credit included) the just-reconciled stream's own
/// outstanding emission covers — the cross-record consistency the protocol
/// maintains between a stream and each of its connections.
pub open spec fn claim_pre(s: Stream, c: Connection, pool_balance: u64, now: u64) -> bool {
    let s1 = reconciled(s, pool_balance, now, false);
    let lag = s1.last_update_timestamp - c.last_update_timestamp;
    &&& reconcile_pre(s, pool_balance, now)
    &&& connection_wf(c)
    &&& c.is_active
    &&& c.last_update_timestamp <= now
    &&& (s1.is_active || lag > 0 ==> c.total_earned + s1.stream_rate * lag <= u64::MAX)
    &&& credited_connection(s1, c).total_earned - c.total_claimed <= s1.total_streamed
        - s1.total_claimed
}

/// Claims funds earned by a connection: the stream is reconciled first, the
/// connection is credited for the interval it lagged behind (its update must
/// immediately follow the stream's within the same operation), and the
/// requested amount — everything available when `claim_max` is set — is
/// checked against the connection's unclaimed earnings. Returns the amount
/// the ledger must move from the pool to the caller's receiver account
/// under the Dao's derived authority; both the connection's and the
/// stream's claimed totals grow by that amount.
///
/// The `claim_pre` precondition records what the protocol maintains across
/// records: the earned counter has room for the pending credit, and the
/// connection's unclaimed share, credit included, never exceeds the
/// stream's own outstanding unclaimed emission once the books are current.
pub fn claim_from_stream(
    stream: &mut Stream,
    connection: &mut Connection,
    current_pool_balance: u64,
    current_timestamp: u64,
    claim_amount: u64,
    claim_max: bool,
) -> (r: Result<u64, ErrorCode>)
    requires
        claim_pre(*old(stream), *old(connection), current_pool_balance, current_timestamp),
    ensures
        stream_wf(*final(stream)),
        connection_wf(*final(connection)),
        final(stream).last_update_timestamp >= old(stream).last_update_timestamp,
        final(stream).total_streamed >= old(stream).total_streamed,
        final(connection).last_update_timestamp >= old(connection).last_update_timestamp,
        r is Err ==> *final(stream) == *old(stream) && *final(connection) == *old(connection),
        ({
            let s1 = reconciled(*old(stream), current_pool_balance, current_timestamp, false);
            let c1 = credited_connection(s1, *old(connection));
            let available = c1.total_earned - c1.total_claimed;
            &&& (!claim_max && claim_amount > available) <==> r == Err::<u64, ErrorCode>(
                ErrorCode::ClaimAmountExceedsAvailable,
            )
            &&& r is Ok <==> (claim_max || claim_amount <= available)
            &&& r is Ok ==> {
                let amount = if claim_max {
                    available
                } else {
                    claim_amount as int
                };
                &&& r->Ok_0 == amount
                &&& *final(connection) == (Connection {
                    total_claimed: (c1.total_claimed + amount) as u64,
                    ..c1
                })
                &&& *final(stream) == (Stream {
                    total_claimed: (s1.total_claimed + amount) as u64,
                    ..s1
                })
            }
        }),
{
    // Plan the accrual; nothing is committed until the claim is accepted.
    let (new_total_streamed, new_last_update, still_active) = if stream.is_active {
        reconcile_outcome(stream, current_pool_balance, current_timestamp)
    } else {
        (stream.total_streamed, stream.last_update_timestamp, false)
    };
    // The connection may already be current, or — if the stream froze — may
    // lag behind by the time the stream was still active.
    let lags_behind = new_last_update > connection.last_update_timestamp;
    let mut new_total_earned = connection.total_earned;
    let mut new_connection_last_update = connection.last_update_timestamp;
    if still_active || lags_behind {
        proof {
            assert(still_active ==> new_last_update == current_timestamp);
            assert(stream.stream_rate * (new_last_update - connection.last_update_timestamp) >= 0)
                by (nonlinear_arith)
                requires
                    stream.stream_rate >= 0,
                    new_last_update >= connection.last_update_timestamp,
            ;
        }
        let connection_update_lag_seconds: u64 = new_last_update
            - connection.last_update_timestamp;
        let recently_earned: u64 = stream.stream_rate * connection_update_lag_seconds;
        new_total_earned = connection.total_earned + recently_earned;
        new_connection_last_update = new_last_update;
    }
    let available_to_claim: u64 = new_total_earned - connection.total_claimed;
    let amount_to_transfer: u64;
    if !claim_max {
        if claim_amount > available_to_claim {
            return Err(ErrorCode::ClaimAmountExceedsAvailable);
        }
        amount_to_transfer = claim_amount;
    } else {
        amount_to_transfer = available_to_claim;
    }
    proof {
        assert(stream.total_claimed + amount_to_transfer <= new_total_streamed);
    }
    stream.total_streamed = new_total_streamed;
    stream.last_update_timestamp = new_last_update;
    stream.is_active = still_active;
    connection.total_earned = new_total_earned;
    connection.last_update_timestamp = new_connection_last_update;
    connection.total_claimed = connection.total_claimed + amount_to_transfer;
    stream.total_claimed = stream.total_claimed + amount_to_transfer;
    Ok(amount_to_transfer)
}

/// Closes a connection: the stream is reconciled, both the stream's and the
/// stake's connection counters shrink by one, and the connection record is
/// marked closed. Whatever the connection has earned and claimed stays on
/// the record — unclaimed earnings are not auto-claimed on disconnect, so
/// they are forfeited if the connection is later reopened (a known gap the
/// protocol deliberately preserves).
pub fn disconnect_from_stream(
    stream: &mut Stream,
    stake: &mut Stake,
    connection: &mut Connection,
    current_pool_balance: u64,
    current_timestamp: u64,
) -> (r: Result<(), ErrorCode>)
    requires
        reconcile_pre(*old(stream), current_pool_balance, current_timestamp),
        connection_wf(*old(connection)),
        old(connection).is_active,
        old(stream).num_connections >= 1,
        old(stake).num_connections >= 1,
    ensures
        r is Ok,
        stream_wf(*final(stream)),
        connection_wf(*final(connection)),
        final(stream).last_update_timestamp >= old(stream).last_update_timestamp,
        final(stream).total_streamed >= old(stream).total_streamed,
        ({
            let s1 = reconciled(*old(stream), current_pool_balance, current_timestamp, false);
            *final(stream) == (Stream {
                num_connections: (s1.num_connections - 1) as u64,
                ..s1
            })
        }),
        *final(stake) == (Stake {
            num_connections: (old(stake).num_connections - 1) as u64,
            ..*old(stake)
        }),
        *final(connection) == (Connection { is_active: false, ..*old(connection) }),
{
    let _ = update_stream_state(stream, current_pool_balance, current_timestamp, false);
    stream.num_connections = stream.num_connections - 1;
    stake.num_connections = stake.num_connections - 1;
    connection.is_active = false;
    Ok(())
}

/// Connecting and then immediately disconnecting, with the clock unchanged,
/// is a round trip: the stream's and the stake's connection counters end at
/// their pre-connect values, and the connection ends closed with whatever
/// it accumulated while open preserved on the record.
///
/// `s`, `st` and `c1` are the stream, the stake and the freshly opened
/// connection as `connect_to_stream`'s contract leaves them; the `ensures`
/// composes that contract with `disconnect_from_stream`'s.
pub proof fn lemma_connect_disconnect_round_trip(
    s: Stream,
    st: Stake,
    c1: Connection,
    pool_balance: u64,
    now: u64,
)
    requires
        reconcile_pre(s, pool_balance, now),
        reconciled(s, pool_balance, now, false).is_active,
        st.num_connections < u64::MAX,
    ensures
        ({
            // The stream after connect, then after the disconnect that
            // reconciles it once more at the same instant.
            let connected = Stream {
                num_connections: (reconciled(s, pool_balance, now, false).num_connections
                    + 1) as u64,
                ..reconciled(s, pool_balance, now, false)
            };
            let s2 = reconciled(connected, pool_balance, now, false);
            let after_disconnect = Stream {
                num_connections: (s2.num_connections - 1) as u64,
                ..s2
            };
            &&& after_disconnect.num_connections == s.num_connections
            &&& (Stake {
                num_connections: ((st.num_connections + 1) as u64 - 1) as u64,
                ..st
            }) == st
            &&& {
                let c2 = Connection { is_active: false, ..c1 };
                &&& c2.total_earned == c1.total_earned
                &&& c2.total_claimed == c1.total_claimed
                &&& !c2.is_active
            }
        }),
{
    let s1 = reconciled(s, pool_balance, now, false);
    let connected = Stream { num_connections: (s1.num_connections + 1) as u64, ..s1 };
    lemma_reconcile_conservation(s, pool_balance, now, false);
    assert(s.is_active && can_fund_full(s, pool_balance, now));
    assert(s1.last_update_timestamp == now);
    assert((now - connected.last_update_timestamp) * crate::accrual::total_rate(connected) == 0)
        by (nonlinear_arith)
        requires
            connected.last_update_timestamp == now,
    ;
    assert(projected_streamed(connected, now) == connected.total_streamed);
    assert(can_fund_full(connected, pool_balance, now));
    assert(reconciled(connected, pool_balance, now, false) == connected);
}

} // verus!
