use gigadao_staking::errors::ErrorCode;
use gigadao_staking::lifecycle::{
    check_owner, claim_from_stream, connect_to_stream, disconnect_from_stream,
    has_verified_creator_match, initialize_connection, initialize_stake, stake_nft, unstake_nft,
};
use gigadao_staking::state::{Connection, Creator, Stake, Stream};

fn active_stream() -> Stream {
    Stream {
        dao_address: 10,
        token_mint_address: 11,
        token_pool_address: 12,
        verified_creator_addresses: vec![77, 78],
        stream_rate: 100,
        is_simulation: false,
        is_active: true,
        num_connections: 2,
        total_streamed: 0,
        total_claimed: 0,
        last_update_timestamp: 1000,
    }
}

fn staked(owner: u64) -> Stake {
    let mut st = initialize_stake(owner, 21, 22);
    stake_nft(&mut st, owner, 900).unwrap();
    st
}

fn good_creators() -> Vec<Creator> {
    vec![
        Creator { address: 5, verified: true },
        Creator { address: 77, verified: true },
    ]
}

fn open_connection(stream: &mut Stream, stake: &mut Stake, now: u64) -> Connection {
    let mut c = initialize_connection();
    connect_to_stream(
        stream,
        stake,
        &mut c,
        &good_creators(),
        stake.owner_address,
        31,
        32,
        1_000_000,
        now,
    )
    .unwrap();
    c
}

#[test]
fn stake_lifecycle_round_trip() {
    let mut st = initialize_stake(1, 21, 22);
    assert!(!st.is_active);
    assert_eq!(st.num_connections, 0);
    stake_nft(&mut st, 1, 900).unwrap();
    assert!(st.is_active);
    assert_eq!(st.last_stake_timestamp, 900);
    unstake_nft(&mut st, 1).unwrap();
    assert!(!st.is_active);
}

#[test]
fn initialize_connection_starts_closed() {
    let c = initialize_connection();
    assert!(!c.is_active);
    assert_eq!(c.total_earned, 0);
    assert_eq!(c.total_claimed, 0);
}

#[test]
fn creator_match_requires_verified_flag() {
    let stream_creators = vec![77u64, 78];
    let unverified = vec![Creator { address: 77, verified: false }];
    assert!(!has_verified_creator_match(&stream_creators, &unverified));
    let other = vec![Creator { address: 9, verified: true }];
    assert!(!has_verified_creator_match(&stream_creators, &other));
    let verified = vec![
        Creator { address: 9, verified: true },
        Creator { address: 78, verified: true },
    ];
    assert!(has_verified_creator_match(&stream_creators, &verified));
    assert!(!has_verified_creator_match(&stream_creators, &vec![]));
}

#[test]
fn check_owner_picks_authority_by_simulation_flag() {
    // Program id 500, external metadata authority 600.
    assert!(check_owner(500, 500, 600, true).is_ok());
    assert!(check_owner(600, 500, 600, false).is_ok());
    assert_eq!(
        check_owner(600, 500, 600, true).unwrap_err(),
        ErrorCode::InvalidAccountOwner
    );
    assert_eq!(
        check_owner(500, 500, 600, false).unwrap_err(),
        ErrorCode::InvalidAccountOwner
    );
}

#[test]
fn connect_rejects_unverified_token() {
    let mut s = active_stream();
    let mut st = staked(1);
    let mut c = initialize_connection();
    let creators = vec![Creator { address: 77, verified: false }];
    assert_eq!(
        connect_to_stream(&mut s, &mut st, &mut c, &creators, 1, 31, 32, 1_000_000, 1010)
            .unwrap_err(),
        ErrorCode::VerifiedCreatorAddressMismatch
    );
    assert!(!c.is_active);
    assert_eq!(s.num_connections, 2);
    assert_eq!(st.num_connections, 0);
}

#[test]
fn connect_rejects_stream_that_froze() {
    let mut s = active_stream();
    s.total_streamed = 800;
    s.total_claimed = 300;
    let mut st = staked(1);
    let mut c = initialize_connection();
    // Pool 600 cannot fund the elapsed emission: the reconciliation would
    // freeze the stream, so the whole connect aborts with no state change.
    assert_eq!(
        connect_to_stream(&mut s, &mut st, &mut c, &good_creators(), 1, 31, 32, 600, 1010)
            .unwrap_err(),
        ErrorCode::StreamIsInactive
    );
    assert!(s.is_active);
    assert_eq!(s.total_streamed, 800);
    assert_eq!(s.last_update_timestamp, 1000);
    assert!(!c.is_active);
}

#[test]
fn connect_rejects_full_stream() {
    let mut s = active_stream();
    s.stream_rate = 0;
    s.num_connections = 20_000;
    let mut st = staked(1);
    let mut c = initialize_connection();
    assert_eq!(
        connect_to_stream(&mut s, &mut st, &mut c, &good_creators(), 1, 31, 32, 1_000_000, 1010)
            .unwrap_err(),
        ErrorCode::MaxConnectionsPerStreamExceeded
    );
    assert_eq!(s.num_connections, 20_000);
}

#[test]
fn connect_opens_connection_and_counts_it() {
    let mut s = active_stream();
    let mut st = staked(1);
    let c = open_connection(&mut s, &mut st, 1010);
    // The stream accrued for its two existing connections first, then
    // seated the new one.
    assert_eq!(s.total_streamed, 2000);
    assert_eq!(s.last_update_timestamp, 1010);
    assert_eq!(s.num_connections, 3);
    assert_eq!(st.num_connections, 1);
    assert!(c.is_active);
    assert_eq!(c.owner_address, 1);
    assert_eq!(c.stake_address, 31);
    assert_eq!(c.stream_address, 32);
    assert_eq!(c.dao_address, 10);
    assert_eq!(c.connection_timestamp, 1010);
    assert_eq!(c.total_earned, 0);
    assert_eq!(c.total_claimed, 0);
    assert_eq!(c.last_update_timestamp, 1010);
}

#[test]
fn claim_rejects_amount_beyond_available() {
    let mut s = active_stream();
    let mut st = staked(1);
    let mut c = open_connection(&mut s, &mut st, 1010);
    // 5 more seconds at per-connection rate 100: 500 available.
    let r = claim_from_stream(&mut s, &mut c, 1_000_000, 1015, 501, false);
    assert_eq!(r.unwrap_err(), ErrorCode::ClaimAmountExceedsAvailable);
    // The rejection left every record untouched.
    assert_eq!(s.total_streamed, 2000);
    assert_eq!(s.total_claimed, 0);
    assert_eq!(s.last_update_timestamp, 1010);
    assert_eq!(c.total_earned, 0);
    assert_eq!(c.total_claimed, 0);
    assert_eq!(c.last_update_timestamp, 1010);
}

#[test]
fn claim_exact_amount_updates_both_books() {
    let mut s = active_stream();
    let mut st = staked(1);
    let mut c = open_connection(&mut s, &mut st, 1010);
    let moved = claim_from_stream(&mut s, &mut c, 1_000_000, 1015, 200, false).unwrap();
    assert_eq!(moved, 200);
    assert_eq!(c.total_earned, 500);
    assert_eq!(c.total_claimed, 200);
    assert_eq!(c.last_update_timestamp, 1015);
    // The stream accrued 5 seconds for 3 connections on top of the 2000.
    assert_eq!(s.total_streamed, 3500);
    assert_eq!(s.total_claimed, 200);
    assert_eq!(s.last_update_timestamp, 1015);
}

#[test]
fn claim_max_takes_everything_available() {
    let mut s = active_stream();
    let mut st = staked(1);
    let mut c = open_connection(&mut s, &mut st, 1010);
    claim_from_stream(&mut s, &mut c, 1_000_000, 1015, 0, false).unwrap();
    let moved = claim_from_stream(&mut s, &mut c, 1_000_000, 1020, 0, true).unwrap();
    assert_eq!(moved, 1000);
    assert_eq!(c.total_earned, 1000);
    assert_eq!(c.total_claimed, 1000);
}

#[test]
fn claim_after_long_interval_credits_full_share() {
    let mut s = active_stream();
    let mut st = staked(1);
    let mut c = open_connection(&mut s, &mut st, 1010);
    // A minute passes: the stream emits 60 * 300 on top of the 2000 and
    // the connection's share is 60 * 100.
    let moved = claim_from_stream(&mut s, &mut c, 1_000_000, 1070, 0, true).unwrap();
    assert_eq!(moved, 6000);
    assert_eq!(s.total_streamed, 20_000);
    assert_eq!(s.total_claimed, 6000);
    assert_eq!(c.total_earned, 6000);
    assert_eq!(c.total_claimed, 6000);
}

#[test]
fn claim_credits_lag_after_stream_froze() {
    let mut s = active_stream();
    let mut st = staked(1);
    let mut c = open_connection(&mut s, &mut st, 1010);
    // With 3 connections at combined rate 300, a pool of 2900 leaves a
    // surplus of 900 past the 2000 owed: 3 whole seconds of runway, then
    // the stream freezes at 1013.
    let moved = claim_from_stream(&mut s, &mut c, 2900, 1020, 0, true).unwrap();
    assert!(!s.is_active);
    assert_eq!(s.last_update_timestamp, 1013);
    assert_eq!(s.total_streamed, 2900);
    // The connection is credited only for the 3 seconds the stream was
    // still funded.
    assert_eq!(c.total_earned, 300);
    assert_eq!(moved, 300);
    assert_eq!(c.last_update_timestamp, 1013);
    // A later claim against the frozen stream finds nothing new.
    let moved_again = claim_from_stream(&mut s, &mut c, 2600, 1030, 0, true).unwrap();
    assert_eq!(moved_again, 0);
    assert_eq!(c.total_earned, 300);
}

#[test]
fn disconnect_closes_connection_and_keeps_books() {
    let mut s = active_stream();
    let mut st = staked(1);
    let mut c = open_connection(&mut s, &mut st, 1010);
    claim_from_stream(&mut s, &mut c, 1_000_000, 1015, 100, false).unwrap();
    disconnect_from_stream(&mut s, &mut st, &mut c, 1_000_000, 1020).unwrap();
    assert!(!c.is_active);
    // Unclaimed earnings stay on the record; they are not auto-claimed.
    assert_eq!(c.total_earned, 500);
    assert_eq!(c.total_claimed, 100);
    assert_eq!(s.num_connections, 2);
    assert_eq!(st.num_connections, 0);
}

#[test]
fn connect_then_disconnect_restores_counters() {
    let mut s = active_stream();
    let mut st = staked(1);
    let mut c = open_connection(&mut s, &mut st, 1010);
    disconnect_from_stream(&mut s, &mut st, &mut c, 1_000_000, 1010).unwrap();
    assert_eq!(s.num_connections, 2);
    assert_eq!(st.num_connections, 0);
    assert!(!c.is_active);
    // What the connection accumulated while open is preserved, not reset.
    assert_eq!(c.total_earned, 0);
    assert_eq!(c.total_claimed, 0);
    assert_eq!(c.last_update_timestamp, 1010);
}
