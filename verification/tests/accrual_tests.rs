use gigadao_staking::accrual::update_stream_state;
use gigadao_staking::state::Stream;

fn base_stream() -> Stream {
    Stream {
        dao_address: 10,
        token_mint_address: 11,
        token_pool_address: 12,
        verified_creator_addresses: vec![77],
        stream_rate: 100,
        is_simulation: false,
        is_active: true,
        num_connections: 2,
        total_streamed: 0,
        total_claimed: 0,
        last_update_timestamp: 1000,
    }
}

#[test]
fn fully_funded_reconcile_advances_books() {
    // rate 100, 2 connections, 10 seconds elapsed, pool easily covers it.
    let mut s = base_stream();
    let r = update_stream_state(&mut s, 1_000_000, 1010, false);
    assert!(r.is_ok());
    assert_eq!(s.total_streamed, 2000);
    assert_eq!(s.last_update_timestamp, 1010);
    assert!(s.is_active);
    assert_eq!(s.num_connections, 2);
    assert_eq!(s.total_claimed, 0);
}

#[test]
fn underfunded_reconcile_freezes_stream() {
    // The pool holds 150 but 10 seconds at combined rate 200 would need
    // 2000: the runway is 150 / 200 = 0 whole seconds, so nothing advances
    // and the stream freezes.
    let mut s = base_stream();
    let r = update_stream_state(&mut s, 150, 1010, false);
    assert!(r.is_ok());
    assert_eq!(s.total_streamed, 0);
    assert_eq!(s.last_update_timestamp, 1000);
    assert!(!s.is_active);
}

#[test]
fn underfunded_reconcile_advances_partial_runway() {
    // Pool 500 with combined rate 200: 2 whole seconds are affordable.
    let mut s = base_stream();
    let r = update_stream_state(&mut s, 500, 1010, false);
    assert!(r.is_ok());
    assert_eq!(s.total_streamed, 400);
    assert_eq!(s.last_update_timestamp, 1002);
    assert!(!s.is_active);
    // Conservation: nothing beyond the pool was emitted.
    assert!(s.total_streamed - s.total_claimed <= 500);
}

#[test]
fn inactive_stream_reconcile_is_frozen() {
    let mut s = base_stream();
    s.is_active = false;
    let r = update_stream_state(&mut s, 1_000_000, 99_999, false);
    assert!(r.is_ok());
    assert_eq!(s.total_streamed, 0);
    assert_eq!(s.last_update_timestamp, 1000);
    assert!(!s.is_active);
}

#[test]
fn reconcile_twice_same_time_is_noop() {
    let mut s = base_stream();
    update_stream_state(&mut s, 1_000_000, 1010, false).unwrap();
    let snapshot = (
        s.total_streamed,
        s.total_claimed,
        s.last_update_timestamp,
        s.is_active,
        s.num_connections,
    );
    update_stream_state(&mut s, 1_000_000, 1010, false).unwrap();
    assert_eq!(
        snapshot,
        (
            s.total_streamed,
            s.total_claimed,
            s.last_update_timestamp,
            s.is_active,
            s.num_connections,
        )
    );
}

#[test]
fn reconcile_twice_same_time_is_noop_when_underfunded() {
    let mut s = base_stream();
    update_stream_state(&mut s, 500, 1010, false).unwrap();
    let snapshot = (s.total_streamed, s.last_update_timestamp, s.is_active);
    update_stream_state(&mut s, 500, 1010, false).unwrap();
    assert_eq!(
        snapshot,
        (s.total_streamed, s.last_update_timestamp, s.is_active)
    );
}

#[test]
fn reconcile_seats_new_connection_after_accrual() {
    // The joining connection gets no share of the emission accounted in
    // the same call: 10 seconds at the old combined rate 200.
    let mut s = base_stream();
    let r = update_stream_state(&mut s, 1_000_000, 1010, true);
    assert!(r.is_ok());
    assert_eq!(s.total_streamed, 2000);
    assert_eq!(s.num_connections, 3);
}

#[test]
fn conservation_with_partially_claimed_books() {
    let mut s = base_stream();
    s.total_streamed = 800;
    s.total_claimed = 300;
    // Owed right now: 500. Pool 600 leaves a surplus of 100, which covers
    // 0 whole seconds at rate 200... 100 / 200 = 0.
    let r = update_stream_state(&mut s, 600, 1010, false);
    assert!(r.is_ok());
    assert_eq!(s.total_streamed, 800);
    assert_eq!(s.last_update_timestamp, 1000);
    assert!(!s.is_active);
    assert!(s.total_streamed - s.total_claimed <= 600);
}

#[test]
fn zero_connections_stream_advances_bookmark_only() {
    let mut s = base_stream();
    s.num_connections = 0;
    let r = update_stream_state(&mut s, 0, 5000, false);
    assert!(r.is_ok());
    assert_eq!(s.total_streamed, 0);
    assert_eq!(s.last_update_timestamp, 5000);
    assert!(s.is_active);
}
