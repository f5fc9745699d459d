//! The stream accrual engine.
//!
//! Emission is accounted for lazily: there is no background scheduler, so
//! every operation that touches a stream first brings the stream's books
//! current up to the caller-supplied wall-clock time, capped by the funds
//! actually sitting in the pool.

use vstd::prelude::*;

use crate::errors::ErrorCode;
use crate::state::{stream_wf, Stream, MAX_CONNECTIONS_PER_STREAM, MAX_STREAM_RATE};

verus! {

use vstd::arithmetic::div_mod::{
    lemma_div_pos_is_pos, lemma_fundamental_div_mod, lemma_mod_bound, lemma_multiply_divide_lt,
};

/// Combined emission rate of a stream, in token units per second, over all
/// of its open connections.
pub open spec fn total_rate(s: Stream) -> int {
    s.stream_rate * s.num_connections
}

/// What the stream would have emitted in total by `now` were funding
/// unlimited.
pub open spec fn projected_streamed(s: Stream, now: u64) -> int {
    s.total_streamed + (now - s.last_update_timestamp) * total_rate(s)
}

/// Whether the pool can honor the full emission elapsed up to `now`.
pub open spec fn can_fund_full(s: Stream, pool_balance: u64, now: u64) -> bool {
    projected_streamed(s, now) - s.total_claimed <= pool_balance
}

/// Funds available right now beyond what is already owed to claimants.
pub open spec fn pool_surplus(s: Stream, pool_balance: u64) -> int {
    pool_balance - (s.total_streamed - s.total_claimed)
}

/// How many whole seconds of full-rate emission the current surplus can
/// still sustain.
pub open spec fn runway_seconds(s: Stream, pool_balance: u64) -> int {
    pool_surplus(s, pool_balance) / total_rate(s)
}

/// What every caller of the accrual engine must establish: a well-formed
/// stream, a current time not before the stream's bookmark, and a pool that
/// covers what is already owed without pushing the counters past their
/// domain.
pub open spec fn reconcile_pre(s: Stream, pool_balance: u64, now: u64) -> bool {
    &&& stream_wf(s)
    &&& s.last_update_timestamp <= now
    &&& s.total_streamed - s.total_claimed <= pool_balance
    &&& s.total_claimed + pool_balance <= u64::MAX
}

/// The stream state after one reconciliation at `now` against
/// `pool_balance`, with one connection joining afterwards when
/// `add_connection` is set.
///
/// An inactive stream is left entirely untouched (emission is frozen).
/// Otherwise, if the pool can fund the whole elapsed emission, the books
/// advance to `now`; if not, they advance only as many whole seconds as the
/// surplus affords, and the stream freezes.
pub open spec fn reconciled(s: Stream, pool_balance: u64, now: u64, add_connection: bool) -> Stream {
    if !s.is_active {
        s
    } else {
        let t = if can_fund_full(s, pool_balance, now) {
            Stream {
                total_streamed: projected_streamed(s, now) as u64,
                last_update_timestamp: now,
                ..s
            }
        } else {
            Stream {
                total_streamed: (s.total_streamed + total_rate(s) * runway_seconds(
                    s,
                    pool_balance,
                )) as u64,
                last_update_timestamp: (s.last_update_timestamp + runway_seconds(
                    s,
                    pool_balance,
                )) as u64,
                is_active: false,
                ..s
            }
        };
        if add_connection {
            Stream { num_connections: (t.num_connections + 1) as u64, ..t }
        } else {
            t
        }
    }
}

/// Computes the accrual outcome for an active stream without committing it:
/// the new emitted total, the new bookmark, and whether the stream stays
/// active. Operations that must reject after accrual but before any state
/// change use this to stay all-or-nothing.
pub(crate) fn reconcile_outcome(
    stream: &Stream,
    current_pool_balance: u64,
    current_timestamp: u64,
) -> (r: (u64, u64, bool))
    requires
        reconcile_pre(*stream, current_pool_balance, current_timestamp),
        stream.is_active,
    ensures
        r.0 == reconciled(*stream, current_pool_balance, current_timestamp, false).total_streamed,
        r.1 == reconciled(
            *stream,
            current_pool_balance,
            current_timestamp,
            false,
        ).last_update_timestamp,
        r.2 == reconciled(*stream, current_pool_balance, current_timestamp, false).is_active,
        stream.total_streamed <= r.0,
        r.0 - stream.total_claimed <= current_pool_balance,
        stream.last_update_timestamp <= r.1 <= current_timestamp,
{
    let ghost elapsed: int = current_timestamp - stream.last_update_timestamp;
    let ghost rate: int = stream.stream_rate as int;
    let ghost conns: int = stream.num_connections as int;
    proof {
        assert(elapsed * rate <= u64::MAX * (MAX_STREAM_RATE as int)) by (nonlinear_arith)
            requires
                0 <= elapsed <= u64::MAX,
                0 <= rate <= MAX_STREAM_RATE,
        ;
        assert((elapsed * rate) * conns <= (u64::MAX * (MAX_STREAM_RATE as int)) * (
        MAX_CONNECTIONS_PER_STREAM as int)) by (nonlinear_arith)
            requires
                0 <= elapsed * rate <= u64::MAX * (MAX_STREAM_RATE as int),
                0 <= conns <= MAX_CONNECTIONS_PER_STREAM,
        ;
        assert((elapsed * rate) * conns == elapsed * (rate * conns)) by (nonlinear_arith);
        assert(0 <= (elapsed * rate) * conns) by (nonlinear_arith)
            requires
                0 <= elapsed,
                0 <= rate,
                0 <= conns,
        ;
    }
    let seconds_since_last_update: u64 = current_timestamp - stream.last_update_timestamp;
    let recent_amount_streamed: u128 = (seconds_since_last_update as u128 * stream.stream_rate
        as u128) * stream.num_connections as u128;
    let total_streamed: u64 = stream.total_streamed;
    let total_claimed: u64 = stream.total_claimed;

    let new_total_streamed: u128 = total_streamed as u128 + recent_amount_streamed;
    let new_total_unclaimed: u128 = new_total_streamed - total_claimed as u128;

    if new_total_unclaimed > current_pool_balance as u128 {
        // Mid-interval exhaustion: advance only as far as the surplus can
        // actually fund, then freeze.
        let total_unclaimed: u64 = total_streamed - total_claimed;
        let current_pool_surplus: u64 = current_pool_balance - total_unclaimed;
        proof {
            assert(rate * conns <= (MAX_STREAM_RATE as int) * (MAX_CONNECTIONS_PER_STREAM as int))
                by (nonlinear_arith)
                requires
                    0 <= rate <= MAX_STREAM_RATE,
                    0 <= conns <= MAX_CONNECTIONS_PER_STREAM,
            ;
        }
        let total_stream_rate: u64 = stream.stream_rate * stream.num_connections;
        proof {
            // A zero combined rate cannot have outrun the pool.
            if stream.stream_rate == 0 || stream.num_connections == 0 {
                assert((elapsed * rate) * conns == 0) by (nonlinear_arith)
                    requires
                        rate == 0 || conns == 0,
                ;
                assert(recent_amount_streamed == 0);
                assert(false);
            }
            assert(total_stream_rate >= 1) by (nonlinear_arith)
                requires
                    rate >= 1,
                    conns >= 1,
                    total_stream_rate == rate * conns,
            ;
        }
        let runway_since_last_update_seconds: u64 = current_pool_surplus / total_stream_rate;
        proof {
            lemma_fundamental_div_mod(current_pool_surplus as int, total_stream_rate as int);
            lemma_mod_bound(current_pool_surplus as int, total_stream_rate as int);
            lemma_div_pos_is_pos(current_pool_surplus as int, total_stream_rate as int);
            // The surplus cannot fund the whole elapsed interval, so the
            // runway is strictly shorter and the bookmark stays at or below
            // `current_timestamp`.
            assert(current_pool_surplus < total_stream_rate * elapsed) by (nonlinear_arith)
                requires
                    elapsed * (rate * conns) > current_pool_surplus,
                    total_stream_rate == rate * conns,
            ;
            lemma_multiply_divide_lt(
                current_pool_surplus as int,
                total_stream_rate as int,
                elapsed,
            );
        }
        let new_reduced_total_streamed: u64 = total_stream_rate * runway_since_last_update_seconds;
        (
            total_streamed + new_reduced_total_streamed,
            stream.last_update_timestamp + runway_since_last_update_seconds,
            false,
        )
    } else {
        (new_total_streamed as u64, current_timestamp, true)
    }
}

/// Brings a stream's books current to `current_timestamp` against
/// `current_pool_balance`, then lets one connection join when
/// `add_connection` is set (a newly joining connection receives no share of
/// emission accounted for in the same call).
///
/// The call itself never fails; an inactive stream is simply left frozen,
/// and callers that need an active stream reject afterwards.
pub fn update_stream_state(
    stream: &mut Stream,
    current_pool_balance: u64,
    current_timestamp: u64,
    add_connection: bool,
) -> (r: Result<(), ErrorCode>)
    requires
        reconcile_pre(*old(stream), current_pool_balance, current_timestamp),
        add_connection ==> old(stream).num_connections < MAX_CONNECTIONS_PER_STREAM,
    ensures
        r is Ok,
        *final(stream) == reconciled(
            *old(stream),
            current_pool_balance,
            current_timestamp,
            add_connection,
        ),
        stream_wf(*final(stream)),
        final(stream).total_claimed == old(stream).total_claimed,
        final(stream).total_streamed >= old(stream).total_streamed,
        old(stream).last_update_timestamp <= final(stream).last_update_timestamp
            <= current_timestamp,
        final(stream).total_streamed - final(stream).total_claimed <= current_pool_balance,
        final(stream).is_active ==> old(stream).is_active,
{
    if !stream.is_active {
        return Ok(());
    }
    let (new_total_streamed, new_last_update, still_active) = reconcile_outcome(
        stream,
        current_pool_balance,
        current_timestamp,
    );
    stream.total_streamed = new_total_streamed;
    stream.last_update_timestamp = new_last_update;
    stream.is_active = still_active;
    if add_connection {
        stream.num_connections = stream.num_connections + 1;
    }
    Ok(())
}

/// Reconciling twice at the same time against the same pool is a no-op the
/// second time: the first call either freezes the stream or moves its
/// bookmark to `now` with all owed emission still covered by the pool.
pub proof fn lemma_reconcile_idempotent(s: Stream, pool_balance: u64, now: u64)
    requires
        reconcile_pre(s, pool_balance, now),
    ensures
        reconciled(reconciled(s, pool_balance, now, false), pool_balance, now, false) == reconciled(
            s,
            pool_balance,
            now,
            false,
        ),
{
    let s1 = reconciled(s, pool_balance, now, false);
    if s.is_active && can_fund_full(s, pool_balance, now) {
        assert(projected_streamed(s, now) <= pool_balance + s.total_claimed);
        assert(0 <= projected_streamed(s, now)) by (nonlinear_arith)
            requires
                s.total_streamed >= 0,
                now - s.last_update_timestamp >= 0,
                total_rate(s) == s.stream_rate * s.num_connections,
                s.stream_rate >= 0,
                s.num_connections >= 0,
                projected_streamed(s, now) == s.total_streamed + (now - s.last_update_timestamp)
                    * total_rate(s),
        ;
        assert(s1.total_streamed == projected_streamed(s, now));
        assert(projected_streamed(s1, now) == s1.total_streamed);
        assert(can_fund_full(s1, pool_balance, now));
        assert(reconciled(s1, pool_balance, now, false) == s1);
    }
}

/// After any reconciliation the pool still covers everything owed: the
/// books never advance past what the pool can fund, even on the
/// insufficient-runway path.
pub proof fn lemma_reconcile_conservation(
    s: Stream,
    pool_balance: u64,
    now: u64,
    add_connection: bool,
)
    requires
        reconcile_pre(s, pool_balance, now),
    ensures
        reconciled(s, pool_balance, now, add_connection).total_streamed - reconciled(
            s,
            pool_balance,
            now,
            add_connection,
        ).total_claimed <= pool_balance,
{
    if s.is_active && !can_fund_full(s, pool_balance, now) {
        let tsr = total_rate(s);
        let surplus = pool_surplus(s, pool_balance);
        assert(tsr > 0) by (nonlinear_arith)
            requires
                (now - s.last_update_timestamp) * tsr > surplus,
                surplus >= 0,
                now >= s.last_update_timestamp,
                tsr == s.stream_rate * s.num_connections,
                s.stream_rate >= 0,
                s.num_connections >= 0,
        ;
        lemma_fundamental_div_mod(surplus, tsr);
        lemma_mod_bound(surplus, tsr);
        lemma_div_pos_is_pos(surplus, tsr);
    }
}

} // verus!
