//! Counters of authentication outcomes.
//!
//! Each counter wraps around on overflow, as an atomic `fetch_add` does; the
//! process keeps one `AuthMetrics` value and hands it to these functions.

use vstd::prelude::*;

verus! {

/// Point-in-time copy of the authentication counters.
#[derive(Debug, Clone, Copy, PartialEq, Eq, Structural)]
pub struct AuthMetricsSnapshot {
    pub auth_success: u64,
    pub auth_failure: u64,
    pub refresh_success: u64,
    pub refresh_failure: u64,
    pub token_expired: u64,
}

/// The live authentication counters.
#[derive(Debug, Clone, Copy, PartialEq, Eq, Structural)]
pub struct AuthMetrics {
    pub auth_success: u64,
    pub auth_failure: u64,
    pub refresh_success: u64,
    pub refresh_failure: u64,
    pub token_expired: u64,
}

/// A counter after one more event (wrapping at `u64::MAX`).
pub open spec fn counter_after(x: u64) -> u64 {
    if x == u64::MAX {
        0
    } else {
        (x + 1) as u64
    }
}

fn bump(x: u64) -> (r: u64)
    ensures
        r == counter_after(x),
{
    if x == u64::MAX {
        0
    } else {
        x + 1
    }
}

/// The snapshot that shows exactly the counters of `m`.
pub open spec fn spec_snapshot(m: AuthMetrics) -> AuthMetricsSnapshot {
    AuthMetricsSnapshot {
        auth_success: m.auth_success,
        auth_failure: m.auth_failure,
        refresh_success: m.refresh_success,
        refresh_failure: m.refresh_failure,
        token_expired: m.token_expired,
    }
}

impl AuthMetrics {
    /// All counters at zero.
    pub fn new() -> (m: Self)
        ensures
            m == zero_metrics(),
            spec_snapshot(m) == (AuthMetricsSnapshot {
                auth_success: 0,
                auth_failure: 0,
                refresh_success: 0,
                refresh_failure: 0,
                token_expired: 0,
            }),
    {
        AuthMetrics {
            auth_success: 0,
            auth_failure: 0,
            refresh_success: 0,
            refresh_failure: 0,
            token_expired: 0,
        }
    }
}

/// Counts one successful login.
pub fn inc_auth_success(m: &mut AuthMetrics)
    ensures
        *final(m) == after_event(*old(m), MetricEvent::AuthSuccess),
        *final(m) == (AuthMetrics { auth_success: counter_after(old(m).auth_success), ..*old(m) }),
{
    m.auth_success = bump(m.auth_success);
}

/// Counts one failed login.
pub fn inc_auth_failure(m: &mut AuthMetrics)
    ensures
        *final(m) == after_event(*old(m), MetricEvent::AuthFailure),
        *final(m) == (AuthMetrics { auth_failure: counter_after(old(m).auth_failure), ..*old(m) }),
{
    m.auth_failure = bump(m.auth_failure);
}

/// Counts one successful refresh.
pub fn inc_refresh_success(m: &mut AuthMetrics)
    ensures
        *final(m) == after_event(*old(m), MetricEvent::RefreshSuccess),
        *final(m) == (AuthMetrics {
            refresh_success: counter_after(old(m).refresh_success),
            ..*old(m)
        }),
{
    m.refresh_success = bump(m.refresh_success);
}

/// Counts one failed refresh.
pub fn inc_refresh_failure(m: &mut AuthMetrics)
    ensures
        *final(m) == after_event(*old(m), MetricEvent::RefreshFailure),
        *final(m) == (AuthMetrics {
            refresh_failure: counter_after(old(m).refresh_failure),
            ..*old(m)
        }),
{
    m.refresh_failure = bump(m.refresh_failure);
}

/// Counts one expired access token.
pub fn inc_token_expired(m: &mut AuthMetrics)
    ensures
        *final(m) == after_event(*old(m), MetricEvent::TokenExpired),
        *final(m) == (AuthMetrics { token_expired: counter_after(old(m).token_expired), ..*old(m) }),
{
    m.token_expired = bump(m.token_expired);
}

/// Reads all counters at once.
pub fn snapshot(m: &AuthMetrics) -> (s: AuthMetricsSnapshot)
    ensures
        s == spec_snapshot(*m),
{
    AuthMetricsSnapshot {
        auth_success: m.auth_success,
        auth_failure: m.auth_failure,
        refresh_success: m.refresh_success,
        refresh_failure: m.refresh_failure,
        token_expired: m.token_expired,
    }
}

/// The events the counters count.
#[derive(Debug, Clone, Copy, PartialEq, Eq, Structural)]
pub enum MetricEvent {
    AuthSuccess,
    AuthFailure,
    RefreshSuccess,
    RefreshFailure,
    TokenExpired,
}

/// The counter of `m` that counts events of kind `e`.
pub open spec fn counter_of(m: AuthMetrics, e: MetricEvent) -> u64 {
    match e {
        MetricEvent::AuthSuccess => m.auth_success,
        MetricEvent::AuthFailure => m.auth_failure,
        MetricEvent::RefreshSuccess => m.refresh_success,
        MetricEvent::RefreshFailure => m.refresh_failure,
        MetricEvent::TokenExpired => m.token_expired,
    }
}

/// The counters after one event of kind `e`: its counter moves on by one,
/// the others stay.
pub open spec fn after_event(m: AuthMetrics, e: MetricEvent) -> AuthMetrics {
    match e {
        MetricEvent::AuthSuccess => AuthMetrics { auth_success: counter_after(m.auth_success), ..m },
        MetricEvent::AuthFailure => AuthMetrics { auth_failure: counter_after(m.auth_failure), ..m },
        MetricEvent::RefreshSuccess => AuthMetrics { refresh_success: counter_after(m.refresh_success), ..m },
        MetricEvent::RefreshFailure => AuthMetrics { refresh_failure: counter_after(m.refresh_failure), ..m },
        MetricEvent::TokenExpired => AuthMetrics { token_expired: counter_after(m.token_expired), ..m },
    }
}

/// The counters after the events `es`, in order.
pub open spec fn after_events(m: AuthMetrics, es: Seq<MetricEvent>) -> AuthMetrics
    decreases es.len(),
{
    if es.len() == 0 {
        m
    } else {
        after_event(after_events(m, es.drop_last()), es.last())
    }
}

/// How many of the events `es` are of kind `e`.
pub open spec fn event_count(es: Seq<MetricEvent>, e: MetricEvent) -> nat
    decreases es.len(),
{
    if es.len() == 0 {
        0
    } else {
        event_count(es.drop_last(), e) + if es.last() == e {
            1nat
        } else {
            0nat
        }
    }
}

/// The counters as they start: all at zero.
pub open spec fn zero_metrics() -> AuthMetrics {
    AuthMetrics { auth_success: 0, auth_failure: 0, refresh_success: 0, refresh_failure: 0, token_expired: 0 }
}

/// Number of values a counter takes before it wraps around.
pub open spec fn counter_span() -> int {
    u64::MAX + 1
}

proof fn lemma_counter_after_mod(v: u64)
    ensures
        counter_after(v) == (v + 1) % counter_span(),
{
    if v == u64::MAX {
        vstd::arithmetic::div_mod::lemma_mod_self_0(counter_span());
    } else {
        vstd::arithmetic::div_mod::lemma_small_mod((v + 1) as nat, counter_span() as nat);
    }
}

/// After any run of events, each counter has moved on from where it stood by
/// the number of events of its kind, modulo 2^64.
pub proof fn lemma_counters_count(m: AuthMetrics, es: Seq<MetricEvent>, e: MetricEvent)
    ensures
        counter_of(after_events(m, es), e) == (counter_of(m, e) + event_count(es, e)) % counter_span(),
    decreases es.len(),
{
    if es.len() == 0 {
        vstd::arithmetic::div_mod::lemma_small_mod(counter_of(m, e) as nat, counter_span() as nat);
    } else {
        let prev = after_events(m, es.drop_last());
        lemma_counters_count(m, es.drop_last(), e);
        let before = counter_of(m, e) + event_count(es.drop_last(), e);
        if es.last() == e {
            lemma_counter_after_mod(counter_of(prev, e));
            vstd::arithmetic::div_mod::lemma_add_mod_noop(before, 1, counter_span());
            vstd::arithmetic::div_mod::lemma_small_mod(1, counter_span() as nat);
            assert(counter_of(after_events(m, es), e) == counter_after(counter_of(prev, e)));
        } else {
            assert(counter_of(after_events(m, es), e) == counter_of(prev, e));
        }
    }
}

/// Counted from the start, when all counters are zero, each counter reads
/// the number of events of its kind so far, modulo 2^64.
pub proof fn lemma_counters_count_from_start(es: Seq<MetricEvent>, e: MetricEvent)
    ensures
        counter_of(after_events(zero_metrics(), es), e) == (event_count(es, e) as int) % counter_span(),
{
    lemma_counters_count(zero_metrics(), es, e);
}

/// Counters never go back between two snapshots as long as none of them has
/// wrapped around: after events `es`, a counter that had room for its events
/// reads its earlier value plus their number.
pub proof fn lemma_snapshots_grow(m: AuthMetrics, es: Seq<MetricEvent>, e: MetricEvent)
    requires
        counter_of(m, e) + event_count(es, e) <= u64::MAX,
    ensures
        counter_of(after_events(m, es), e) == counter_of(m, e) + event_count(es, e),
        counter_of(after_events(m, es), e) >= counter_of(m, e),
{
    lemma_counters_count(m, es, e);
    vstd::arithmetic::div_mod::lemma_small_mod(
        (counter_of(m, e) + event_count(es, e)) as nat,
        counter_span() as nat,
    );
}

} // verus!
