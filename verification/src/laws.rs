//! What every operation keeps, and what holds across operations.

use vstd::prelude::*;
use vstd::arithmetic::mul::{lemma_mul_inequality, lemma_mul_is_distributive_add};
use crate::types::{Error, LedgerInfo, Mandate, MandateStatus};
use crate::ttl::{spec_ttl_ledgers, LEDGER_BUFFER, LEDGER_SECS_ESTIMATE, MAX_TTL_LEDGERS};
use crate::period::{
    lemma_index_below_slots, lemma_period_slots_is_ceiling, spec_period_index, spec_period_slots,
};
use crate::contract::{
    spec_charge, spec_charge_defined, spec_create_invalid, spec_lifetime_ceiling,
    spec_reduced_allowance, spec_revoked, spec_stored_id, spec_unspent,
};

verus! {

/// The charge room a mandate's accounting has used up, counted from its
/// start: the full cap for every period before the current one, plus what
/// was charged in the current one.
pub open spec fn spec_used_room(m: Mandate) -> int {
    m.amount_per_period * m.current_period + m.spent_in_period
}

/// What every stored mandate satisfies: its terms are those `create`
/// accepts, its ceiling is the cap times its period slots, the current
/// period lies before expiry, the current period's charges stay within the
/// cap, and the total charged stays within both the room used so far and
/// the lifetime ceiling.
pub open spec fn spec_well_formed(m: Mandate) -> bool {
    &&& m.amount_per_period > 0
    &&& m.period_secs > 0
    &&& m.start < m.expires_at
    &&& m.payer@ != m.merchant@
    &&& m.lifetime_ceiling == spec_lifetime_ceiling(
        m.amount_per_period as int,
        m.period_secs as int,
        m.start as int,
        m.expires_at as int,
    )
    &&& m.current_period < spec_period_slots(m.expires_at - m.start, m.period_secs as int)
    &&& 0 <= m.spent_in_period <= m.amount_per_period
    &&& 0 <= m.lifetime_spent <= m.lifetime_ceiling
    &&& m.lifetime_spent <= spec_used_room(m)
}

/// Whether a charge of `amount` at `now` falls into a later period than
/// the one `m`'s accounting refers to.
pub open spec fn spec_rolls_over(m: Mandate, now: u64) -> bool {
    spec_period_index(now - m.start, m.period_secs as int) > m.current_period
}

/// Room left for a charge at `now`: the full cap in a period later than the
/// accounting's, whatever periods were skipped; otherwise the cap less what
/// the current period has already been charged.
pub open spec fn spec_room(m: Mandate, now: u64) -> int {
    if spec_rolls_over(m, now) {
        m.amount_per_period as int
    } else {
        m.amount_per_period - m.spent_in_period
    }
}

/// Per-period discipline without catch-up: against a well-formed mandate, a
/// charge succeeds exactly when the amount is positive, the mandate is
/// active and unexpired, and the amount fits in the room of the current
/// period. Skipped periods add no room, and the lifetime ceiling never
/// refuses a charge that the period cap admits.
pub proof fn lemma_charge_succeeds_within_room(m: Mandate, now: u64, amount: i128)
    requires
        spec_well_formed(m),
        m.start <= now,
    ensures
        spec_charge(m, now, amount) is Ok <==> {
            &&& amount > 0
            &&& m.status == MandateStatus::Active
            &&& now < m.expires_at
            &&& amount <= spec_room(m, now)
        },
        spec_charge(m, now, amount) is Err && amount > 0 && m.status == MandateStatus::Active
            && now < m.expires_at ==> spec_charge(m, now, amount) == Err::<Mandate, Error>(
            Error::ExceedsPeriodCap,
        ),
{
    if amount > 0 && m.status == MandateStatus::Active && now < m.expires_at {
        lemma_charge_keeps_used_room_in_ceiling(m, now, amount);
    }
}

/// Against a well-formed mandate, the room used after a charge that the
/// period cap admits stays within the lifetime ceiling.
proof fn lemma_charge_keeps_used_room_in_ceiling(m: Mandate, now: u64, amount: i128)
    requires
        spec_well_formed(m),
        m.start <= now < m.expires_at,
        amount > 0,
    ensures
        ({
            let period = spec_period_index(now - m.start, m.period_secs as int);
            let rolled = period > m.current_period;
            let current = if rolled { period } else { m.current_period as int };
            let spent_before = if rolled { 0int } else { m.spent_in_period as int };
            let slots = spec_period_slots(m.expires_at - m.start, m.period_secs as int);
            &&& 0 <= current < slots
            &&& current >= m.current_period
            &&& spent_before + amount <= m.amount_per_period ==> {
                &&& m.lifetime_spent + amount <= m.amount_per_period * current + spent_before + amount
                &&& m.amount_per_period * current + spent_before + amount <= m.lifetime_ceiling
            }
        }),
{
    let cap = m.amount_per_period as int;
    let period = spec_period_index(now - m.start, m.period_secs as int);
    let slots = spec_period_slots(m.expires_at - m.start, m.period_secs as int);
    lemma_index_below_slots(now - m.start, m.expires_at - m.start, m.period_secs as int);
    let rolled = period > m.current_period;
    let current = if rolled { period } else { m.current_period as int };
    if rolled {
        lemma_mul_inequality(m.current_period + 1, period, cap);
        lemma_mul_is_distributive_add(cap, m.current_period as int, 1);
        assert(cap * (m.current_period + 1) == (m.current_period + 1) * cap) by (nonlinear_arith);
        assert(cap * period == period * cap) by (nonlinear_arith);
    }
    lemma_mul_inequality(current + 1, slots, cap);
    lemma_mul_is_distributive_add(cap, current, 1);
    assert(cap * (current + 1) == (current + 1) * cap) by (nonlinear_arith);
    assert(cap * slots == slots * cap) by (nonlinear_arith);
}

/// A charge keeps a well-formed mandate well-formed.
pub proof fn lemma_charge_keeps_well_formed(m: Mandate, now: u64, amount: i128)
    requires
        spec_well_formed(m),
        m.start <= now,
    ensures
        spec_charge(m, now, amount) matches Ok(after) ==> spec_well_formed(after),
{
    if amount > 0 && m.status == MandateStatus::Active && now < m.expires_at {
        lemma_charge_keeps_used_room_in_ceiling(m, now, amount);
    }
}

/// The mandate after a run of charge attempts, each a time and an amount,
/// in order; a refused attempt leaves the mandate as it was.
pub open spec fn spec_after_charges(m: Mandate, charges: Seq<(u64, i128)>) -> Mandate
    decreases charges.len(),
{
    if charges.len() == 0 {
        m
    } else {
        let next = match spec_charge(m, charges[0].0, charges[0].1) {
            Ok(after) => after,
            Err(_) => m,
        };
        spec_after_charges(next, charges.drop_first())
    }
}

/// The total that a run of charge attempts moves: the sum of the accepted
/// amounts.
pub open spec fn spec_total_charged(m: Mandate, charges: Seq<(u64, i128)>) -> int
    decreases charges.len(),
{
    if charges.len() == 0 {
        0
    } else {
        match spec_charge(m, charges[0].0, charges[0].1) {
            Ok(after) => charges[0].1 + spec_total_charged(after, charges.drop_first()),
            Err(_) => spec_total_charged(m, charges.drop_first()),
        }
    }
}

/// A single accepted charge uses at least its amount of room, and keeps the
/// mandate's terms.
proof fn lemma_charge_uses_room(m: Mandate, now: u64, amount: i128)
    requires
        spec_well_formed(m),
        m.start <= now,
    ensures
        spec_charge(m, now, amount) matches Ok(after) ==> {
            &&& spec_well_formed(after)
            &&& after.start == m.start
            &&& after.amount_per_period == m.amount_per_period
            &&& after.current_period >= m.current_period
            &&& after.lifetime_spent == m.lifetime_spent + amount
            &&& spec_used_room(after) - spec_used_room(m) >= amount
        },
{
    lemma_charge_keeps_well_formed(m, now, amount);
    if let Ok(after) = spec_charge(m, now, amount) {
        lemma_charge_keeps_used_room_in_ceiling(m, now, amount);
        let cap = m.amount_per_period as int;
        if after.current_period > m.current_period {
            lemma_mul_inequality(m.current_period + 1, after.current_period as int, cap);
            lemma_mul_is_distributive_add(cap, m.current_period as int, 1);
            assert(cap * (m.current_period + 1) == (m.current_period + 1) * cap)
                by (nonlinear_arith);
            assert(cap * after.current_period == after.current_period * cap) by (nonlinear_arith);
        }
    }
}

/// No catch-up over any run of charges: what a run moves is at most the
/// room it uses, so a run that starts in period `p` and ends in period `q`
/// moves at most the cap times the `q - p + 1` periods it spans, less
/// what period `p` had already been charged; and the mandate stays
/// well-formed, its total charged growing by exactly what was moved.
pub proof fn lemma_charges_within_periods(m: Mandate, charges: Seq<(u64, i128)>)
    requires
        spec_well_formed(m),
        forall|i: int| 0 <= i < charges.len() ==> m.start <= #[trigger] charges[i].0,
    ensures
        ({
            let f = spec_after_charges(m, charges);
            let total = spec_total_charged(m, charges);
            &&& spec_well_formed(f)
            &&& f.start == m.start
            &&& f.amount_per_period == m.amount_per_period
            &&& f.current_period >= m.current_period
            &&& f.lifetime_spent == m.lifetime_spent + total
            &&& total <= spec_used_room(f) - spec_used_room(m)
            &&& total <= m.amount_per_period * (f.current_period - m.current_period + 1)
                - m.spent_in_period
        }),
    decreases charges.len(),
{
    if charges.len() > 0 {
        let (now, amount) = charges[0];
        assert(m.start <= charges[0].0);
        lemma_charge_uses_room(m, now, amount);
        let next = match spec_charge(m, now, amount) {
            Ok(after) => after,
            Err(_) => m,
        };
        let rest = charges.drop_first();
        assert forall|i: int| 0 <= i < rest.len() implies next.start <= #[trigger] rest[i].0 by {
            assert(rest[i] == charges[i + 1]);
        }
        lemma_charges_within_periods(next, rest);
    }
    let f = spec_after_charges(m, charges);
    let cap = m.amount_per_period as int;
    let d = f.current_period - m.current_period;
    assert(cap * f.current_period - cap * m.current_period == cap * d) by (nonlinear_arith)
        requires d == f.current_period - m.current_period;
    assert(cap * (d + 1) == cap * d + cap) by (nonlinear_arith);
}

/// A revoked mandate keeps its terms and accounting, so it stays
/// well-formed.
pub proof fn lemma_revoke_keeps_well_formed(m: Mandate)
    requires
        spec_well_formed(m),
    ensures
        spec_well_formed(spec_revoked(m)),
{
}

/// Revocation is final: no charge against a revoked mandate succeeds. A
/// positive amount is refused as `MandateNotActive`.
pub proof fn lemma_revoked_refuses_charges(m: Mandate, now: u64, amount: i128)
    ensures
        spec_charge(spec_revoked(m), now, amount) is Err,
        amount > 0 ==> spec_charge(spec_revoked(m), now, amount) == Err::<Mandate, Error>(
            Error::MandateNotActive,
        ),
{
}

/// Revocation releases exactly the mandate's unspent ceiling: where the
/// payer's allowance holds that share beside `others` granted for other
/// mandates (as after a creation that added the ceiling and charges that
/// drew the total charged from it), what remains is exactly `others`.
pub proof fn lemma_revoke_leaves_other_allowance(m: Mandate, others: int)
    requires
        spec_well_formed(m),
        others >= 0,
    ensures
        spec_unspent(m) >= 0,
        spec_reduced_allowance(others + m.lifetime_ceiling - m.lifetime_spent, spec_unspent(m))
            == others,
{
}

/// A creation is refused only for a non-positive cap, a zero period, an
/// expiry not after now, a stale allowance horizon, a payer that is the
/// merchant, or a ceiling beyond `i128`: terms without these flaws are
/// accepted whatever the duration, shorter than one period or longer than
/// any allowance horizon, and their ceiling is the cap times the duration
/// divided by the period, rounded up.
pub proof fn lemma_create_accepts_any_duration(
    ledger: LedgerInfo,
    payer: String,
    merchant: String,
    amount_per_period: i128,
    period_secs: u64,
    expires_at: u64,
    allowance_live_until: u32,
)
    requires
        amount_per_period > 0,
        period_secs > 0,
        expires_at > ledger.timestamp,
        allowance_live_until > ledger.sequence,
        payer@ != merchant@,
        amount_per_period * ((expires_at - ledger.timestamp + period_secs - 1) / period_secs as int)
            <= i128::MAX,
    ensures
        !spec_create_invalid(
            ledger, payer, merchant, amount_per_period, period_secs, expires_at,
            allowance_live_until,
        ),
        spec_lifetime_ceiling(
            amount_per_period as int, period_secs as int, ledger.timestamp as int,
            expires_at as int,
        ) == amount_per_period * ((expires_at - ledger.timestamp + period_secs - 1)
            / period_secs as int),
{
    lemma_period_slots_is_ceiling(expires_at - ledger.timestamp, period_secs as int);
}

/// The id a creation takes is the stored counter, or 0 when none is stored,
/// and the counter it stores gives the next creation the id right after.
pub proof fn lemma_stored_id_is_the_counter(stored_next_id: Option<u64>)
    ensures
        stored_next_id matches Some(n) ==> spec_stored_id(stored_next_id) == n,
        stored_next_id is None ==> spec_stored_id(stored_next_id) == 0,
        spec_stored_id(stored_next_id) < u64::MAX ==> spec_stored_id(
            Some((spec_stored_id(stored_next_id) + 1) as u64),
        ) == spec_stored_id(stored_next_id) + 1,
{
}

/// The id taken by the `k`-th creation (counting from 0) after the counter
/// stood at `stored_next_id`, each creation storing its id plus one.
pub open spec fn spec_id_of_creation(stored_next_id: Option<u64>, k: nat) -> int
    decreases k,
{
    if k == 0 {
        spec_stored_id(stored_next_id) as int
    } else {
        spec_stored_id(Some((spec_id_of_creation(stored_next_id, (k - 1) as nat) + 1) as u64)) as int
    }
}

/// Successive creations take successive ids: the `k`-th takes the
/// counter's value plus `k`, so ids strictly increase and none is taken
/// twice.
pub proof fn lemma_creations_take_distinct_ids(stored_next_id: Option<u64>, j: nat, k: nat)
    requires
        j < k,
        spec_stored_id(stored_next_id) + k <= u64::MAX,
    ensures
        spec_id_of_creation(stored_next_id, k) == spec_stored_id(stored_next_id) + k,
        spec_id_of_creation(stored_next_id, j) < spec_id_of_creation(stored_next_id, k),
{
    lemma_ids_count_up(stored_next_id, k);
    lemma_ids_count_up(stored_next_id, j);
}

proof fn lemma_ids_count_up(stored_next_id: Option<u64>, k: nat)
    requires
        spec_stored_id(stored_next_id) + k <= u64::MAX,
    ensures
        spec_id_of_creation(stored_next_id, k) == spec_stored_id(stored_next_id) + k,
    decreases k,
{
    if k > 0 {
        lemma_ids_count_up(stored_next_id, (k - 1) as nat);
    }
}

/// Revocation changes nothing but the status: with its status put back,
/// the revoked mandate is the mandate itself, so its accounting (the
/// total charged among it) is kept.
pub proof fn lemma_revoke_changes_only_status(m: Mandate)
    ensures
        spec_revoked(m).status == MandateStatus::Revoked,
        (Mandate { status: m.status, ..spec_revoked(m) }) == m,
        spec_revoked(m).lifetime_spent == m.lifetime_spent,
{
}

/// What any charge does, well-formed mandate or not: it is refused for a
/// non-positive amount, then for an inactive mandate, then at or after
/// expiry, and otherwise only for exceeding a cap; an accepted charge adds
/// exactly its amount to the total charged, keeps the mandate's terms,
/// moves the accounting to the later of its period and the period of `now`
/// (counting the amount alone in a new period, on top of what was spent in
/// the same one), and leaves the period's charges within the cap and the
/// total within the ceiling.
pub proof fn lemma_charge_accounting(m: Mandate, now: u64, amount: i128)
    requires
        spec_charge_defined(m, now, amount),
    ensures
        amount <= 0 ==> spec_charge(m, now, amount) == Err::<Mandate, Error>(Error::InvalidParams),
        amount > 0 && m.status != MandateStatus::Active ==> spec_charge(m, now, amount) == Err::<
            Mandate,
            Error,
        >(Error::MandateNotActive),
        amount > 0 && m.status == MandateStatus::Active && now >= m.expires_at ==> spec_charge(
            m,
            now,
            amount,
        ) == Err::<Mandate, Error>(Error::MandateExpired),
        amount > 0 && m.status == MandateStatus::Active && now < m.expires_at && spec_charge(
            m,
            now,
            amount,
        ) is Err ==> spec_charge(m, now, amount) == Err::<Mandate, Error>(Error::ExceedsPeriodCap),
        spec_charge(m, now, amount) matches Ok(a) ==> {
            &&& amount > 0
            &&& m.status == MandateStatus::Active
            &&& now < m.expires_at
            &&& a.lifetime_spent == m.lifetime_spent + amount
            &&& (Mandate {
                current_period: m.current_period,
                spent_in_period: m.spent_in_period,
                lifetime_spent: m.lifetime_spent,
                ..a
            }) == m
            &&& a.current_period >= m.current_period
            &&& a.current_period >= (now - m.start) / (m.period_secs as int)
            &&& (a.current_period == m.current_period || a.current_period == (now - m.start) / (
            m.period_secs as int))
            &&& a.current_period == m.current_period ==> a.spent_in_period == m.spent_in_period
                + amount
            &&& a.current_period != m.current_period ==> a.spent_in_period == amount
            &&& a.spent_in_period <= a.amount_per_period
            &&& a.lifetime_spent <= a.lifetime_ceiling
        },
{
}

/// The storage lifetime covers the horizon: the ledgers beyond the one-day
/// buffer, at five seconds each, reach the horizon (unless the network
/// maximum clamps them), the lifetime never falls below the buffer nor
/// exceeds the maximum, and a longer horizon never gets fewer ledgers.
pub proof fn lemma_ttl_covers_horizon(secs: u64, longer: u64)
    requires
        secs <= longer,
    ensures
        LEDGER_BUFFER <= spec_ttl_ledgers(secs) <= MAX_TTL_LEDGERS,
        spec_ttl_ledgers(secs) < MAX_TTL_LEDGERS ==> {
            &&& (spec_ttl_ledgers(secs) - LEDGER_BUFFER) * LEDGER_SECS_ESTIMATE <= secs
            &&& secs < (spec_ttl_ledgers(secs) - LEDGER_BUFFER + 1) * LEDGER_SECS_ESTIMATE
        },
        spec_ttl_ledgers(secs) <= spec_ttl_ledgers(longer),
{
}

/// The allowance left after a release is never negative, never below the
/// plain difference, and is that difference or zero.
pub proof fn lemma_reduced_allowance_clamps(existing: int, unspent: int)
    ensures
        spec_reduced_allowance(existing, unspent) >= 0,
        spec_reduced_allowance(existing, unspent) >= existing - unspent,
        spec_reduced_allowance(existing, unspent) == 0 || spec_reduced_allowance(existing, unspent)
            == existing - unspent,
{
}

} // verus!
