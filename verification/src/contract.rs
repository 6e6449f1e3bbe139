use vstd::prelude::*;
use crate::types::{
    Error, LedgerInfo, Mandate, MandateCharged, MandateCreated, MandateRevoked, MandateStatus,
};
use crate::ttl::{spec_ttl_ledgers, ttl_ledgers, LEDGER_BUFFER, LEDGER_SECS_ESTIMATE, MAX_TTL_LEDGERS};
use crate::period::{
    lemma_period_slots_cover, lemma_period_slots_is_ceiling, period_slots, spec_period_index,
    spec_period_slots,
};
use crate::laws::spec_well_formed;
use vstd::arithmetic::mul::lemma_mul_inequality;

verus! {

/// The contract: each of its entry points is a decision on the values it
/// reads from the ledger and from the token contract, whose result says what
/// to store, which allowance to grant, which funds to move and what to emit.
pub struct MandateContract;

/// A validated mandate that awaits its token allowance and an id.
pub struct Proposal {
    /// The mandate as it will be stored.
    pub mandate: Mandate,
    /// Seconds from creation to expiry: the horizon its storage is kept for.
    pub duration: u64,
}

/// Everything a successful creation writes.
pub struct Created {
    /// The new mandate's id.
    pub id: u64,
    /// The id counter to store for the next creation.
    pub next_id: u64,
    /// The payer's allowance to this contract, to grant until
    /// `mandate.allowance_live_until`.
    pub allowance: i128,
    /// The mandate to store under `id`.
    pub mandate: Mandate,
    /// Ledgers to keep the mandate's storage entry alive for.
    pub ttl_ledgers: u32,
    /// Ledgers to keep the contract instance (and its id counter) alive for.
    pub instance_ttl_ledgers: u32,
    pub event: MandateCreated,
}

/// Everything a successful charge writes and moves.
pub struct Charged {
    /// The mandate as it is stored after the charge.
    pub mandate: Mandate,
    /// The account the funds are pulled from: the payer.
    pub from: String,
    /// The account the funds go to: the merchant.
    pub to: String,
    /// The amount moved, drawn on the payer's allowance to this contract.
    pub amount: i128,
    /// Ledgers to keep the mandate's storage entry alive for.
    pub ttl_ledgers: u32,
    pub event: MandateCharged,
}

/// Everything a successful revocation writes.
pub struct Revoked {
    /// The mandate as it is stored after the revocation.
    pub mandate: Mandate,
    /// The mandate's unspent lifetime ceiling, to release from the payer's
    /// allowance to this contract; `None` once the allowance's horizon has
    /// passed, when the token side no longer holds what this contract
    /// granted.
    pub release: Option<i128>,
    /// Ledgers to keep the mandate's storage entry alive for.
    pub ttl_ledgers: u32,
    pub event: MandateRevoked,
}

/// Whether the arguments of `create` are refused outright.
pub open spec fn spec_create_invalid(
    ledger: LedgerInfo,
    payer: String,
    merchant: String,
    amount_per_period: i128,
    period_secs: u64,
    expires_at: u64,
    allowance_live_until: u32,
) -> bool {
    ||| amount_per_period <= 0
    ||| period_secs == 0
    ||| expires_at <= ledger.timestamp
    ||| allowance_live_until <= ledger.sequence
    ||| payer@ == merchant@
}

/// The lifetime ceiling of a mandate: the per-period cap times the number of
/// period slots from `start` to `expires_at`, rounded up.
pub open spec fn spec_lifetime_ceiling(
    amount_per_period: int,
    period_secs: int,
    start: int,
    expires_at: int,
) -> int {
    amount_per_period * spec_period_slots(expires_at - start, period_secs)
}

/// A freshly created, active mandate with nothing charged.
pub open spec fn spec_fresh_mandate(
    payer: String,
    merchant: String,
    token: String,
    amount_per_period: i128,
    period_secs: u64,
    start: u64,
    expires_at: u64,
    allowance_live_until: u32,
    lifetime_ceiling: i128,
) -> Mandate {
    Mandate {
        payer,
        merchant,
        token,
        amount_per_period,
        period_secs,
        start,
        expires_at,
        spent_in_period: 0,
        current_period: 0,
        allowance_live_until,
        lifetime_ceiling,
        lifetime_spent: 0,
        status: MandateStatus::Active,
    }
}

impl MandateContract {
    /// Validates a new mandate from `payer` to `merchant` in `token` and
    /// computes its lifetime ceiling. Refuses, with `InvalidParams`, a
    /// non-positive cap, a zero period, an expiry not after the ledger's
    /// time, an allowance horizon not after the ledger's sequence, a payer
    /// that is the merchant, and a ceiling that does not fit in an `i128`.
    pub fn create(
        ledger: LedgerInfo,
        payer: String,
        merchant: String,
        token: String,
        amount_per_period: i128,
        period_secs: u64,
        expires_at: u64,
        allowance_live_until: u32,
    ) -> (res: Result<Proposal, Error>)
        ensures
            res is Err <==> spec_create_invalid(
                ledger, payer, merchant, amount_per_period, period_secs, expires_at,
                allowance_live_until,
            ) || spec_lifetime_ceiling(
                amount_per_period as int, period_secs as int, ledger.timestamp as int,
                expires_at as int,
            ) > i128::MAX,
            res is Err ==> res == Err::<Proposal, Error>(Error::InvalidParams),
            res matches Ok(p) ==> {
                &&& p.duration == expires_at - ledger.timestamp
                &&& p.mandate.lifetime_ceiling == spec_lifetime_ceiling(
                    amount_per_period as int, period_secs as int, ledger.timestamp as int,
                    expires_at as int,
                )
                &&& p.mandate == spec_fresh_mandate(
                    payer, merchant, token, amount_per_period, period_secs, ledger.timestamp,
                    expires_at, allowance_live_until, p.mandate.lifetime_ceiling,
                )
                &&& spec_well_formed(p.mandate)
            },
            // Refused on these grounds only, whatever the duration.
            res is Err ==> {
                ||| amount_per_period <= 0
                ||| period_secs == 0
                ||| expires_at <= ledger.timestamp
                ||| allowance_live_until <= ledger.sequence
                ||| payer@ == merchant@
                ||| amount_per_period * ((expires_at - ledger.timestamp + period_secs - 1)
                    / period_secs as int) > i128::MAX
            },
            amount_per_period > 0 && period_secs > 0 && expires_at > ledger.timestamp
                && allowance_live_until > ledger.sequence && payer@ != merchant@
                && amount_per_period * ((expires_at - ledger.timestamp + period_secs - 1)
                / period_secs as int) <= i128::MAX ==> res is Ok,
            res matches Ok(p) ==> {
                &&& p.mandate.lifetime_ceiling == amount_per_period * ((expires_at
                    - ledger.timestamp + period_secs - 1) / period_secs as int)
                &&& p.mandate.payer == payer
                &&& p.mandate.merchant == merchant
                &&& p.mandate.token == token
                &&& p.mandate.amount_per_period == amount_per_period
                &&& p.mandate.period_secs == period_secs
                &&& p.mandate.start == ledger.timestamp
                &&& p.mandate.expires_at == expires_at
                &&& p.mandate.allowance_live_until == allowance_live_until
                &&& p.mandate.spent_in_period == 0
                &&& p.mandate.current_period == 0
                &&& p.mandate.lifetime_spent == 0
                &&& p.mandate.status == MandateStatus::Active
            },
    {
        let now = ledger.timestamp;
        if amount_per_period <= 0 || period_secs == 0 || expires_at <= now
            || allowance_live_until <= ledger.sequence || merchant == payer
        {
            return Err(Error::InvalidParams);
        }
        let duration: u64 = expires_at - now;
        let periods: u64 = period_slots(duration, period_secs);
        proof {
            lemma_period_slots_is_ceiling(duration as int, period_secs as int);
        }
        let lifetime_ceiling = match amount_per_period.checked_mul(periods as i128) {
            Some(c) => c,
            None => return Err(Error::InvalidParams),
        };
        proof {
            lemma_period_slots_cover(duration as int, period_secs as int);
            lemma_mul_inequality(1, periods as int, amount_per_period as int);
            assert(amount_per_period * 0 + 0 == 0) by (nonlinear_arith);
        }
        let mandate = Mandate {
            payer,
            merchant,
            token,
            amount_per_period,
            period_secs,
            start: now,
            expires_at,
            spent_in_period: 0,
            current_period: 0,
            allowance_live_until,
            lifetime_ceiling,
            lifetime_spent: 0,
            status: MandateStatus::Active,
        };
        Ok(Proposal { mandate, duration })
    }

    /// Funds a validated mandate: the payer's allowance to this contract
    /// grows by the mandate's lifetime ceiling (it is added to what the
    /// payer already granted for other mandates, never set over it), and the
    /// mandate takes the next id. Refuses, with `InvalidParams`, an
    /// allowance that would not fit in an `i128`.
    ///
    /// `existing_allowance` is the payer's current allowance to this
    /// contract; `stored_next_id` is the id counter as stored, if any.
    pub fn fund(proposal: Proposal, existing_allowance: i128, stored_next_id: Option<u64>) -> (res:
        Result<Created, Error>)
        requires
            spec_stored_id(stored_next_id) < u64::MAX,
        ensures
            res is Err <==> existing_allowance + proposal.mandate.lifetime_ceiling > i128::MAX
                || existing_allowance + proposal.mandate.lifetime_ceiling < i128::MIN,
            res is Err ==> res == Err::<Created, Error>(Error::InvalidParams),
            res matches Ok(c) ==> {
                &&& c.id == spec_stored_id(stored_next_id)
                &&& c.next_id == c.id + 1
                &&& (stored_next_id matches Some(n) ==> c.id == n)
                &&& (stored_next_id is None ==> c.id == 0)
                &&& c.next_id > c.id
                &&& c.allowance == existing_allowance + proposal.mandate.lifetime_ceiling
                &&& c.mandate == proposal.mandate
                &&& c.ttl_ledgers == spec_ttl_ledgers(proposal.duration)
                &&& c.instance_ttl_ledgers == MAX_TTL_LEDGERS
                &&& c.event == spec_created_event(c.id, proposal.mandate)
            },
    {
        let allowance = match existing_allowance.checked_add(proposal.mandate.lifetime_ceiling) {
            Some(a) => a,
            None => return Err(Error::InvalidParams),
        };
        let id: u64 = match stored_next_id {
            Some(n) => n,
            None => 0,
        };
        let mandate = proposal.mandate;
        let event = MandateCreated {
            id,
            payer: mandate.payer.clone(),
            merchant: mandate.merchant.clone(),
            token: mandate.token.clone(),
            amount_per_period: mandate.amount_per_period,
            period_secs: mandate.period_secs,
            expires_at: mandate.expires_at,
        };
        Ok(Created {
            id,
            next_id: id + 1,
            allowance,
            mandate,
            ttl_ledgers: ttl_ledgers(proposal.duration),
            instance_ttl_ledgers: MAX_TTL_LEDGERS as u32,
            event,
        })
    }
}

/// The id the next mandate takes, given the id counter as stored: the
/// counter starts at 0.
pub open spec fn spec_stored_id(stored_next_id: Option<u64>) -> u64 {
    match stored_next_id {
        Some(n) => n,
        None => 0,
    }
}

/// The event announcing mandate `m` under `id`.
pub open spec fn spec_created_event(id: u64, m: Mandate) -> MandateCreated {
    MandateCreated {
        id,
        payer: m.payer,
        merchant: m.merchant,
        token: m.token,
        amount_per_period: m.amount_per_period,
        period_secs: m.period_secs,
        expires_at: m.expires_at,
    }
}

/// The inputs on which a charge stays within the arithmetic of the ledger's
/// integers: once a charge gets past its status and expiry checks, the
/// period index is computed from the time elapsed since the start, which
/// needs a non-zero period and a time not before the start.
pub open spec fn spec_charge_defined(m: Mandate, now: u64, amount: i128) -> bool {
    amount > 0 && m.status == MandateStatus::Active && now < m.expires_at ==> {
        &&& m.period_secs > 0
        &&& m.start <= now
    }
}

/// The outcome of charging `amount` at time `now` against `m`: the checks in
/// their order, then the period accounting rolled forward to the current
/// period (skipped periods grant no room), the per-period cap and the
/// lifetime ceiling.
pub open spec fn spec_charge(m: Mandate, now: u64, amount: i128) -> Result<Mandate, Error> {
    if amount <= 0 {
        Err(Error::InvalidParams)
    } else if m.status != MandateStatus::Active {
        Err(Error::MandateNotActive)
    } else if now >= m.expires_at {
        Err(Error::MandateExpired)
    } else {
        let period = spec_period_index(now - m.start, m.period_secs as int);
        let rolled = period > m.current_period;
        let current = if rolled { period } else { m.current_period as int };
        let spent_before = if rolled { 0int } else { m.spent_in_period as int };
        let spent = spent_before + amount;
        let lifetime = m.lifetime_spent + amount;
        if spent > i128::MAX || spent > m.amount_per_period {
            Err(Error::ExceedsPeriodCap)
        } else if lifetime > i128::MAX || lifetime > m.lifetime_ceiling {
            Err(Error::ExceedsPeriodCap)
        } else {
            Ok(
                Mandate {
                    current_period: current as u64,
                    spent_in_period: spent as i128,
                    lifetime_spent: lifetime as i128,
                    ..m
                },
            )
        }
    }
}

/// The event announcing a charge of `amount` in `period` against mandate
/// `id` of `m`.
pub open spec fn spec_charged_event(id: u64, m: Mandate, amount: i128, period: u64) -> MandateCharged {
    MandateCharged { id, payer: m.payer, merchant: m.merchant, amount, period }
}

impl MandateContract {
    /// The account whose authorization a charge against `m` needs: the
    /// merchant's.
    pub fn charge_authorizer(m: &Mandate) -> (who: &String)
        ensures
            who == m.merchant,
    {
        &m.merchant
    }

    /// Charges `amount` at time `now` against mandate `id`, stored as `m`.
    /// Refuses a non-positive amount (`InvalidParams`), a mandate that is
    /// not active (`MandateNotActive`), a time at or after expiry
    /// (`MandateExpired`), and an amount that would take the current
    /// period's charges over the cap, or the total over the lifetime
    /// ceiling (`ExceedsPeriodCap`). On success the funds move from the
    /// payer to the merchant.
    pub fn charge(id: u64, m: Mandate, now: u64, amount: i128) -> (res: Result<Charged, Error>)
        requires
            spec_charge_defined(m, now, amount),
        ensures
            match spec_charge(m, now, amount) {
                Err(e) => res == Err::<Charged, Error>(e),
                Ok(after) => res matches Ok(c) && {
                    &&& c.mandate == after
                    &&& c.from == m.payer
                    &&& c.to == m.merchant
                    &&& c.amount == amount
                    &&& c.ttl_ledgers == spec_ttl_ledgers((m.expires_at - now) as u64)
                    &&& c.event == spec_charged_event(id, m, amount, after.current_period)
                },
            },
    {
        if amount <= 0 {
            return Err(Error::InvalidParams);
        }
        if m.status != MandateStatus::Active {
            return Err(Error::MandateNotActive);
        }
        if now >= m.expires_at {
            return Err(Error::MandateExpired);
        }
        let period: u64 = (now - m.start) / m.period_secs;
        let (current_period, spent_before): (u64, i128) = if period > m.current_period {
            (period, 0)
        } else {
            (m.current_period, m.spent_in_period)
        };
        let spent = match spent_before.checked_add(amount) {
            Some(s) => s,
            None => return Err(Error::ExceedsPeriodCap),
        };
        if spent > m.amount_per_period {
            return Err(Error::ExceedsPeriodCap);
        }
        let lifetime_spent = match m.lifetime_spent.checked_add(amount) {
            Some(s) => s,
            None => return Err(Error::ExceedsPeriodCap),
        };
        if lifetime_spent > m.lifetime_ceiling {
            return Err(Error::ExceedsPeriodCap);
        }
        let from = m.payer.clone();
        let to = m.merchant.clone();
        let event = MandateCharged {
            id,
            payer: m.payer.clone(),
            merchant: m.merchant.clone(),
            amount,
            period: current_period,
        };
        let ttl = ttl_ledgers(m.expires_at - now);
        let mandate = Mandate { current_period, spent_in_period: spent, lifetime_spent, ..m };
        Ok(Charged { mandate, from, to, amount, ttl_ledgers: ttl, event })
    }
}

/// Seconds a revoked mandate's storage entry is kept for: the buffer's
/// worth of ledgers.
pub open spec fn spec_revoked_horizon() -> int {
    LEDGER_BUFFER * LEDGER_SECS_ESTIMATE
}

/// The inputs on which a revocation stays within the arithmetic of the
/// ledger's integers: the unspent ceiling of a live grant must fit.
pub open spec fn spec_revoke_defined(m: Mandate, sequence: u32) -> bool {
    m.status == MandateStatus::Active && m.allowance_live_until > sequence ==> {
        i128::MIN <= m.lifetime_ceiling - m.lifetime_spent <= i128::MAX
    }
}

/// Mandate `m` once revoked.
pub open spec fn spec_revoked(m: Mandate) -> Mandate {
    Mandate { status: MandateStatus::Revoked, ..m }
}

/// A mandate's lifetime ceiling that has not been charged.
pub open spec fn spec_unspent(m: Mandate) -> int {
    m.lifetime_ceiling - m.lifetime_spent
}

/// The allowance left after releasing `unspent` from `existing`: never
/// below zero.
pub open spec fn spec_reduced_allowance(existing: int, unspent: int) -> int {
    if existing - unspent > 0 { existing - unspent } else { 0 }
}

impl MandateContract {
    /// The mandate stored under an id, or `MandateNotFound` where there is
    /// none.
    pub fn get_mandate(stored: Option<Mandate>) -> (res: Result<Mandate, Error>)
        ensures
            match stored {
                Some(m) => res == Ok::<Mandate, Error>(m),
                None => res == Err::<Mandate, Error>(Error::MandateNotFound),
            },
    {
        match stored {
            Some(m) => Ok(m),
            None => Err(Error::MandateNotFound),
        }
    }

    /// The account whose authorization a revocation of `m` needs: the
    /// payer's.
    pub fn revoke_authorizer(m: &Mandate) -> (who: &String)
        ensures
            who == m.payer,
    {
        &m.payer
    }

    /// Revokes mandate `id`, stored as `m`, at ledger `sequence`. Refuses a
    /// mandate that is not active (`MandateNotActive`). While the
    /// allowance's horizon is still ahead, the mandate's unspent lifetime
    /// ceiling is to be released from the payer's allowance, and nothing
    /// more: what the payer granted for other mandates stays.
    pub fn revoke(id: u64, m: Mandate, sequence: u32) -> (res: Result<Revoked, Error>)
        requires
            spec_revoke_defined(m, sequence),
        ensures
            m.status != MandateStatus::Active ==> res == Err::<Revoked, Error>(
                Error::MandateNotActive,
            ),
            m.status == MandateStatus::Active ==> (res matches Ok(r) && {
                &&& r.mandate == spec_revoked(m)
                &&& r.mandate.status == MandateStatus::Revoked
                &&& (Mandate { status: m.status, ..r.mandate }) == m
                &&& r.mandate.lifetime_spent == m.lifetime_spent
                &&& r.mandate.spent_in_period == m.spent_in_period
                &&& r.mandate.current_period == m.current_period
                &&& r.mandate.lifetime_ceiling == m.lifetime_ceiling
                &&& (r.release matches Some(u) ==> u == m.lifetime_ceiling - m.lifetime_spent)
                &&& (r.release is Some <==> m.allowance_live_until > sequence)
                &&& r.release == if m.allowance_live_until > sequence {
                    Some(spec_unspent(m) as i128)
                } else {
                    None
                }
                &&& r.ttl_ledgers == spec_ttl_ledgers(spec_revoked_horizon() as u64)
                &&& r.event == (MandateRevoked { id, payer: m.payer, merchant: m.merchant })
            }),
    {
        if m.status != MandateStatus::Active {
            return Err(Error::MandateNotActive);
        }
        let release = if m.allowance_live_until > sequence {
            Some(m.lifetime_ceiling - m.lifetime_spent)
        } else {
            None
        };
        let event = MandateRevoked { id, payer: m.payer.clone(), merchant: m.merchant.clone() };
        let ttl = ttl_ledgers(LEDGER_BUFFER * LEDGER_SECS_ESTIMATE);
        let mandate = Mandate { status: MandateStatus::Revoked, ..m };
        Ok(Revoked { mandate, release, ttl_ledgers: ttl, event })
    }

    /// The payer's allowance after releasing `unspent` from `existing`:
    /// their difference, clamped at zero.
    pub fn reduced_allowance(existing: i128, unspent: i128) -> (reduced: i128)
        requires
            i128::MIN <= existing - unspent <= i128::MAX,
        ensures
            reduced == spec_reduced_allowance(existing as int, unspent as int),
    {
        let diff = existing - unspent;
        if diff > 0 {
            diff
        } else {
            0
        }
    }
}

} // verus!
