//! The contract's scenarios, run against a real token contract: a small
//! host below plays the part of the contract's shell, reading the ledger and
//! the token, asking the library for each decision and carrying it out.

use std::cell::RefCell;
use std::collections::BTreeMap;

use paymandate_mandate::contract::MandateContract;
use paymandate_mandate::types::{Error, LedgerInfo, Mandate, MandateStatus};
use soroban_sdk::testutils::{Address as _, EnvTestConfig, Ledger};
use soroban_sdk::token::{StellarAssetClient, TokenClient};
use soroban_sdk::{Address, Env};

/// 30 days in seconds.
const PERIOD: u64 = 2_592_000;
/// One whole token unit at 7 decimals (1 USDC).
const ONE: i128 = 10_000_000;
/// 100 USDC per period.
const CAP: i128 = 100 * ONE;
/// Test epoch.
const T0: u64 = 1_700_000_000;
/// Test ledger sequence at T0.
const SEQ0: u32 = 100;
/// Allowance expiry ledger passed by the client.
const LIVE_UNTIL: u32 = SEQ0 + 1_600_000;

fn strkey(a: &Address) -> String {
    let s = a.to_string();
    let mut buf = vec![0u8; s.len() as usize];
    s.copy_into_slice(&mut buf);
    String::from_utf8(buf).unwrap()
}

struct Setup<'a> {
    env: Env,
    contract: Address,
    payer: Address,
    merchant: Address,
    token: TokenClient<'a>,
    token_address: Address,
    mandates: RefCell<BTreeMap<u64, Mandate>>,
    next_id: RefCell<Option<u64>>,
    last_auths: RefCell<Vec<String>>,
}

impl<'a> Setup<'a> {
    fn ledger(&self) -> LedgerInfo {
        LedgerInfo { timestamp: self.env.ledger().timestamp(), sequence: self.env.ledger().sequence() }
    }

    fn address(&self, key: &str) -> Address {
        Address::from_str(&self.env, key)
    }

    #[allow(clippy::too_many_arguments)]
    fn try_create(
        &self,
        payer: &Address,
        merchant: &Address,
        token: &Address,
        amount_per_period: &i128,
        period_secs: &u64,
        expires_at: &u64,
        allowance_live_until: &u32,
    ) -> Result<u64, Error> {
        *self.last_auths.borrow_mut() = vec![strkey(payer)];
        let proposal = MandateContract::create(
            self.ledger(),
            strkey(payer),
            strkey(merchant),
            strkey(token),
            *amount_per_period,
            *period_secs,
            *expires_at,
            *allowance_live_until,
        )?;
        let existing = self.token.allowance(payer, &self.contract);
        let stored = *self.next_id.borrow();
        assert!(stored.unwrap_or(0) < u64::MAX);
        let created = MandateContract::fund(proposal, existing, stored)?;
        self.token.approve(
            payer,
            &self.contract,
            &created.allowance,
            &created.mandate.allowance_live_until,
        );
        *self.next_id.borrow_mut() = Some(created.next_id);
        self.mandates.borrow_mut().insert(created.id, created.mandate);
        Ok(created.id)
    }

    fn try_get_mandate(&self, id: &u64) -> Result<Mandate, Error> {
        MandateContract::get_mandate(self.mandates.borrow().get(id).cloned())
    }

    fn get_mandate(&self, id: &u64) -> Mandate {
        self.try_get_mandate(id).unwrap()
    }

    fn try_charge(&self, id: &u64, amount: &i128) -> Result<(), Error> {
        let m = self.try_get_mandate(id)?;
        *self.last_auths.borrow_mut() = vec![MandateContract::charge_authorizer(&m).clone()];
        let now = self.env.ledger().timestamp();
        if *amount > 0 && m.status == MandateStatus::Active && now < m.expires_at {
            assert!(m.period_secs > 0 && m.start <= now);
        }
        let charged = MandateContract::charge(*id, m, now, *amount)?;
        self.token.transfer_from(
            &self.contract,
            &self.address(&charged.from),
            &self.address(&charged.to),
            &charged.amount,
        );
        self.mandates.borrow_mut().insert(*id, charged.mandate);
        Ok(())
    }

    fn charge(&self, id: &u64, amount: &i128) {
        self.try_charge(id, amount).unwrap()
    }

    fn try_revoke(&self, id: &u64) -> Result<(), Error> {
        let m = self.try_get_mandate(id)?;
        *self.last_auths.borrow_mut() = vec![MandateContract::revoke_authorizer(&m).clone()];
        let payer = self.address(&m.payer);
        let revoked = MandateContract::revoke(*id, m, self.env.ledger().sequence())?;
        if let Some(unspent) = revoked.release {
            let existing = self.token.allowance(&payer, &self.contract);
            let reduced = MandateContract::reduced_allowance(existing, unspent);
            self.token.approve(
                &payer,
                &self.contract,
                &reduced,
                &revoked.mandate.allowance_live_until,
            );
        }
        self.mandates.borrow_mut().insert(*id, revoked.mandate);
        Ok(())
    }

    fn revoke(&self, id: &u64) {
        self.try_revoke(id).unwrap()
    }
}

fn setup() -> Setup<'static> {
    // The ledger state is checked here, not kept as a snapshot on disk.
    let env = Env::new_with_config(EnvTestConfig { capture_snapshot_at_drop: false });
    env.mock_all_auths();
    env.ledger().with_mut(|li| {
        li.timestamp = T0;
        li.sequence_number = SEQ0;
    });

    let contract = Address::generate(&env);
    let admin = Address::generate(&env);
    let sac = env.register_stellar_asset_contract_v2(admin);
    let token = TokenClient::new(&env, &sac.address());
    let token_admin = StellarAssetClient::new(&env, &sac.address());

    let payer = Address::generate(&env);
    let merchant = Address::generate(&env);
    // Fund the payer with 10,000 USDC.
    token_admin.mint(&payer, &(10_000 * ONE));

    Setup {
        token_address: sac.address(),
        env,
        contract,
        payer,
        merchant,
        token,
        mandates: RefCell::new(BTreeMap::new()),
        next_id: RefCell::new(None),
        last_auths: RefCell::new(Vec::new()),
    }
}

/// Create a 3-period mandate expiring exactly at T0 + 3 * PERIOD.
fn create_default(s: &Setup) -> u64 {
    s.try_create(
        &s.payer,
        &s.merchant,
        &s.token_address,
        &CAP,
        &PERIOD,
        &(T0 + 3 * PERIOD),
        &LIVE_UNTIL,
    )
    .unwrap()
}

// ---------------------------------------------------------------- create ---

#[test]
fn create_stores_mandate_and_returns_sequential_ids() {
    let s = setup();
    let id0 = create_default(&s);
    let id1 = create_default(&s);
    assert_eq!(id0, 0);
    assert_eq!(id1, 1);

    let m = s.get_mandate(&id0);
    assert_eq!(m.payer, strkey(&s.payer));
    assert_eq!(m.merchant, strkey(&s.merchant));
    assert_eq!(m.token, strkey(&s.token_address));
    assert_eq!(m.amount_per_period, CAP);
    assert_eq!(m.period_secs, PERIOD);
    assert_eq!(m.start, T0);
    assert_eq!(m.expires_at, T0 + 3 * PERIOD);
    assert_eq!(m.spent_in_period, 0);
    assert_eq!(m.current_period, 0);
    assert_eq!(m.status, MandateStatus::Active);
}

#[test]
fn create_grants_allowance_covering_full_lifetime() {
    let s = setup();
    let _ = create_default(&s);
    // 3 periods × CAP — the "sign once" ceiling.
    assert_eq!(s.token.allowance(&s.payer, &s.contract), 3 * CAP);
}

#[test]
fn create_second_mandate_accumulates_allowance_instead_of_overwriting() {
    let s = setup();
    let _ = create_default(&s);
    let _ = create_default(&s);
    assert_eq!(s.token.allowance(&s.payer, &s.contract), 6 * CAP);
}

#[test]
fn revoke_after_charge_releases_exactly_the_unspent_ceiling() {
    let s = setup();
    let id = create_default(&s);
    s.charge(&id, &(30 * ONE));
    assert_eq!(s.token.allowance(&s.payer, &s.contract), 3 * CAP - 30 * ONE);

    s.revoke(&id);

    assert_eq!(s.token.allowance(&s.payer, &s.contract), 0);
}

#[test]
fn create_records_payer_auth() {
    let s = setup();
    let _ = create_default(&s);
    let auths = s.last_auths.borrow();
    assert!(!auths.is_empty());
    assert_eq!(auths[0], strkey(&s.payer));
}

#[test]
fn create_rejects_zero_amount() {
    let s = setup();
    let r = s.try_create(&s.payer, &s.merchant, &s.token_address, &0, &PERIOD, &(T0 + PERIOD), &LIVE_UNTIL);
    assert_eq!(r, Err(Error::InvalidParams));
}

#[test]
fn create_rejects_zero_period() {
    let s = setup();
    let r = s.try_create(&s.payer, &s.merchant, &s.token_address, &CAP, &0, &(T0 + PERIOD), &LIVE_UNTIL);
    assert_eq!(r, Err(Error::InvalidParams));
}

#[test]
fn create_rejects_expiry_not_in_future() {
    let s = setup();
    let r = s.try_create(&s.payer, &s.merchant, &s.token_address, &CAP, &PERIOD, &T0, &LIVE_UNTIL);
    assert_eq!(r, Err(Error::InvalidParams));
}

#[test]
fn create_rejects_allowance_expiry_at_or_before_current_ledger() {
    let s = setup();
    let r = s.try_create(&s.payer, &s.merchant, &s.token_address, &CAP, &PERIOD, &(T0 + PERIOD), &SEQ0);
    assert_eq!(r, Err(Error::InvalidParams));
}

#[test]
fn create_rejects_payer_as_merchant() {
    let s = setup();
    let r = s.try_create(&s.payer, &s.payer, &s.token_address, &CAP, &PERIOD, &(T0 + PERIOD), &LIVE_UNTIL);
    assert_eq!(r, Err(Error::InvalidParams));
    assert_eq!(s.token.allowance(&s.payer, &s.contract), 0);
}

// ---------------------------------------------------------------- charge ---

#[test]
fn charge_within_cap_moves_funds_payer_to_merchant() {
    let s = setup();
    let id = create_default(&s);

    s.charge(&id, &(30 * ONE));

    assert_eq!(s.token.balance(&s.payer), 10_000 * ONE - 30 * ONE);
    assert_eq!(s.token.balance(&s.merchant), 30 * ONE);
    assert_eq!(s.get_mandate(&id).spent_in_period, 30 * ONE);
}

#[test]
fn charge_records_merchant_auth() {
    let s = setup();
    let id = create_default(&s);
    s.charge(&id, &ONE);
    let auths = s.last_auths.borrow();
    assert!(!auths.is_empty());
    assert_eq!(auths[0], strkey(&s.merchant));
}

#[test]
fn charge_accumulates_and_rejects_beyond_cap_in_same_period() {
    let s = setup();
    let id = create_default(&s);

    s.charge(&id, &(60 * ONE));
    s.charge(&id, &(40 * ONE)); // exactly reaches CAP

    let r = s.try_charge(&id, &1);
    assert_eq!(r, Err(Error::ExceedsPeriodCap));
}

#[test]
fn charge_cap_resets_at_period_rollover() {
    let s = setup();
    let id = create_default(&s);

    s.charge(&id, &CAP); // fill period 0

    // Move into period 1.
    s.env.ledger().with_mut(|li| li.timestamp = T0 + PERIOD);
    s.charge(&id, &CAP); // full cap available again

    assert_eq!(s.token.balance(&s.merchant), 2 * CAP);
    let m = s.get_mandate(&id);
    assert_eq!(m.current_period, 1);
    assert_eq!(m.spent_in_period, CAP);
}

#[test]
fn charge_skipped_periods_do_not_accumulate() {
    let s = setup();
    let id = create_default(&s);

    // Jump straight into period 2 without charging periods 0 and 1.
    s.env.ledger().with_mut(|li| li.timestamp = T0 + 2 * PERIOD);

    s.charge(&id, &CAP); // current period's cap: fine
    let r = s.try_charge(&id, &1); // no catch-up room from skipped periods
    assert_eq!(r, Err(Error::ExceedsPeriodCap));
}

#[test]
fn charge_fails_after_expiry() {
    let s = setup();
    let id = create_default(&s);

    s.env.ledger().with_mut(|li| li.timestamp = T0 + 3 * PERIOD); // == expires_at
    let r = s.try_charge(&id, &ONE);
    assert_eq!(r, Err(Error::MandateExpired));
}

#[test]
fn charge_rejects_non_positive_amount() {
    let s = setup();
    let id = create_default(&s);
    assert_eq!(s.try_charge(&id, &0), Err(Error::InvalidParams));
    assert_eq!(s.try_charge(&id, &-5), Err(Error::InvalidParams));
}

#[test]
fn charge_fails_for_unknown_mandate() {
    let s = setup();
    let r = s.try_charge(&999, &1);
    assert_eq!(r, Err(Error::MandateNotFound));
}

#[test]
fn charge_refused_leaves_accounting_and_balances_unchanged() {
    let s = setup();
    let id = create_default(&s);
    s.charge(&id, &(70 * ONE));
    let before = s.get_mandate(&id);
    assert_eq!(s.try_charge(&id, &(31 * ONE)), Err(Error::ExceedsPeriodCap));
    assert_eq!(s.get_mandate(&id), before);
    assert_eq!(s.token.balance(&s.merchant), 70 * ONE);
}

// ---------------------------------------------------------------- revoke ---

#[test]
fn revoke_blocks_future_charges() {
    let s = setup();
    let id = create_default(&s);

    s.revoke(&id);

    assert_eq!(s.get_mandate(&id).status, MandateStatus::Revoked);
    let r = s.try_charge(&id, &ONE);
    assert_eq!(r, Err(Error::MandateNotActive));
}

#[test]
fn revoke_zeroes_remaining_allowance() {
    let s = setup();
    let id = create_default(&s);
    assert!(s.token.allowance(&s.payer, &s.contract) > 0);

    s.revoke(&id);

    assert_eq!(s.token.allowance(&s.payer, &s.contract), 0);
}

#[test]
fn revoke_fails_for_unknown_mandate() {
    let s = setup();
    let r = s.try_revoke(&999);
    assert_eq!(r, Err(Error::MandateNotFound));
}

#[test]
fn revoke_twice_is_refused() {
    let s = setup();
    let id = create_default(&s);
    s.revoke(&id);
    assert_eq!(s.try_revoke(&id), Err(Error::MandateNotActive));
}

#[test]
fn revoke_leaves_other_mandates_allowance() {
    let s = setup();
    let first = create_default(&s);
    let second = create_default(&s);
    s.charge(&second, &(10 * ONE));
    s.revoke(&first);
    assert_eq!(s.token.allowance(&s.payer, &s.contract), 3 * CAP - 10 * ONE);
    s.charge(&second, &(90 * ONE));
    assert_eq!(s.token.balance(&s.merchant), CAP);
}

#[test]
fn revoke_records_payer_auth() {
    let s = setup();
    let id = create_default(&s);
    s.revoke(&id);
    assert_eq!(s.last_auths.borrow()[0], strkey(&s.payer));
}

// ----------------------------------------------------------------- query ---

#[test]
fn get_mandate_fails_for_unknown_id() {
    let s = setup();
    let r = s.try_get_mandate(&42);
    assert_eq!(r, Err(Error::MandateNotFound));
}
