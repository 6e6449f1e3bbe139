use vstd::prelude::*;

verus! {

/// Errors the mandate contract reports.
#[derive(Copy, Clone, Debug, PartialEq, Eq, Structural, PartialOrd, Ord)]
pub enum Error {
    MandateNotFound,
    MandateNotActive,
    MandateExpired,
    ExceedsPeriodCap,
    InvalidParams,
}

/// The numeric code under which each error is published: 1 to 5, in the
/// order of the variants.
pub open spec fn spec_error_code(e: Error) -> u32 {
    match e {
        Error::MandateNotFound => 1,
        Error::MandateNotActive => 2,
        Error::MandateExpired => 3,
        Error::ExceedsPeriodCap => 4,
        Error::InvalidParams => 5,
    }
}

impl Error {
    /// The error's published numeric code.
    pub fn code(self) -> (code: u32)
        ensures
            code == spec_error_code(self),
    {
        match self {
            Error::MandateNotFound => 1,
            Error::MandateNotActive => 2,
            Error::MandateExpired => 3,
            Error::ExceedsPeriodCap => 4,
            Error::InvalidParams => 5,
        }
    }

    /// The error published under `code`, if any.
    pub fn from_code(code: u32) -> (e: Option<Error>)
        ensures
            e matches Some(x) ==> spec_error_code(x) == code,
            e is None <==> (code < 1 || code > 5),
    {
        if code == 1 {
            Some(Error::MandateNotFound)
        } else if code == 2 {
            Some(Error::MandateNotActive)
        } else if code == 3 {
            Some(Error::MandateExpired)
        } else if code == 4 {
            Some(Error::ExceedsPeriodCap)
        } else if code == 5 {
            Some(Error::InvalidParams)
        } else {
            None
        }
    }
}

/// Lifecycle state of a mandate.
#[derive(Copy, Clone, Debug, PartialEq, Eq, Structural)]
pub enum MandateStatus {
    Active,
    Revoked,
}

/// A payer's standing authorization for a merchant to pull up to
/// `amount_per_period` of `token` each period until `expires_at`.
///
/// Accounts and the token contract are held by their strkeys (`G...`,
/// `C...`), under which two addresses are equal exactly when their strkeys
/// are.
#[derive(Clone, Debug, PartialEq, Eq)]
pub struct Mandate {
    /// Who pays. Authorizes creation and revocation.
    pub payer: String,
    /// Who receives. Authorizes each charge.
    pub merchant: String,
    /// The token contract the mandate is denominated in.
    pub token: String,
    /// Maximum total amount chargeable per period.
    pub amount_per_period: i128,
    /// Period length in seconds.
    pub period_secs: u64,
    /// Unix timestamp of creation; periods are indexed from here.
    pub start: u64,
    /// Unix timestamp from which no further charges are allowed.
    pub expires_at: u64,
    /// Amount already charged in `current_period`.
    pub spent_in_period: i128,
    /// Index of the period the accounting currently refers to.
    pub current_period: u64,
    /// Ledger sequence until which the token allowance stays live.
    pub allowance_live_until: u32,
    /// Total chargeable over the mandate's whole life.
    pub lifetime_ceiling: i128,
    /// Total charged so far across all periods.
    pub lifetime_spent: i128,
    pub status: MandateStatus,
}

/// Emitted when a mandate is created.
#[derive(Clone, Debug, PartialEq, Eq)]
pub struct MandateCreated {
    pub id: u64,
    pub payer: String,
    pub merchant: String,
    pub token: String,
    pub amount_per_period: i128,
    pub period_secs: u64,
    pub expires_at: u64,
}

/// Emitted on every successful charge.
#[derive(Clone, Debug, PartialEq, Eq)]
pub struct MandateCharged {
    pub id: u64,
    pub payer: String,
    pub merchant: String,
    pub amount: i128,
    pub period: u64,
}

/// Emitted when a mandate is revoked by its payer.
#[derive(Clone, Debug, PartialEq, Eq)]
pub struct MandateRevoked {
    pub id: u64,
    pub payer: String,
    pub merchant: String,
}

/// What the contract reads of the ledger it runs on.
#[derive(Copy, Clone, Debug, PartialEq, Eq, Structural)]
pub struct LedgerInfo {
    /// Close time of the ledger, in Unix seconds.
    pub timestamp: u64,
    /// Sequence number of the ledger.
    pub sequence: u32,
}

} // verus!
