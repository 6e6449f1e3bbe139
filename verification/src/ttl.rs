use vstd::prelude::*;

verus! {

/// Approximate seconds per ledger.
pub const LEDGER_SECS_ESTIMATE: u64 = 5;

/// Safety buffer (in ledgers) added on top of an estimated expiry: about a day.
pub const LEDGER_BUFFER: u64 = 17_280;

/// Network maximum entry TTL, in ledgers (about a year).
pub const MAX_TTL_LEDGERS: u64 = 6_311_000;

/// Ledger count that covers `secs` seconds of wall-clock time plus the buffer,
/// before clamping.
pub open spec fn spec_unclamped_ledgers(secs: u64) -> int {
    secs as int / LEDGER_SECS_ESTIMATE as int + LEDGER_BUFFER as int
}

/// Wall-clock seconds to a ledger count, with the buffer, clamped to the
/// network maximum entry TTL.
pub open spec fn spec_ttl_ledgers(secs: u64) -> int {
    let l = spec_unclamped_ledgers(secs);
    if l < MAX_TTL_LEDGERS as int { l } else { MAX_TTL_LEDGERS as int }
}

/// Wall-clock seconds to a ledger count, with a one-day buffer, clamped to
/// the network maximum entry TTL.
pub fn ttl_ledgers(secs: u64) -> (ledgers: u32)
    ensures
        ledgers == spec_ttl_ledgers(secs),
{
    let ledgers: u64 = secs / LEDGER_SECS_ESTIMATE + LEDGER_BUFFER;
    let clamped: u64 = if ledgers < MAX_TTL_LEDGERS { ledgers } else { MAX_TTL_LEDGERS };
    clamped as u32
}

} // verus!
