//! Accounting core of a custodial lottery round manager.
//!
//! A round is configured once by its authority (`initialize`) and then
//! accumulates deposits (`deposit`) until its end time passes. The host
//! environment (ledger, clock, signature checks, fund custody) supplies the
//! current time, the caller's identity and the amount of funds actually
//! moved; this crate holds the validation rules and the bookkeeping, and
//! proves that accepted deposits accumulate exactly, that every rejection
//! leaves the record unchanged, and that the running total never overflows
//! or wraps.

use vstd::prelude::*;

verus! {

/// An identity key, held as four 64-bit words (256 bits in all). The
/// accounting logic only ever compares identities for equality; the host
/// environment converts its native key type to and from these words.
#[derive(Clone, Copy, PartialEq, Eq, Structural, Debug)]
pub struct Identity {
    pub w0: u64,
    pub w1: u64,
    pub w2: u64,
    pub w3: u64,
}

/// Why a call was rejected. Every rejection leaves the record unchanged.
#[derive(Clone, Copy, PartialEq, Eq, Structural, Debug)]
pub enum LotteryError {
    /// `initialize` rejected the configuration: the two fee splits do not
    /// sum to exactly 10,000 basis points.
    InvalidSplits,
    /// `deposit` arrived after the round's end time.
    RoundClosed,
    /// `deposit` was presented with an identity other than the record's
    /// stored authority.
    Unauthorized,
    /// Accepting the deposit would push the cumulative total past the
    /// unsigned 64-bit maximum; the call aborts rather than wrap.
    Overflow,
}

/// The persistent record of one lottery deployment: round timing, pricing,
/// fee splits, and the cumulative total deposited in the current round.
#[derive(Clone, Copy, PartialEq, Eq, Structural, Debug)]
pub struct Lottery {
    /// Exclusive owner of the record; deposits must carry this identity.
    pub authority: Identity,
    /// Price of one ticket, in base currency units.
    pub ticket_price: u64,
    /// Length of each round, in seconds.
    pub round_duration: i64,
    /// Basis points (of 10,000) routed to the ticket-purchase pool.
    pub purchase_bps: u16,
    /// Basis points routed to the owner pool.
    pub owner_bps: u16,
    /// Current round number; the first round is round 1.
    pub round: u64,
    /// Timestamp at which the current round started.
    pub round_start: i64,
    /// Timestamp after which deposits are rejected.
    pub round_end: i64,
    /// Cumulative funds deposited in the current round.
    pub deposited: u64,
}

/// A fee configuration is valid exactly when the two splits sum to
/// 10,000 basis points.
pub open spec fn valid_splits(purchase_bps: u16, owner_bps: u16) -> bool {
    purchase_bps + owner_bps == 10000
}

/// The record that `initialize` creates from a valid configuration: the
/// first round, starting now, ending one duration later, with nothing
/// deposited yet.
pub open spec fn fresh_round(
    authority: Identity,
    ticket_price: u64,
    round_duration: i64,
    purchase_bps: u16,
    owner_bps: u16,
    now: i64,
) -> Lottery {
    Lottery {
        authority,
        ticket_price,
        round_duration,
        purchase_bps,
        owner_bps,
        round: 1,
        round_start: now,
        round_end: (now + round_duration) as i64,
        deposited: 0,
    }
}

/// The record after one accepted deposit of `amount`: only the cumulative
/// total moves.
pub open spec fn deposit_update(lot: Lottery, amount: u64) -> Lottery {
    Lottery { deposited: (lot.deposited + amount) as u64, ..lot }
}

impl Lottery {
    /// Well-formedness: the fee splits sum to 10,000 basis points and the
    /// end of the round lies one duration after its start. `initialize`
    /// establishes this and `deposit` preserves it.
    pub open spec fn wf(self) -> bool {
        &&& valid_splits(self.purchase_bps, self.owner_bps)
        &&& self.round_end == self.round_start + self.round_duration
    }

    /// Whether a deposit arriving at time `now` is still in time: the round
    /// stays open through `round_end` itself.
    pub open spec fn open_at(self, now: i64) -> bool {
        now <= self.round_end
    }
}

/// Create and configure the record for a new lottery: the caller becomes its
/// authority, the first round starts at `now` and runs for `round_duration`
/// seconds, and the cumulative total starts at zero. Rejects, creating
/// nothing, exactly those configurations whose fee splits do not sum to
/// 10,000 basis points.
pub fn initialize(
    authority: Identity,
    ticket_price: u64,
    round_duration: i64,
    purchase_bps: u16,
    owner_bps: u16,
    now: i64,
) -> (r: Result<Lottery, LotteryError>)
    requires
        i64::MIN <= now + round_duration <= i64::MAX,
    ensures
        r is Ok <==> valid_splits(purchase_bps, owner_bps),
        r is Ok ==> r->Ok_0 == fresh_round(
            authority,
            ticket_price,
            round_duration,
            purchase_bps,
            owner_bps,
            now,
        ),
        r is Ok ==> r->Ok_0.wf(),
        r is Err ==> r->Err_0 == LotteryError::InvalidSplits,
{
    if purchase_bps as u32 + owner_bps as u32 != 10000 {
        return Err(LotteryError::InvalidSplits);
    }
    Ok(Lottery {
        authority,
        ticket_price,
        round_duration,
        purchase_bps,
        owner_bps,
        round: 1,
        round_start: now,
        round_end: now + round_duration,
        deposited: 0,
    })
}

/// Record a deposit of `amount` made at time `now` by `caller`. Accepted
/// exactly when the caller is the record's authority, the round is still
/// open, and the new total fits in 64 bits; then the amount is added to the
/// cumulative total and nothing else moves. Every rejection names its
/// reason and leaves the record exactly as it was.
pub fn deposit(
    lot: &mut Lottery,
    caller: Identity,
    amount: u64,
    now: i64,
) -> (r: Result<(), LotteryError>)
    ensures
        r is Ok <==> {
            &&& caller == old(lot).authority
            &&& old(lot).open_at(now)
            &&& old(lot).deposited + amount <= u64::MAX
        },
        r is Ok ==> *final(lot) == deposit_update(*old(lot), amount),
        r is Err ==> *final(lot) == *old(lot),
        caller != old(lot).authority ==> r == Err::<(), LotteryError>(
            LotteryError::Unauthorized,
        ),
        caller == old(lot).authority && !old(lot).open_at(now) ==> r == Err::<
            (),
            LotteryError,
        >(LotteryError::RoundClosed),
        caller == old(lot).authority && old(lot).open_at(now) && old(lot).deposited + amount
            > u64::MAX ==> r == Err::<(), LotteryError>(LotteryError::Overflow),
        final(lot).deposited >= old(lot).deposited,
        old(lot).wf() ==> final(lot).wf(),
{
    if caller != lot.authority {
        return Err(LotteryError::Unauthorized);
    }
    if now > lot.round_end {
        return Err(LotteryError::RoundClosed);
    }
    match lot.deposited.checked_add(amount) {
        Some(total) => {
            lot.deposited = total;
            Ok(())
        },
        None => Err(LotteryError::Overflow),
    }
}

/// The number of whole tickets the current total pays for. Tickets are a
/// derived, read-time value: `deposit` never stores them.
pub fn tickets(lot: &Lottery) -> (t: u64)
    requires
        lot.ticket_price > 0,
    ensures
        t == lot.deposited / lot.ticket_price,
{
    lot.deposited / lot.ticket_price
}

/// Whether a deposit arriving at time `now` would still be in time.
pub fn is_open(lot: &Lottery, now: i64) -> (b: bool)
    ensures
        b == lot.open_at(now),
{
    now <= lot.round_end
}

/// The sum of a sequence of deposit amounts, as a mathematical integer.
pub open spec fn sum_of(amounts: Seq<u64>) -> int
    decreases amounts.len(),
{
    if amounts.len() == 0 {
        0
    } else {
        sum_of(amounts.drop_last()) + amounts.last()
    }
}

/// The record after a whole sequence of accepted deposits.
pub open spec fn run_deposits(lot: Lottery, amounts: Seq<u64>) -> Lottery
    decreases amounts.len(),
{
    if amounts.len() == 0 {
        lot
    } else {
        deposit_update(run_deposits(lot, amounts.drop_last()), amounts.last())
    }
}

/// A sum of deposit amounts is never negative.
proof fn lemma_sum_of_nonneg(amounts: Seq<u64>)
    ensures
        sum_of(amounts) >= 0,
    decreases amounts.len(),
{
    if amounts.len() > 0 {
        lemma_sum_of_nonneg(amounts.drop_last());
    }
}

/// Law: accepted deposits accumulate exactly. For any sequence of accepted
/// deposits `a1, ..., an`, the final cumulative total equals the starting
/// total plus the exact sum `a1 + ... + an` — no loss, no duplication —
/// provided that sum does not exceed the unsigned 64-bit maximum. Each
/// accepted call moves the record by `deposit_update`, as the contract of
/// `deposit` states, so this covers any run of accepted calls.
pub proof fn lemma_deposits_accumulate(lot: Lottery, amounts: Seq<u64>)
    requires
        lot.deposited + sum_of(amounts) <= u64::MAX,
    ensures
        run_deposits(lot, amounts).deposited == lot.deposited + sum_of(amounts),
    decreases amounts.len(),
{
    if amounts.len() > 0 {
        lemma_sum_of_nonneg(amounts.drop_last());
        lemma_deposits_accumulate(lot, amounts.drop_last());
    }
}

/// Law: a run of accepted deposits touches nothing but the cumulative
/// total; the authority, pricing, splits and round timing all stand as
/// they were, and well-formedness is preserved.
pub proof fn lemma_deposits_preserve_config(lot: Lottery, amounts: Seq<u64>)
    ensures
        run_deposits(lot, amounts) == (Lottery {
            deposited: run_deposits(lot, amounts).deposited,
            ..lot
        }),
        lot.wf() ==> run_deposits(lot, amounts).wf(),
    decreases amounts.len(),
{
    if amounts.len() > 0 {
        lemma_deposits_preserve_config(lot, amounts.drop_last());
    }
}

} // verus!

