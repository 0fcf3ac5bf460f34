use vstd::prelude::*;
use crate::business::compact_time;
use crate::config::{AUTO_CLAIM_COST, CLAIM_EARNINGS_FEE_PERCENT, EARNINGS_INTERVAL};
use crate::error::GameError;
use crate::business::clamp_u64;
use crate::player::{PlayerCompact, OwnerKey, claim_sum, slot_claim, stamped_slot};
use crate::slot::BusinessSlotCompact;

verus! {

broadcast use vstd::array::group_array_axioms;

/// How a claim's gross amount divides between the claim fee and what the
/// owner receives.
#[derive(Clone, Copy, Debug, PartialEq, Eq, Structural)]
pub struct ClaimSettlement {
    pub gross_amount: u64,
    pub fee_amount: u64,
    pub net_amount: u64,
}

/// The claim fee on a gross amount: its configured percentage, truncated.
pub open spec fn claim_fee(gross: int) -> int {
    gross * CLAIM_EARNINGS_FEE_PERCENT as int / 100
}

/// The settlement of a claim of `gross`.
pub open spec fn settlement_of(gross: u64) -> ClaimSettlement {
    ClaimSettlement {
        gross_amount: gross,
        fee_amount: claim_fee(gross as int) as u64,
        net_amount: (gross - claim_fee(gross as int)) as u64,
    }
}

/// The outcome of a claim at `now` on `p`, with `treasury_balance` available
/// to pay it.
pub open spec fn claim_outcome(p: PlayerCompact, now: int, treasury_balance: int) -> Result<
    ClaimSettlement,
    GameError,
> {
    if !p.claim_allowed(now) {
        Err(GameError::ClaimTooEarly)
    } else if p.total_claimable(now) == 0 {
        Err(GameError::NoEarnings)
    } else if treasury_balance < p.total_claimable(now) {
        Err(GameError::InsufficientFunds)
    } else {
        Ok(settlement_of(p.total_claimable(now) as u64))
    }
}

/// Splits a gross claim into the fee and the net amount paid out.
pub fn split_claim(gross_amount: u64) -> (r: ClaimSettlement)
    ensures
        r == settlement_of(gross_amount),
        r.fee_amount + r.net_amount == gross_amount,
{
    let gross = gross_amount as u128;
    let percent = CLAIM_EARNINGS_FEE_PERCENT as u128;
    proof {
        assert(gross * percent <= gross * 100 && gross * percent / 100 <= gross) by (nonlinear_arith)
            requires percent == 2u128, gross >= 0;
    }
    let fee = (gross * percent / 100) as u64;
    ClaimSettlement { gross_amount, fee_amount: fee, net_amount: gross_amount - fee }
}

/// A claim at `current_time`: refused without entitlement until a day has
/// passed since the latest claim, refused when nothing has accrued or when
/// the treasury cannot pay; otherwise records the claim on the ledger and
/// returns how the amount divides between fee and owner.
pub fn claim_earnings(player: &mut PlayerCompact, current_time: i64, treasury_balance: u64) -> (r:
    Result<ClaimSettlement, GameError>)
    ensures
        r == claim_outcome(*old(player), current_time as int, treasury_balance as int),
        r is Err ==> *final(player) == *old(player),
        r is Ok ==> old(player).claimed_into(
            *final(player),
            old(player).total_claimable(current_time as int),
            current_time as int,
        ),
        !old(player).auto_claim_purchased ==> (r == Err::<ClaimSettlement, GameError>(
            GameError::ClaimTooEarly,
        ) <==> current_time - old(player).latest_claim_time() < EARNINGS_INTERVAL),
{
    if !player.can_claim_without_auto(current_time) {
        return Err(GameError::ClaimTooEarly);
    }
    let claimable_amount = match player.get_claimable_amount(current_time) {
        Ok(a) => a,
        Err(e) => return Err(e),
    };
    if claimable_amount == 0 {
        return Err(GameError::NoEarnings);
    }
    if treasury_balance < claimable_amount {
        return Err(GameError::InsufficientFunds);
    }
    let settlement = split_claim(claimable_amount);
    match player.process_claim(claimable_amount, current_time) {
        Ok(()) => {},
        Err(e) => return Err(e),
    }
    Ok(settlement)
}

/// Buys the auto-accrual entitlement for `player`, returning its price for
/// the transfer; refused when it was bought already.
pub fn purchase_auto_claim(player: &mut PlayerCompact) -> (r: Result<u64, GameError>)
    ensures
        old(player).auto_claim_purchased ==> r == Err::<u64, GameError>(GameError::AlreadyPurchased),
        !old(player).auto_claim_purchased ==> r == Ok::<u64, GameError>(AUTO_CLAIM_COST),
        *final(player) == old(player).after_purchase(),
{
    match player.purchase_auto_claim() {
        Ok(()) => Ok(AUTO_CLAIM_COST),
        Err(e) => Err(e),
    }
}

/// Whether an owner key is the blank key of a ledger never created.
pub open spec fn is_blank(k: OwnerKey) -> bool {
    forall|i: int| 0 <= i < 32 ==> #[trigger] k@[i] == 0
}

/// A new ledger for `owner`, with its entry fee marked paid; refused when the
/// account already holds a ledger, that is when `existing_owner` is not blank.
pub fn create_player(existing_owner: &OwnerKey, owner: OwnerKey, bump: u8, current_time: i64) -> (r:
    Result<PlayerCompact, GameError>)
    ensures
        !is_blank(*existing_owner) ==> r == Err::<PlayerCompact, GameError>(
            GameError::PlayerAlreadyExists,
        ),
        is_blank(*existing_owner) ==> r is Ok,
        r matches Ok(p) ==> {
            &&& p.wf()
            &&& p.owner == owner
            &&& p.bump == bump
            &&& p.paid_entry()
            &&& !p.auto_claim_purchased
            &&& p.total_invested == 0 && p.total_earned == 0
            &&& p.total_upgrade_spent == 0 && p.total_slot_spent == 0
            &&& p.created_at == compact_time(current_time as int)
            &&& forall|i: int| 0 <= i < 9 ==> #[trigger] p.business_slots@[i].business is None
        },
{
    let mut i: usize = 0;
    while i < 32
        invariant
            0 <= i <= 32,
            forall|j: int| 0 <= j < i ==> #[trigger] existing_owner@[j] == 0,
        decreases 32 - i,
    {
        if existing_owner[i] != 0 {
            return Err(GameError::PlayerAlreadyExists);
        }
        i = i + 1;
    }
    let mut player = PlayerCompact::new(owner, bump, current_time);
    player.set_has_paid_entry(true);
    Ok(player)
}

/// Runs the ledger's health check.
pub fn health_check_player(player: &PlayerCompact, current_time: i64) -> (r: Result<(), GameError>)
    ensures
        r is Ok,
{
    player.health_check(current_time)
}

/// Sum over the first `n` slots of what each held business earns over
/// `seconds` seconds, with the slot's bonus.
pub open spec fn window_sum(slots: Seq<BusinessSlotCompact>, seconds: int, n: int) -> int
    decreases n,
{
    if n <= 0 {
        0
    } else {
        window_sum(slots, seconds, n - 1) + match slots[n - 1].business {
            Some(b) => slots[n - 1].applied(b.period_earnings(seconds)),
            None => 0,
        }
    }
}

/// For an entitled owner, claims at `now1` and then at `now2` accrue over
/// windows that meet at `now1`: each held business's first window runs from
/// its start time up to `now1`, and after the claim its window starts at
/// `now1`, so the second claim pays each business for exactly `now2 - now1`
/// seconds, and nothing more.
pub proof fn lemma_claim_windows_abut(
    p: PlayerCompact,
    q: PlayerCompact,
    amount: int,
    now1: int,
    now2: int,
)
    requires
        p.auto_claim_purchased,
        p.claimed_into(q, amount, now1),
        0 < now1 <= u32::MAX,
        forall|i: int|
            0 <= i < 9 ==> (#[trigger] p.business_slots@[i].business matches Some(b) ==> {
                &&& b.purchased_at <= now1
                &&& b.last_claim_at matches Some(t) ==> t <= now1
            }),
    ensures
        q.auto_claim_purchased,
        forall|i: int|
            0 <= i < 9 ==> (#[trigger] q.business_slots@[i].business matches Some(c) ==> {
                &&& p.business_slots@[i].business matches Some(b)
                &&& b.start_time() <= now1
                &&& c.start_time() == now1
                &&& c.claimable(now2) == b.period_earnings(now2 - now1)
                &&& slot_claim(q.business_slots@[i], true, now2) == p.business_slots@[i].applied(
                    b.period_earnings(now2 - now1),
                )
            }),
        forall|i: int|
            0 <= i < 9 ==> (#[trigger] q.business_slots@[i].business is None
                <==> p.business_slots@[i].business is None),
        q.total_claimable(now2) == clamp_u64(window_sum(p.business_slots@, now2 - now1, 9)),
{
    assert(compact_time(now1) == now1);
    assert forall|i: int|
        0 <= i < 9 implies (#[trigger] q.business_slots@[i].business matches Some(c) ==> {
            &&& p.business_slots@[i].business matches Some(b)
            &&& b.start_time() <= now1
            &&& c.start_time() == now1
            &&& c.claimable(now2) == b.period_earnings(now2 - now1)
            &&& slot_claim(q.business_slots@[i], true, now2) == p.business_slots@[i].applied(
                b.period_earnings(now2 - now1),
            )
        }) by {
        let ps = p.business_slots@[i];
        if let Some(b) = ps.business {
            assert(q.business_slots@[i] == stamped_slot(ps, now1));
        }
    }
    lemma_window_sums_agree(p, q, now1, now2, 9);
}

/// Partial sums of the second claim equal the partial window sums.
proof fn lemma_window_sums_agree(p: PlayerCompact, q: PlayerCompact, now1: int, now2: int, n: int)
    requires
        0 <= n <= 9,
        q.auto_claim_purchased,
        forall|i: int|
            0 <= i < 9 ==> (#[trigger] q.business_slots@[i].business matches Some(c) ==> {
                &&& p.business_slots@[i].business matches Some(b)
                &&& slot_claim(q.business_slots@[i], true, now2) == p.business_slots@[i].applied(
                    b.period_earnings(now2 - now1),
                )
            }),
        forall|i: int|
            0 <= i < 9 ==> (#[trigger] q.business_slots@[i].business is None
                <==> p.business_slots@[i].business is None),
    ensures
        claim_sum(q.business_slots@, true, now2, n) == window_sum(p.business_slots@, now2 - now1, n),
    decreases n,
{
    if n > 0 {
        lemma_window_sums_agree(p, q, now1, now2, n - 1);
        assert(q.business_slots@[n - 1].business is None <==> p.business_slots@[n - 1].business is None);
    }
}

} // verus!
