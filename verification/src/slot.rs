//! Slots, epochs and the arithmetic between them.
use vstd::arithmetic::power2::pow2;
use vstd::prelude::*;

verus! {

/// A slot of the beacon chain.
#[derive(Clone, Copy, Debug, PartialEq, Eq, Structural)]
pub struct Slot(pub u64);

/// An epoch of the beacon chain: a run of consecutive slots.
#[derive(Clone, Copy, Debug, PartialEq, Eq, Structural)]
pub struct Epoch(pub u64);

/// `n`, or the largest slot number where `n` is beyond it.
pub open spec fn capped(n: int) -> int {
    if n <= u64::MAX {
        n
    } else {
        u64::MAX as int
    }
}

impl Slot {
    /// The epoch that this slot belongs to.
    pub fn epoch(self, slots_per_epoch: u64) -> (epoch: Epoch)
        requires
            slots_per_epoch > 0,
        ensures
            epoch.0 == self.0 / slots_per_epoch,
    {
        Epoch(self.0 / slots_per_epoch)
    }
}

impl Epoch {
    /// The first slot of this epoch, capped at the largest slot number.
    pub open spec fn first_slot(self, slots_per_epoch: u64) -> int {
        capped(self.0 * slots_per_epoch)
    }

    /// The last slot of this epoch, capped at the largest slot number.
    pub open spec fn last_slot(self, slots_per_epoch: u64) -> int {
        capped(self.0 * slots_per_epoch + slots_per_epoch - 1)
    }

    /// The first slot of this epoch.
    pub fn start_slot(self, slots_per_epoch: u64) -> (slot: Slot)
        ensures
            slot.0 == self.first_slot(slots_per_epoch),
    {
        match self.0.checked_mul(slots_per_epoch) {
            Some(first) => Slot(first),
            None => Slot(u64::MAX),
        }
    }

    /// The last slot of this epoch.
    pub fn end_slot(self, slots_per_epoch: u64) -> (slot: Slot)
        requires
            slots_per_epoch > 0,
        ensures
            slot.0 == self.last_slot(slots_per_epoch),
    {
        let first: u64 = self.start_slot(slots_per_epoch).0;
        Slot(first.saturating_add(slots_per_epoch - 1))
    }

    /// How many slots lie in this epoch before `slot`, or `None` where `slot` lies outside it.
    pub fn position(self, slot: Slot, slots_per_epoch: u64) -> (position: Option<u64>)
        requires
            slots_per_epoch > 0,
        ensures
            position is Some <==> self.first_slot(slots_per_epoch) <= slot.0 <= self.last_slot(
                slots_per_epoch,
            ),
            position matches Some(p) ==> p == slot.0 - self.first_slot(slots_per_epoch),
    {
        let first: u64 = self.start_slot(slots_per_epoch).0;
        let last: u64 = self.end_slot(slots_per_epoch).0;
        if first <= slot.0 && slot.0 <= last {
            Some(slot.0 - first)
        } else {
            None
        }
    }
}

/// Whether `depth` is the base-2 logarithm of `n`, rounded down.
pub open spec fn is_floor_log2(n: nat, depth: nat) -> bool {
    pow2(depth) <= n < pow2(depth + 1)
}

/// The base-2 logarithm of `n`, rounded down.
pub fn floor_log2(n: u64) -> (depth: usize)
    requires
        n > 0,
    ensures
        is_floor_log2(n as nat, depth as nat),
        depth < 64,
{
    let mut depth: usize = 0;
    let mut rest: u64 = n;
    proof {
        vstd::arithmetic::power2::lemma2_to64();
    }
    while rest > 1
        invariant
            1 <= rest <= n,
            depth < 64,
            pow2(depth as nat) * rest <= n,
            n < pow2(depth as nat) * (rest + 1),
        decreases rest,
    {
        proof {
            let p: int = pow2(depth as nat) as int;
            let r: int = rest as int;
            vstd::arithmetic::power2::lemma_pow2_unfold((depth + 1) as nat);
            assert((2 * p) * (r / 2) <= p * r && p * (r + 1) <= (2 * p) * (r / 2 + 1))
                by (nonlinear_arith)
                requires
                    p >= 0,
                    r >= 0,
            ;
            if depth >= 63 {
                vstd::arithmetic::power2::lemma2_to64();
                vstd::arithmetic::power2::lemma2_to64_rest();
                assert(p * r >= 0x8000_0000_0000_0000 * 2) by (nonlinear_arith)
                    requires
                        p == 0x8000_0000_0000_0000,
                        r >= 2,
                ;
            }
        }
        rest = rest / 2;
        depth = depth + 1;
    }
    proof {
        vstd::arithmetic::power2::lemma_pow2_unfold((depth + 1) as nat);
        assert(rest == 1);
    }
    depth
}

/// A logarithm rounded down is unique.
pub proof fn floor_log2_is_unique(n: nat, a: nat, b: nat)
    requires
        is_floor_log2(n, a),
        is_floor_log2(n, b),
    ensures
        a == b,
{
    if a < b {
        if a + 1 < b {
            vstd::arithmetic::power2::lemma_pow2_strictly_increases(a + 1, b);
        }
    } else if b < a {
        if b + 1 < a {
            vstd::arithmetic::power2::lemma_pow2_strictly_increases(b + 1, a);
        }
    }
}

/// A slot lies in the epoch it belongs to, and its position there is the remainder of its number.
pub proof fn slot_lies_in_its_epoch(slot: Slot, epoch: Epoch, slots_per_epoch: u64)
    requires
        slots_per_epoch > 0,
        epoch.0 == slot.0 / slots_per_epoch,
    ensures
        epoch.first_slot(slots_per_epoch) <= slot.0 <= epoch.last_slot(slots_per_epoch),
        slot.0 - epoch.first_slot(slots_per_epoch) == slot.0 % slots_per_epoch,
{
    let s: int = slot.0 as int;
    let n: int = slots_per_epoch as int;
    vstd::arithmetic::div_mod::lemma_fundamental_div_mod(s, n);
    assert(n * (s / n) == (s / n) * n) by (nonlinear_arith);
}

/// A slot lies between the first and the last slot of an epoch if and only if the epoch is the one it
/// belongs to, for every epoch that begins at or before the largest slot number.
pub proof fn epoch_holds_exactly_its_slots(epoch: Epoch, slot: Slot, slots_per_epoch: u64)
    requires
        slots_per_epoch > 0,
        epoch.0 * slots_per_epoch <= u64::MAX,
    ensures
        epoch.first_slot(slots_per_epoch) <= slot.0 <= epoch.last_slot(slots_per_epoch) <==> slot.0
            / slots_per_epoch == epoch.0,
{
    let s: int = slot.0 as int;
    let n: int = slots_per_epoch as int;
    let e: int = epoch.0 as int;
    vstd::arithmetic::div_mod::lemma_fundamental_div_mod(s, n);
    assert(n * (s / n) == (s / n) * n) by (nonlinear_arith);
    if e * n <= s < e * n + n {
        vstd::arithmetic::div_mod::lemma_fundamental_div_mod_converse(s, n, e, s - e * n);
    }
}

/// An epoch that would begin beyond the largest slot number begins and ends at that number.
pub proof fn epochs_beyond_the_last_slot_end_there(epoch: Epoch, slots_per_epoch: u64)
    requires
        slots_per_epoch > 0,
        epoch.0 * slots_per_epoch > u64::MAX,
    ensures
        epoch.first_slot(slots_per_epoch) == u64::MAX,
        epoch.last_slot(slots_per_epoch) == u64::MAX,
{
}

/// Two epochs in a row share no slot and leave none out between them.
pub proof fn epochs_follow_each_other(epoch: Epoch, next: Epoch, slots_per_epoch: u64)
    requires
        slots_per_epoch > 0,
        next.0 == epoch.0 + 1,
        next.0 * slots_per_epoch <= u64::MAX,
    ensures
        next.first_slot(slots_per_epoch) == epoch.last_slot(slots_per_epoch) + 1,
        next.first_slot(slots_per_epoch) == epoch.first_slot(slots_per_epoch) + slots_per_epoch,
{
    assert((epoch.0 + 1) * slots_per_epoch == epoch.0 * slots_per_epoch + slots_per_epoch)
        by (nonlinear_arith);
}

/// A slot is at or before the first slot of an epoch if and only if it is at or before as many whole
/// epochs, however many those are.
pub proof fn first_slot_follows_the_earlier_epochs(epoch: Epoch, slot: Slot, slots_per_epoch: u64)
    ensures
        slot.0 <= epoch.first_slot(slots_per_epoch) <==> slot.0 <= epoch.0 * slots_per_epoch,
{
}

/// Every number from a power of two up to the next one has that power's exponent as its logarithm.
pub proof fn numbers_between_powers_share_their_logarithm(exponent: nat, rest: nat)
    requires
        rest < pow2(exponent),
    ensures
        is_floor_log2(pow2(exponent) + rest, exponent),
{
    vstd::arithmetic::power2::lemma_pow2_unfold(exponent + 1);
}

} // verus!
