//! What each venue charges on a leg, as a rate in basis points of the leg's
//! notional.

use vstd::prelude::*;
use crate::units::NOTIONAL_PER_WHOLE;

verus! {

/// One of the two venues whose books are compared.
#[derive(Clone, Copy, Debug, PartialEq, Eq, Hash, Structural)]
pub enum Venue {
    Binance,
    Mb,
}

/// Binance's flat rate, in basis points.
pub const BINANCE_FEE_RATE: u64 = 10;

/// One band of a tiered schedule: the rate charged on notionals above the
/// previous band's bound and up to, and including, this band's.
#[derive(Clone, Copy, Debug, PartialEq, Eq, Structural)]
pub struct FeeTier {
    /// The largest notional of the band, in notional units.
    pub upper_bound: u128,
    /// The band's rate, in basis points.
    pub rate: u64,
}

/// Whether the bands lie in ascending order of notional and strictly
/// descending order of rate, the open-ended top band being the cheapest.
pub open spec fn ordered(tiers: Seq<FeeTier>, top_rate: u64) -> bool {
    &&& forall|i: int, j: int|
        0 <= i < j < tiers.len() ==> (#[trigger] tiers[i]).upper_bound < (
        #[trigger] tiers[j]).upper_bound && tiers[i].rate > tiers[j].rate
    &&& forall|i: int| 0 <= i < tiers.len() ==> (#[trigger] tiers[i]).rate > top_rate
}

/// Whether `notional` lies in band `k`, counting the open-ended top band as
/// band `tiers.len()`.
pub open spec fn in_band(tiers: Seq<FeeTier>, k: int, notional: int) -> bool {
    &&& 0 <= k <= tiers.len()
    &&& k > 0 ==> tiers[k - 1].upper_bound < notional
    &&& k < tiers.len() ==> notional <= tiers[k].upper_bound
}

/// The rate of band `k`.
pub open spec fn band_rate(tiers: Seq<FeeTier>, top_rate: u64, k: int) -> u64 {
    if 0 <= k < tiers.len() {
        tiers[k].rate
    } else {
        top_rate
    }
}

/// The rate charged on `notional`: that of the first band whose bound the
/// notional does not exceed, or the top rate beyond the last bound.
pub open spec fn rate_at(tiers: Seq<FeeTier>, top_rate: u64, notional: int) -> u64
    decreases tiers.len(),
{
    if tiers.len() == 0 {
        top_rate
    } else if notional <= tiers[0].upper_bound {
        tiers[0].rate
    } else {
        rate_at(tiers.drop_first(), top_rate, notional)
    }
}

/// The first band at or after `from` whose bound `notional` does not exceed.
pub open spec fn band_from(tiers: Seq<FeeTier>, from: int, notional: int) -> int
    decreases tiers.len() - from,
{
    if from < 0 || from >= tiers.len() {
        tiers.len() as int
    } else if notional <= tiers[from].upper_bound {
        from
    } else {
        band_from(tiers, from + 1, notional)
    }
}

/// Scanning from band `from`, past bounds that `notional` exceeds, finds the
/// one band that holds the notional, and `rate_at` charges that band's rate.
proof fn lemma_band_from(tiers: Seq<FeeTier>, top_rate: u64, from: int, notional: int)
    requires
        ordered(tiers, top_rate),
        0 <= from <= tiers.len(),
        from > 0 ==> tiers[from - 1].upper_bound < notional,
    ensures
        from <= band_from(tiers, from, notional) <= tiers.len(),
        in_band(tiers, band_from(tiers, from, notional), notional),
        rate_at(tiers.skip(from), top_rate, notional) == band_rate(
            tiers,
            top_rate,
            band_from(tiers, from, notional),
        ),
    decreases tiers.len() - from,
{
    let rest = tiers.skip(from);
    if from < tiers.len() {
        assert(rest[0] == tiers[from]);
        if notional > tiers[from].upper_bound {
            lemma_band_from(tiers, top_rate, from + 1, notional);
            assert(rest.drop_first() =~= tiers.skip(from + 1));
        }
    }
}

/// Every notional lies in exactly one band of an ordered schedule, and is
/// charged that band's rate: the bands leave no gap and do not overlap.
pub proof fn lemma_exactly_one_band(tiers: Seq<FeeTier>, top_rate: u64, notional: int)
    requires
        ordered(tiers, top_rate),
    ensures
        in_band(tiers, band_from(tiers, 0, notional), notional),
        forall|k: int| in_band(tiers, k, notional) ==> k == band_from(tiers, 0, notional),
        rate_at(tiers, top_rate, notional) == band_rate(
            tiers,
            top_rate,
            band_from(tiers, 0, notional),
        ),
{
    lemma_band_from(tiers, top_rate, 0, notional);
    assert(tiers.skip(0) =~= tiers);
    let found = band_from(tiers, 0, notional);
    assert forall|k: int| in_band(tiers, k, notional) implies k == found by {
        if k < found {
            // band k ends below band found's lower bound
            assert(tiers[k].upper_bound <= tiers[found - 1].upper_bound);
        } else if k > found {
            assert(tiers[found].upper_bound <= tiers[k - 1].upper_bound);
        }
    }
}

/// A notional exactly on a band's bound is charged that band's rate; one
/// unit more is charged the next band's.
pub proof fn lemma_rate_at_bound(tiers: Seq<FeeTier>, top_rate: u64, k: int)
    requires
        ordered(tiers, top_rate),
        0 <= k < tiers.len(),
    ensures
        rate_at(tiers, top_rate, tiers[k].upper_bound as int) == tiers[k].rate,
        rate_at(tiers, top_rate, tiers[k].upper_bound + 1) == band_rate(tiers, top_rate, k + 1),
        band_rate(tiers, top_rate, k + 1) < tiers[k].rate,
{
    let bound = tiers[k].upper_bound as int;
    lemma_exactly_one_band(tiers, top_rate, bound);
    assert(in_band(tiers, k, bound));
    lemma_exactly_one_band(tiers, top_rate, bound + 1);
    assert(in_band(tiers, k + 1, bound + 1));
}

/// The larger the notional, the lower, or the same, its rate.
pub proof fn lemma_rate_never_rises(tiers: Seq<FeeTier>, top_rate: u64, small: int, large: int)
    requires
        ordered(tiers, top_rate),
        small <= large,
    ensures
        rate_at(tiers, top_rate, small) >= rate_at(tiers, top_rate, large),
{
    lemma_exactly_one_band(tiers, top_rate, small);
    lemma_exactly_one_band(tiers, top_rate, large);
    let a = band_from(tiers, 0, small);
    let b = band_from(tiers, 0, large);
    if a > b {
        // then large <= bound(b) <= bound(a - 1) < small
        assert(tiers[b].upper_bound <= tiers[a - 1].upper_bound);
    }
}

/// A tiered fee schedule: ordered bands, and the rate beyond the last one.
#[derive(Debug)]
pub struct FeeSchedule {
    tiers: Vec<FeeTier>,
    top_rate: u64,
}

impl FeeSchedule {
    /// The bounded bands, lowest first.
    pub closed spec fn tiers(&self) -> Seq<FeeTier> {
        self.tiers@
    }

    /// The rate charged beyond the last bound.
    pub closed spec fn top_rate(&self) -> u64 {
        self.top_rate
    }

    /// Whether the bands are ordered, as they are in every schedule.
    #[verifier::type_invariant]
    pub open spec fn wf(&self) -> bool {
        ordered(self.tiers(), self.top_rate())
    }

    /// The schedule with the given bands, if they are ordered.
    pub fn new(tiers: Vec<FeeTier>, top_rate: u64) -> (schedule: Option<FeeSchedule>)
        ensures
            schedule is Some <==> ordered(tiers@, top_rate),
            schedule matches Some(s) ==> s.tiers() == tiers@ && s.top_rate() == top_rate,
    {
        let n = tiers.len();
        let mut i: usize = 0;
        while i < n
            invariant
                n == tiers.len(),
                i <= n,
                ordered(tiers@.take(i as int), top_rate),
            decreases n - i,
        {
            let tier = tiers[i];
            if tier.rate <= top_rate {
                assert(!ordered(tiers@, top_rate));
                return None;
            }
            if i > 0 {
                let before = tiers[i - 1];
                if before.upper_bound >= tier.upper_bound || before.rate <= tier.rate {
                    assert(!ordered(tiers@, top_rate)) by {
                        assert(tiers@[i - 1] == before && tiers@[i as int] == tier);
                    }
                    return None;
                }
            }
            proof {
                let seen = tiers@.take(i as int);
                let next = tiers@.take(i + 1);
                assert forall|a: int, b: int| 0 <= a < b < next.len() implies (
                #[trigger] next[a]).upper_bound < (#[trigger] next[b]).upper_bound
                    && next[a].rate > next[b].rate by {
                    if b < i {
                        assert(seen[a] == next[a] && seen[b] == next[b]);
                    } else if a < i - 1 {
                        assert(seen[a] == next[a] && seen[i - 1] == next[i - 1]);
                    }
                }
                assert forall|a: int| 0 <= a < next.len() implies (#[trigger] next[a]).rate
                    > top_rate by {
                    if a < i {
                        assert(seen[a] == next[a]);
                    }
                }
            }
            i += 1;
        }
        assert(tiers@.take(n as int) =~= tiers@);
        Some(FeeSchedule { tiers, top_rate })
    }

    /// The rate charged on `notional`, in basis points.
    pub fn rate(&self, notional: u128) -> (rate: u64)
        ensures
            rate == rate_at(self.tiers(), self.top_rate(), notional as int),
    {
        proof {
            use_type_invariant(self);
        }
        let n = self.tiers.len();
        let mut i: usize = 0;
        while i < n
            invariant
                n == self.tiers@.len(),
                i <= n,
                ordered(self.tiers@, self.top_rate),
                band_from(self.tiers@, 0, notional as int) == band_from(
                    self.tiers@,
                    i as int,
                    notional as int,
                ),
            decreases n - i,
        {
            if notional <= self.tiers[i].upper_bound {
                proof {
                    lemma_exactly_one_band(self.tiers@, self.top_rate, notional as int);
                }
                return self.tiers[i].rate;
            }
            i += 1;
        }
        proof {
            lemma_exactly_one_band(self.tiers@, self.top_rate, notional as int);
        }
        self.top_rate
    }
}

/// Mercado Bitcoin's bands, by notional in the quote currency.
pub open spec fn mb_tiers() -> Seq<FeeTier> {
    seq![
        FeeTier { upper_bound: (500_000 * NOTIONAL_PER_WHOLE) as u128, rate: 70 },
        FeeTier { upper_bound: (10_000_000 * NOTIONAL_PER_WHOLE) as u128, rate: 60 },
        FeeTier { upper_bound: (20_000_000 * NOTIONAL_PER_WHOLE) as u128, rate: 50 },
        FeeTier { upper_bound: (50_000_000 * NOTIONAL_PER_WHOLE) as u128, rate: 45 },
        FeeTier { upper_bound: (100_000_000 * NOTIONAL_PER_WHOLE) as u128, rate: 40 },
        FeeTier { upper_bound: (200_000_000 * NOTIONAL_PER_WHOLE) as u128, rate: 30 },
    ]
}

/// Mercado Bitcoin's rate beyond its last bound, in basis points.
pub const MB_TOP_FEE_RATE: u64 = 25;

/// Mercado Bitcoin's rate on `notional`, in basis points: 0.7% up to 500 000
/// of the quote currency, falling by bands to 0.25% above 200 000 000, a
/// notional on a bound belonging to the band below it.
pub open spec fn mb_fee_rate(notional: int) -> u64 {
    if notional <= 500_000 * NOTIONAL_PER_WHOLE {
        70
    } else if notional <= 10_000_000 * NOTIONAL_PER_WHOLE {
        60
    } else if notional <= 20_000_000 * NOTIONAL_PER_WHOLE {
        50
    } else if notional <= 50_000_000 * NOTIONAL_PER_WHOLE {
        45
    } else if notional <= 100_000_000 * NOTIONAL_PER_WHOLE {
        40
    } else if notional <= 200_000_000 * NOTIONAL_PER_WHOLE {
        30
    } else {
        25
    }
}

/// The rate that `venue` charges on `notional`, in basis points.
pub open spec fn spec_fee_rate(venue: Venue, notional: int) -> u64 {
    match venue {
        Venue::Binance => BINANCE_FEE_RATE,
        Venue::Mb => mb_fee_rate(notional),
    }
}

/// Mercado Bitcoin's bands are ordered, and looking a notional up in them
/// gives `mb_fee_rate`.
pub proof fn lemma_mb_tiers(notional: int)
    ensures
        ordered(mb_tiers(), MB_TOP_FEE_RATE),
        rate_at(mb_tiers(), MB_TOP_FEE_RATE, notional) == mb_fee_rate(notional),
{
    let t = mb_tiers();
    assert(t.len() == 6);
    reveal_with_fuel(rate_at, 7);
    let t1 = t.drop_first();
    let t2 = t1.drop_first();
    let t3 = t2.drop_first();
    let t4 = t3.drop_first();
    let t5 = t4.drop_first();
    let t6 = t5.drop_first();
    assert(t1[0] == t[1]);
    assert(t2[0] == t[2]);
    assert(t3[0] == t[3]);
    assert(t4[0] == t[4]);
    assert(t5[0] == t[5]);
    assert(t6.len() == 0);
}

/// On each of Mercado Bitcoin's bounds the rate is that of the band which
/// the bound closes, and one notional unit above it the rate is that of the
/// next band, which is lower.
pub proof fn lemma_mb_rate_at_bound(k: int)
    requires
        0 <= k < mb_tiers().len(),
    ensures
        mb_fee_rate(mb_tiers()[k].upper_bound as int) == mb_tiers()[k].rate,
        mb_fee_rate(mb_tiers()[k].upper_bound + 1) == band_rate(
            mb_tiers(),
            MB_TOP_FEE_RATE,
            k + 1,
        ),
        mb_fee_rate(mb_tiers()[k].upper_bound + 1) < mb_fee_rate(
            mb_tiers()[k].upper_bound as int,
        ),
{
    let bound = mb_tiers()[k].upper_bound as int;
    lemma_mb_tiers(bound);
    lemma_mb_tiers(bound + 1);
    lemma_rate_at_bound(mb_tiers(), MB_TOP_FEE_RATE, k);
}

/// Mercado Bitcoin's schedule.
pub fn mb_fee_schedule() -> (schedule: FeeSchedule)
    ensures
        schedule.tiers() == mb_tiers(),
        schedule.top_rate() == MB_TOP_FEE_RATE,
{
    let mut tiers: Vec<FeeTier> = Vec::new();
    tiers.push(FeeTier { upper_bound: 500_000 * NOTIONAL_PER_WHOLE, rate: 70 });
    tiers.push(FeeTier { upper_bound: 10_000_000 * NOTIONAL_PER_WHOLE, rate: 60 });
    tiers.push(FeeTier { upper_bound: 20_000_000 * NOTIONAL_PER_WHOLE, rate: 50 });
    tiers.push(FeeTier { upper_bound: 50_000_000 * NOTIONAL_PER_WHOLE, rate: 45 });
    tiers.push(FeeTier { upper_bound: 100_000_000 * NOTIONAL_PER_WHOLE, rate: 40 });
    tiers.push(FeeTier { upper_bound: 200_000_000 * NOTIONAL_PER_WHOLE, rate: 30 });
    proof {
        assert(tiers@ =~= mb_tiers());
        lemma_mb_tiers(0);
    }
    FeeSchedule { tiers, top_rate: MB_TOP_FEE_RATE }
}

/// Mercado Bitcoin's rate on a deal of `qty` at `price`, in basis points.
pub fn get_mb_fee_rate(price: u64, qty: u64) -> (rate: u64)
    ensures
        rate == mb_fee_rate(price as int * qty as int),
        25 <= rate <= 70,
{
    let deal_total = notional(price, qty);
    let schedule = mb_fee_schedule();
    proof {
        lemma_mb_tiers(deal_total as int);
    }
    schedule.rate(deal_total)
}

/// The notional of `qty` at `price`, in notional units.
pub fn notional(price: u64, qty: u64) -> (total: u128)
    ensures
        total == price as int * qty as int,
{
    assert(price as int * qty as int <= u64::MAX as int * u64::MAX as int) by (nonlinear_arith)
        requires
            0 <= price <= u64::MAX,
            0 <= qty <= u64::MAX,
    ;
    price as u128 * qty as u128
}

/// The rate that `venue` charges on a deal of `qty` at `price`, in basis
/// points.
pub fn fee_rate(venue: Venue, price: u64, qty: u64) -> (rate: u64)
    ensures
        rate == spec_fee_rate(venue, price as int * qty as int),
        10 <= rate <= 70,
{
    match venue {
        Venue::Binance => BINANCE_FEE_RATE,
        Venue::Mb => get_mb_fee_rate(price, qty),
    }
}

} // verus!
