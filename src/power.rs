use vstd::prelude::*;
use rayon::iter::{IntoParallelRefIterator, ParallelIterator};
use crate::model::Device;
use crate::units::{Milli, Ratio};

verus! {

/// Largest total rated power, in milliwatts, that a device list may carry
/// (2^35 mW, about 34 MW): the exact arithmetic on it stays within 128 bits.
pub const MAX_TOTAL_MILLIWATTS: u128 = 34359738368;

/// Rated power of all units of a device, in milliwatts.
pub open spec fn device_weight(d: Device) -> int {
    d.power_watts.thousandths as int * d.quantity as int
}

/// Sum of `device_weight` over a device list, in milliwatts.
pub open spec fn total_weight(ds: Seq<Device>) -> int
    decreases ds.len(),
{
    if ds.len() == 0 {
        0
    } else {
        total_weight(ds.drop_last()) + device_weight(ds.last())
    }
}

/// Sum over a device list of its power weighted by its power factor
/// (milliwatts times thousandths).
pub open spec fn weighted_factor_sum(ds: Seq<Device>) -> int
    decreases ds.len(),
{
    if ds.len() == 0 {
        0
    } else {
        weighted_factor_sum(ds.drop_last()) + device_weight(ds.last())
            * ds.last().power_factor.thousandths as int
    }
}

/// Sum over a device list of its daily energy (milliwatts times thousandths of hours).
pub open spec fn daily_energy_sum(ds: Seq<Device>) -> int
    decreases ds.len(),
{
    if ds.len() == 0 {
        0
    } else {
        daily_energy_sum(ds.drop_last()) + device_weight(ds.last())
            * ds.last().usage_hours_per_day.thousandths as int
    }
}

/// Every power factor of the list lies in (0, 1], that is in 1..=1000 thousandths.
pub open spec fn factors_in_range(ds: Seq<Device>) -> bool {
    forall|i: int|
        0 <= i < ds.len() ==> 1 <= #[trigger] ds[i].power_factor.thousandths <= 1000
}

/// Total power with the safety factor applied, in microwatts.
pub open spec fn total_power_spec(ds: Seq<Device>, safety_factor: Milli) -> int {
    total_weight(ds) * safety_factor.thousandths as int
}

/// Sum of a list of integers.
pub open spec fn seq_total(s: Seq<u128>) -> int
    decreases s.len(),
{
    if s.len() == 0 {
        0
    } else {
        seq_total(s.drop_last()) + s.last() as int
    }
}

/// Total power is additive over concatenation of device lists, for every safety factor.
pub proof fn lemma_total_power_additive(d1: Seq<Device>, d2: Seq<Device>, safety_factor: Milli)
    ensures
        total_weight(d1 + d2) == total_weight(d1) + total_weight(d2),
        total_power_spec(d1 + d2, safety_factor) == total_power_spec(d1, safety_factor)
            + total_power_spec(d2, safety_factor),
    decreases d2.len(),
{
    if d2.len() == 0 {
        assert(d1 + d2 =~= d1);
    } else {
        assert((d1 + d2).drop_last() =~= d1 + d2.drop_last());
        lemma_total_power_additive(d1, d2.drop_last(), safety_factor);
    }
    let f = safety_factor.thousandths as int;
    assert((total_weight(d1) + total_weight(d2)) * f == total_weight(d1) * f + total_weight(d2)
        * f) by (nonlinear_arith);
}

pub(crate) proof fn lemma_weight_nonneg(ds: Seq<Device>)
    ensures
        total_weight(ds) >= 0,
        daily_energy_sum(ds) >= 0,
        daily_energy_sum(ds) <= total_weight(ds) * 0xffff_ffff,
    decreases ds.len(),
{
    if ds.len() > 0 {
        lemma_weight_nonneg(ds.drop_last());
        let w = device_weight(ds.last());
        let h = ds.last().usage_hours_per_day.thousandths as int;
        assert(w >= 0 && w * h >= 0 && w * h <= w * 0xffff_ffff) by (nonlinear_arith)
            requires
                w == ds.last().power_watts.thousandths as int * ds.last().quantity as int,
                0 <= h <= 0xffff_ffff,
        ;
    }
}

pub(crate) proof fn lemma_factor_sum_bounds(ds: Seq<Device>)
    requires
        factors_in_range(ds),
    ensures
        total_weight(ds) <= weighted_factor_sum(ds) <= 1000 * total_weight(ds),
    decreases ds.len(),
{
    if ds.len() > 0 {
        let rest = ds.drop_last();
        assert forall|i: int| 0 <= i < rest.len() implies 1 <= #[trigger] rest[i].power_factor.thousandths
            <= 1000 by {
            assert(rest[i] == ds[i]);
        }
        lemma_factor_sum_bounds(rest);
        lemma_weight_nonneg(ds);
        let w = device_weight(ds.last());
        let f = ds.last().power_factor.thousandths as int;
        assert(ds[ds.len() - 1] == ds.last());
        assert(w <= w * f <= 1000 * w) by (nonlinear_arith)
            requires
                w == ds.last().power_watts.thousandths as int * ds.last().quantity as int,
                1 <= f <= 1000,
        ;
    }
}

proof fn lemma_prefix_weight(ds: Seq<Device>, i: int)
    requires
        0 <= i <= ds.len(),
    ensures
        0 <= total_weight(ds.take(i)) <= total_weight(ds),
    decreases ds.len(),
{
    lemma_weight_nonneg(ds.take(i));
    if i == ds.len() {
        assert(ds.take(i) =~= ds);
    } else {
        lemma_prefix_weight(ds.drop_last(), i);
        assert(ds.drop_last().take(i) =~= ds.take(i));
        lemma_weight_nonneg(ds);
        let w = device_weight(ds.last());
        assert(w >= 0) by (nonlinear_arith)
            requires
                w == ds.last().power_watts.thousandths as int * ds.last().quantity as int,
        ;
    }
}

/// Rated power of all units of a device, in milliwatts.
fn device_weight_of(d: &Device) -> (w: u128)
    ensures
        w == device_weight(*d),
        w <= 0xffff_ffff_ffff_ffff,
{
    let p = d.power_watts.thousandths as u128;
    let q = d.quantity as u128;
    assert(p * q <= 0xffff_ffff_ffff_ffff) by (nonlinear_arith)
        requires
            p <= 0xffff_ffff,
            q <= 0xffff_ffff,
    ;
    p * q
}

/// Relies on rayon's `ParallelIterator::sum`: the sum of the items, reduced in an
/// unspecified order, which for integers is the plain sum.
#[verifier::external_body]
fn parallel_sum(terms: &Vec<u128>) -> (r: u128)
    requires
        seq_total(terms@) <= u128::MAX,
    ensures
        r == seq_total(terms@),
{
    terms.par_iter().sum::<u128>()
}

/// Total power drawn by the devices, in microwatts: the sum of rated power
/// times quantity, multiplied by the safety factor.
pub fn calculate_total_power(devices: &Vec<Device>, safety_factor: Milli) -> (r: u128)
    requires
        total_weight(devices@) <= MAX_TOTAL_MILLIWATTS,
    ensures
        r == total_power_spec(devices@, safety_factor),
{
    let mut terms: Vec<u128> = Vec::new();
    let mut i: usize = 0;
    while i < devices.len()
        invariant
            i <= devices.len(),
            terms@.len() == i,
            seq_total(terms@) == total_weight(devices@.take(i as int)),
            total_weight(devices@) <= MAX_TOTAL_MILLIWATTS,
        decreases devices.len() - i,
    {
        let d = &devices[i];
        let w = device_weight_of(d);
        proof {
            assert(devices@.take(i + 1).drop_last() =~= devices@.take(i as int));
            assert(devices@.take(i + 1).last() == devices@[i as int]);
            assert(terms@.push(w).drop_last() =~= terms@);
        }
        terms.push(w);
        i += 1;
    }
    proof {
        assert(devices@.take(i as int) =~= devices@);
        lemma_weight_nonneg(devices@);
    }
    let sum = parallel_sum(&terms);
    proof {
        let f = safety_factor.thousandths as int;
        assert(sum * f <= MAX_TOTAL_MILLIWATTS * 0xffff_ffff) by (nonlinear_arith)
            requires
                0 <= sum <= MAX_TOTAL_MILLIWATTS,
                0 <= f <= 0xffff_ffff,
        ;
    }
    sum * safety_factor.thousandths as u128
}

/// Monthly energy of the devices, in kilowatt-hours: for each device, rated power
/// times quantity times daily hours, over a fixed 30-day month.
pub fn calculate_monthly_energy(devices: &Vec<Device>) -> (r: Ratio)
    requires
        total_weight(devices@) <= MAX_TOTAL_MILLIWATTS,
    ensures
        r.num == 30 * daily_energy_sum(devices@),
        r.den == 1_000_000_000,
        r.wf(),
{
    let mut terms: Vec<u128> = Vec::new();
    let mut i: usize = 0;
    while i < devices.len()
        invariant
            i <= devices.len(),
            terms@.len() == i,
            seq_total(terms@) == daily_energy_sum(devices@.take(i as int)),
            total_weight(devices@) <= MAX_TOTAL_MILLIWATTS,
        decreases devices.len() - i,
    {
        let d = &devices[i];
        let w = device_weight_of(d);
        assert(w * d.usage_hours_per_day.thousandths <= 0xffff_ffff_ffff_ffff_ffff_ffff)
            by (nonlinear_arith)
            requires
                w == d.power_watts.thousandths as int * d.quantity as int,
                d.power_watts.thousandths <= 0xffff_ffff,
                d.quantity <= 0xffff_ffff,
                d.usage_hours_per_day.thousandths <= 0xffff_ffff,
        ;
        let e = w * d.usage_hours_per_day.thousandths as u128;
        proof {
            assert(devices@.take(i + 1).drop_last() =~= devices@.take(i as int));
            assert(devices@.take(i + 1).last() == devices@[i as int]);
            assert(terms@.push(e).drop_last() =~= terms@);
        }
        terms.push(e);
        i += 1;
    }
    proof {
        assert(devices@.take(i as int) =~= devices@);
        lemma_weight_nonneg(devices@);
    }
    let sum = parallel_sum(&terms);
    Ratio { num: 30 * sum, den: 1_000_000_000 }
}

/// The weighted mean power factor, as `(numerator, denominator)`: weights are the
/// devices' rated power times quantity; 9/10 where the total weight is zero.
pub open spec fn avg_power_factor_spec(ds: Seq<Device>) -> (int, int) {
    if total_weight(ds) > 0 {
        (weighted_factor_sum(ds), 1000 * total_weight(ds))
    } else {
        (9, 10)
    }
}

/// Weighted average power factor of the devices; 0.9 when they draw no power.
pub fn calculate_avg_power_factor(devices: &Vec<Device>) -> (r: Ratio)
    requires
        total_weight(devices@) <= MAX_TOTAL_MILLIWATTS,
    ensures
        (r.num as int, r.den as int) == avg_power_factor_spec(devices@),
        r.den > 0,
{
    let mut weighted: u128 = 0;
    let mut total: u128 = 0;
    let mut i: usize = 0;
    while i < devices.len()
        invariant
            i <= devices.len(),
            total == total_weight(devices@.take(i as int)),
            weighted == weighted_factor_sum(devices@.take(i as int)),
            weighted <= total * 0xffff_ffff,
            total_weight(devices@) <= MAX_TOTAL_MILLIWATTS,
        decreases devices.len() - i,
    {
        let d = &devices[i];
        proof {
            assert(devices@.take(i + 1).drop_last() =~= devices@.take(i as int));
            assert(devices@.take(i + 1).last() == devices@[i as int]);
            lemma_prefix_weight(devices@, i + 1);
        }
        let w = device_weight_of(d);
        assert(w * d.power_factor.thousandths <= w * 0xffff_ffff) by (nonlinear_arith)
            requires
                d.power_factor.thousandths <= 0xffff_ffff,
        ;
        assert(weighted + w * d.power_factor.thousandths <= (total + w) * 0xffff_ffff)
            by (nonlinear_arith)
            requires
                weighted <= total * 0xffff_ffff,
                w * d.power_factor.thousandths <= w * 0xffff_ffff,
        ;
        total = total + w;
        weighted = weighted + w * d.power_factor.thousandths as u128;
        i += 1;
    }
    proof {
        assert(devices@.take(i as int) =~= devices@);
    }
    if total > 0 {
        Ratio { num: weighted, den: 1000 * total }
    } else {
        Ratio { num: 9, den: 10 }
    }
}

} // verus!
