use vstd::prelude::*;
use crate::current::{calculate_current, current_spec};
use crate::model::{texts, CircuitType, Device, LoadCalculationInput, LoadCalculationResult, SafetyStatus};
use crate::power::{
    avg_power_factor_spec, calculate_avg_power_factor, calculate_monthly_energy,
    calculate_total_power, daily_energy_sum, factors_in_range, lemma_factor_sum_bounds,
    lemma_weight_nonneg, total_power_spec, total_weight, MAX_TOTAL_MILLIWATTS,
};
use crate::safety::{assess_safety, recommendations_of, status_of, warnings_of};
use crate::selector::{breaker_for, cable_for, recommend_breaker, recommend_cable_section};
use crate::units::{lemma_round_hundredths_nearest, round_hundredths, to_hundredths, Ratio};

verus! {

/// Price of one kilowatt-hour, in tenths (3.5).
pub const PRICE_TENTHS_PER_KWH: u128 = 35;

/// The values a [`LoadCalculationResult`] holds: decimal fields in hundredths,
/// the cable section in thousandths of mm², texts as character sequences.
pub struct LoadOutcome {
    pub total_load_kw: int,
    pub total_current_amps: int,
    pub recommended_breaker_amps: int,
    pub recommended_cable_section: int,
    pub monthly_consumption_kwh: int,
    pub estimated_monthly_cost: int,
    pub safety_status: SafetyStatus,
    pub warnings: Seq<Seq<char>>,
    pub recommendations: Seq<Seq<char>>,
}

impl View for LoadCalculationResult {
    type V = LoadOutcome;

    open spec fn view(&self) -> LoadOutcome {
        LoadOutcome {
            total_load_kw: self.total_load_kw.hundredths as int,
            total_current_amps: self.total_current_amps.hundredths as int,
            recommended_breaker_amps: self.recommended_breaker_amps as int,
            recommended_cable_section: self.recommended_cable_section.thousandths as int,
            monthly_consumption_kwh: self.monthly_consumption_kwh.hundredths as int,
            estimated_monthly_cost: self.estimated_monthly_cost.hundredths as int,
            safety_status: self.safety_status,
            warnings: texts(self.warnings@),
            recommendations: texts(self.recommendations@),
        }
    }
}

/// An input the engine can size: a positive voltage, every power factor in
/// (0, 1], and a total rated power within [`MAX_TOTAL_MILLIWATTS`].
pub open spec fn valid_input(input: LoadCalculationInput) -> bool {
    &&& input.voltage_level.thousandths > 0
    &&& factors_in_range(input.devices@)
    &&& total_weight(input.devices@) <= MAX_TOTAL_MILLIWATTS
}

/// Line current of an input, in amperes, as `(numerator, denominator)`.
pub open spec fn input_current(input: LoadCalculationInput) -> (int, int) {
    let pf = avg_power_factor_spec(input.devices@);
    current_spec(
        total_power_spec(input.devices@, input.safety_factor),
        input.voltage_level,
        input.circuit_type,
        pf.0,
        pf.1,
    )
}

/// The result the engine gives for an input.
pub open spec fn expected_outcome(input: LoadCalculationInput) -> LoadOutcome {
    let power = total_power_spec(input.devices@, input.safety_factor);
    let current = input_current(input);
    let breaker = breaker_for(current.0, current.1) as int;
    let energy = 30 * daily_energy_sum(input.devices@);
    LoadOutcome {
        total_load_kw: round_hundredths(power, 1_000_000_000),
        total_current_amps: round_hundredths(current.0, current.1),
        recommended_breaker_amps: breaker,
        recommended_cable_section: cable_for(current.0, current.1) as int,
        monthly_consumption_kwh: round_hundredths(energy, 1_000_000_000),
        estimated_monthly_cost: round_hundredths(
            PRICE_TENTHS_PER_KWH as int * energy,
            10_000_000_000,
        ),
        safety_status: status_of(current.0, current.1, breaker),
        warnings: warnings_of(current.0, current.1, breaker),
        recommendations: recommendations_of(current.0, current.1, breaker, power, 1_000_000_000),
    }
}

/// Sizes a circuit for a device list: total load, current, breaker and cable,
/// monthly energy and cost, and the safety assessment, with the decimal
/// quantities rounded to hundredths.
pub fn calculate_load(input: LoadCalculationInput) -> (r: LoadCalculationResult)
    requires
        valid_input(input),
    ensures
        r@ == expected_outcome(input),
{
    let power_factor = calculate_avg_power_factor(&input.devices);
    let total_power = calculate_total_power(&input.devices, input.safety_factor);
    proof {
        let ds = input.devices@;
        let w = total_weight(ds);
        let f = input.safety_factor.thousandths as int;
        let v = input.voltage_level.thousandths as int;
        lemma_weight_nonneg(ds);
        lemma_factor_sum_bounds(ds);
        assert(total_power <= MAX_TOTAL_MILLIWATTS * 0xffff_ffff) by (nonlinear_arith)
            requires
                total_power == w * f,
                0 <= w <= MAX_TOTAL_MILLIWATTS,
                0 <= f <= 0xffff_ffff,
        ;
        assert(power_factor.den <= 1000 * MAX_TOTAL_MILLIWATTS);
        assert(power_factor.num <= 1000 * MAX_TOTAL_MILLIWATTS && power_factor.num > 0);
        assert(total_power * power_factor.den <= (MAX_TOTAL_MILLIWATTS * 0xffff_ffff) * (1000
            * MAX_TOTAL_MILLIWATTS)) by (nonlinear_arith)
            requires
                0 <= total_power <= MAX_TOTAL_MILLIWATTS * 0xffff_ffff,
                0 <= power_factor.den <= 1000 * MAX_TOTAL_MILLIWATTS,
        ;
        assert(1732 * v * power_factor.num <= 1732 * 0xffff_ffff * (1000 * MAX_TOTAL_MILLIWATTS))
            by (nonlinear_arith)
            requires
                0 <= v <= 0xffff_ffff,
                0 <= power_factor.num <= 1000 * MAX_TOTAL_MILLIWATTS,
        ;
    }
    let current = calculate_current(
        total_power,
        input.voltage_level,
        input.circuit_type,
        power_factor,
    );
    let total_load_kw = Ratio { num: total_power, den: 1_000_000_000 };
    let breaker_amps = recommend_breaker(&current);
    let cable_section = recommend_cable_section(&current);
    let monthly_kwh = calculate_monthly_energy(&input.devices);
    let monthly_cost = Ratio {
        num: PRICE_TENTHS_PER_KWH * monthly_kwh.num,
        den: 10 * monthly_kwh.den,
    };
    let (safety_status, warnings, recommendations) = assess_safety(
        &current,
        breaker_amps,
        &total_load_kw,
    );
    LoadCalculationResult {
        total_load_kw: to_hundredths(&total_load_kw),
        total_current_amps: to_hundredths(&current),
        recommended_breaker_amps: breaker_amps,
        recommended_cable_section: cable_section,
        monthly_consumption_kwh: to_hundredths(&monthly_kwh),
        estimated_monthly_cost: to_hundredths(&monthly_cost),
        safety_status,
        warnings,
        recommendations,
    }
}

/// The engine keeps no state: two results for the same input are identical.
pub proof fn lemma_calculate_load_deterministic(
    input: LoadCalculationInput,
    first: LoadCalculationResult,
    second: LoadCalculationResult,
)
    requires
        first@ == expected_outcome(input),
        second@ == expected_outcome(input),
    ensures
        first@ == second@,
{
}

/// Each rounded field of a result lies within half a hundredth of the exact
/// quantity it stands for (`-1/2 <= 100 * exact - field < 1/2`), and being a
/// count of hundredths it carries no more than two decimal digits.
pub proof fn lemma_result_rounding(input: LoadCalculationInput, r: LoadCalculationResult)
    requires
        valid_input(input),
        r@ == expected_outcome(input),
    ensures
        ({
            let power = total_power_spec(input.devices@, input.safety_factor);
            let current = input_current(input);
            let energy = 30 * daily_energy_sum(input.devices@);
            &&& -1_000_000_000 <= 200 * power - 2_000_000_000 * r@.total_load_kw < 1_000_000_000
            &&& -current.1 <= 200 * current.0 - 2 * current.1 * r@.total_current_amps < current.1
            &&& -1_000_000_000 <= 200 * energy - 2_000_000_000 * r@.monthly_consumption_kwh
                < 1_000_000_000
            &&& -10_000_000_000 <= 200 * (PRICE_TENTHS_PER_KWH * energy) - 20_000_000_000
                * r@.estimated_monthly_cost < 10_000_000_000
        }),
{
    let ds = input.devices@;
    let power = total_power_spec(ds, input.safety_factor);
    let current = input_current(input);
    let energy = 30 * daily_energy_sum(ds);
    let pf = avg_power_factor_spec(ds);
    lemma_weight_nonneg(ds);
    lemma_factor_sum_bounds(ds);
    let w = total_weight(ds);
    let f = input.safety_factor.thousandths as int;
    let v = input.voltage_level.thousandths as int;
    let k = crate::current::phase_factor(input.circuit_type);
    assert(power >= 0 && power * pf.1 >= 0 && k * v * pf.0 > 0) by (nonlinear_arith)
        requires
            power == w * f,
            w >= 0,
            f >= 0,
            pf.1 > 0,
            pf.0 > 0,
            v > 0,
            k >= 1000,
    ;
    lemma_round_hundredths_nearest(power, 1_000_000_000);
    lemma_round_hundredths_nearest(current.0, current.1);
    lemma_round_hundredths_nearest(energy, 1_000_000_000);
    lemma_round_hundredths_nearest(PRICE_TENTHS_PER_KWH * energy, 10_000_000_000);
}

} // verus!
