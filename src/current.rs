use vstd::prelude::*;
use crate::model::CircuitType;
use crate::units::{Milli, Ratio, RATIO_MAX_DEN, RATIO_MAX_NUM};

verus! {

/// Thousandths in the constant that stands for the square root of three (1.732).
pub const SQRT3_THOUSANDTHS: u128 = 1732;

/// The factor, in thousandths, that multiplies voltage and power factor in the
/// current formula: 1 for a single phase, 1.732 for three phases.
pub open spec fn phase_factor(circuit_type: CircuitType) -> int {
    match circuit_type {
        CircuitType::SinglePhase => 1000,
        CircuitType::ThreePhase => 1732,
    }
}

/// Line current, in amperes, as `(numerator, denominator)`, of `power_microwatts`
/// drawn at `voltage` with power factor `factor_num / factor_den`:
/// `P / (V * pf)` on a single phase, `P / (1.732 * V * pf)` on three phases.
pub open spec fn current_spec(
    power_microwatts: int,
    voltage: Milli,
    circuit_type: CircuitType,
    factor_num: int,
    factor_den: int,
) -> (int, int) {
    (
        power_microwatts * factor_den,
        phase_factor(circuit_type) * voltage.thousandths as int * factor_num,
    )
}

/// Line current of a load of `power_microwatts` at the given voltage, phase
/// configuration and power factor. Voltage and power factor must be positive.
pub fn calculate_current(
    power_microwatts: u128,
    voltage: Milli,
    circuit_type: CircuitType,
    power_factor: Ratio,
) -> (r: Ratio)
    requires
        voltage.thousandths > 0,
        power_factor.num > 0,
        power_factor.den > 0,
        power_microwatts * power_factor.den <= RATIO_MAX_NUM,
        SQRT3_THOUSANDTHS * voltage.thousandths * power_factor.num <= RATIO_MAX_DEN,
    ensures
        (r.num as int, r.den as int) == current_spec(
            power_microwatts as int,
            voltage,
            circuit_type,
            power_factor.num as int,
            power_factor.den as int,
        ),
        r.wf(),
{
    let v = voltage.thousandths as u128;
    let num = power_microwatts * power_factor.den;
    proof {
        let f = power_factor.num as int;
        assert(1000 * v * f <= 1732 * v * f && 1000 * v * f > 0) by (nonlinear_arith)
            requires
                v > 0,
                f > 0,
        ;
    }
    match circuit_type {
        CircuitType::ThreePhase => Ratio { num, den: SQRT3_THOUSANDTHS * v * power_factor.num },
        CircuitType::SinglePhase => Ratio { num, den: 1000 * v * power_factor.num },
    }
}

} // verus!
