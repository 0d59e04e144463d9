use vstd::prelude::*;
use vstd::string::*;
use crate::units::{Centi, Milli};

verus! {

/// One appliance or load class: `quantity` identical units of `power_watts` each.
#[derive(Debug, Clone)]
pub struct Device {
    pub name: String,
    /// Rated power of one unit, in watts.
    pub power_watts: Milli,
    pub quantity: u32,
    /// Daily operating hours.
    pub usage_hours_per_day: Milli,
    /// Ratio of real to apparent power, expected in (0, 1].
    pub power_factor: Milli,
}

impl Device {
    /// Builds a device from a loosely filled record, each missing field taking its
    /// default: empty name, 0 W, one unit, 8 hours a day, power factor 0.9.
    pub fn with_defaults(
        name: Option<String>,
        power_watts: Option<Milli>,
        quantity: Option<u32>,
        usage_hours_per_day: Option<Milli>,
        power_factor: Option<Milli>,
    ) -> (r: Device)
        ensures
            r.name@ == (match name {
                Some(n) => n@,
                None => Seq::<char>::empty(),
            }),
            r.power_watts.thousandths == (match power_watts {
                Some(p) => p.thousandths,
                None => 0,
            }),
            r.quantity == (match quantity {
                Some(q) => q,
                None => 1,
            }),
            r.usage_hours_per_day.thousandths == (match usage_hours_per_day {
                Some(h) => h.thousandths,
                None => 8000,
            }),
            r.power_factor.thousandths == (match power_factor {
                Some(f) => f.thousandths,
                None => 900,
            }),
    {
        let name = match name {
            Some(n) => n,
            None => String::new(),
        };
        let power_watts = match power_watts {
            Some(p) => p,
            None => Milli { thousandths: 0 },
        };
        let quantity = match quantity {
            Some(q) => q,
            None => 1,
        };
        let usage_hours_per_day = match usage_hours_per_day {
            Some(h) => h,
            None => Milli { thousandths: 8000 },
        };
        let power_factor = match power_factor {
            Some(f) => f,
            None => Milli { thousandths: 900 },
        };
        Device { name, power_watts, quantity, usage_hours_per_day, power_factor }
    }
}

/// Phase configuration of the circuit; selects the current formula.
#[derive(Debug, Clone, Copy, PartialEq, Eq, Structural)]
pub enum CircuitType {
    SinglePhase,
    ThreePhase,
}

impl Default for CircuitType {
    fn default() -> (r: CircuitType)
        ensures
            r == CircuitType::SinglePhase,
    {
        CircuitType::SinglePhase
    }
}

impl CircuitType {
    /// Reads a circuit type from its wire name: `"three_phase"` is three-phase,
    /// every other name single-phase.
    pub fn from_name(name: &str) -> (r: CircuitType)
        ensures
            r == (if name@ == "three_phase"@ {
                CircuitType::ThreePhase
            } else {
                CircuitType::SinglePhase
            }),
    {
        let given = String::from_str(name);
        let three_phase = String::from_str("three_phase");
        if given == three_phase {
            CircuitType::ThreePhase
        } else {
            CircuitType::SinglePhase
        }
    }

    /// The wire name of a circuit type.
    pub fn name(&self) -> (r: &'static str)
        ensures
            r@ == (match self {
                CircuitType::SinglePhase => "single_phase"@,
                CircuitType::ThreePhase => "three_phase"@,
            }),
    {
        match self {
            CircuitType::SinglePhase => "single_phase",
            CircuitType::ThreePhase => "three_phase",
        }
    }
}

/// Safety classification, from least to most severe.
#[derive(Debug, Clone, Copy, PartialEq, Eq, PartialOrd, Ord, Structural)]
pub enum SafetyStatus {
    Safe,
    Warning,
    Danger,
}

impl SafetyStatus {
    /// The wire name of a status, in lower case.
    pub fn name(&self) -> (r: &'static str)
        ensures
            r@ == (match self {
                SafetyStatus::Safe => "safe"@,
                SafetyStatus::Warning => "warning"@,
                SafetyStatus::Danger => "danger"@,
            }),
    {
        match self {
            SafetyStatus::Safe => "safe",
            SafetyStatus::Warning => "warning",
            SafetyStatus::Danger => "danger",
        }
    }
}

/// A device list and the circuit it is to be placed on.
#[derive(Debug, Clone)]
pub struct LoadCalculationInput {
    pub devices: Vec<Device>,
    pub circuit_type: CircuitType,
    /// Circuit voltage, in volts.
    pub voltage_level: Milli,
    /// Multiplier applied to the summed rated power (typically 1.2 to 1.25).
    pub safety_factor: Milli,
}

/// Sizing recommendations and safety diagnostics for one device list.
#[derive(Debug, Clone)]
pub struct LoadCalculationResult {
    pub total_load_kw: Centi,
    pub total_current_amps: Centi,
    pub recommended_breaker_amps: u32,
    /// Cable cross-section, in square millimetres.
    pub recommended_cable_section: Milli,
    pub monthly_consumption_kwh: Centi,
    pub estimated_monthly_cost: Centi,
    pub safety_status: SafetyStatus,
    pub warnings: Vec<String>,
    pub recommendations: Vec<String>,
}

/// The texts held by a list of strings.
pub open spec fn texts(v: Seq<String>) -> Seq<Seq<char>> {
    v.map_values(|s: String| s@)
}

} // verus!
