//! Electrical load calculation: from a list of devices and a circuit
//! description to the total load, line current, recommended breaker and cable,
//! monthly energy and cost, and a safety assessment.
//!
//! Decimal inputs are held as thousandths ([`Milli`]), intermediate quantities
//! as exact ratios ([`Ratio`]), and rounded results as hundredths ([`Centi`]).

pub mod current;
pub mod engine;
pub mod model;
pub mod power;
pub mod safety;
pub mod selector;
pub mod units;

pub use current::calculate_current;
pub use engine::calculate_load;
pub use model::{CircuitType, Device, LoadCalculationInput, LoadCalculationResult, SafetyStatus};
pub use power::{calculate_avg_power_factor, calculate_monthly_energy, calculate_total_power};
pub use safety::assess_safety;
pub use selector::{recommend_breaker, recommend_cable_section};
pub use units::{Centi, Milli, Ratio};
