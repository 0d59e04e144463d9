use elektrik_engine::safety::decimal_string;
use elektrik_engine::units::to_hundredths;
use elektrik_engine::{
    assess_safety, calculate_avg_power_factor, calculate_current, calculate_load,
    calculate_monthly_energy, calculate_total_power, recommend_breaker, recommend_cable_section,
    Centi, CircuitType, Device, LoadCalculationInput, Milli, Ratio, SafetyStatus,
};

fn milli(value: f64) -> Milli {
    Milli::new((value * 1000.0).round() as u32)
}

fn device(name: &str, power: f64, quantity: u32, hours: f64, factor: f64) -> Device {
    Device {
        name: name.to_string(),
        power_watts: milli(power),
        quantity,
        usage_hours_per_day: milli(hours),
        power_factor: milli(factor),
    }
}

fn amps(value: u128) -> Ratio {
    Ratio::new(value, 1)
}

fn value(r: &Ratio) -> f64 {
    r.num as f64 / r.den as f64
}

fn watts_to_microwatts(watts: u128) -> u128 {
    watts * 1_000_000
}

fn air_conditioner() -> Device {
    device("Klima", 2500.0, 2, 8.0, 0.85)
}

fn refrigerator() -> Device {
    device("Buzdolabı", 150.0, 1, 24.0, 0.9)
}

fn input_of(devices: Vec<Device>, circuit_type: CircuitType, voltage: f64, sf: f64) -> LoadCalculationInput {
    LoadCalculationInput {
        devices,
        circuit_type,
        voltage_level: milli(voltage),
        safety_factor: milli(sf),
    }
}

const HIGH_USAGE_88: &str = "Sistem kapasitesi yüksek kullanım seviyesinde (88%)";
const OVERLOADED: &str = "KRİTİK: Sistem aşırı yüklü durumda";
const FIRE_RISK: &str = "Aşırı ısınma ve yangın riski mevcut";
const RESIZE: &str = "ACİL: Elektrik sistemini yeniden boyutlandırın";
const HIGHER_CAPACITY: &str = "Daha yüksek kapasiteli sigorta ve kablo kullanımı önerilir";
const THREE_PHASE: &str = "Bu yük için 3 fazlı sistem değerlendirmesi önerilir";
const BALANCING: &str = "Yük dengeleme için devre sayısını artırmayı düşünün";
const WITHIN_LIMITS: &str = "Sistem güvenli çalışma parametreleri içinde";
const YEARLY_CHECK: &str = "Yıllık periyodik kontrol önerilir";

#[test]
fn test_calculate_total_power() {
    let devices = vec![air_conditioner(), refrigerator()];
    let total = calculate_total_power(&devices, milli(1.0));
    assert!((total as f64 / 1_000_000.0 - 5150.0).abs() < 0.1);
}

#[test]
fn test_calculate_current_single_phase() {
    let current = calculate_current(
        watts_to_microwatts(2200),
        milli(220.0),
        CircuitType::SinglePhase,
        Ratio::new(1, 1),
    );
    assert!((value(&current) - 10.0).abs() < 0.1);
}

#[test]
fn test_calculate_current_three_phase() {
    let current = calculate_current(
        watts_to_microwatts(11000),
        milli(380.0),
        CircuitType::ThreePhase,
        Ratio::new(9, 10),
    );
    // I = 11000 / (1.732 * 380 * 0.9) ≈ 18.57 A
    assert!((value(&current) - 18.57).abs() < 0.1);
}

#[test]
fn test_recommend_breaker() {
    // 10 * 1.25 = 12.5: the first rating at or above it is 16.
    assert_eq!(recommend_breaker(&amps(10)), 16);
    // 20 * 1.25 = 25: a rating equal to the target is adequate.
    assert_eq!(recommend_breaker(&amps(20)), 25);
    // 50 * 1.25 = 62.5: the first rating at or above it is 63.
    assert_eq!(recommend_breaker(&amps(50)), 63);
}

#[test]
fn test_recommend_cable_section() {
    // 10 * 1.25 = 12.5: 1.5 mm² carries 16 A.
    assert_eq!(recommend_cable_section(&amps(10)), milli(1.5));
    // 30 * 1.25 = 37.5: 10 mm² (50 A) is the first that carries it.
    assert_eq!(recommend_cable_section(&amps(30)), milli(10.0));
}

#[test]
fn test_full_calculation() {
    let input = input_of(vec![air_conditioner()], CircuitType::SinglePhase, 220.0, 1.2);
    let result = calculate_load(input);
    assert!(result.total_load_kw.hundredths > 0);
    assert!(result.total_current_amps.hundredths > 0);
    assert!(result.recommended_breaker_amps > 0);
    assert!(result.recommended_cable_section.thousandths > 0);
}

#[test]
fn test_safety_assessment() {
    let (status, warnings, _) = assess_safety(&amps(10), 32, &Ratio::new(22, 10));
    assert_eq!(status, SafetyStatus::Safe);
    assert!(warnings.is_empty());

    let (status, warnings, _) = assess_safety(&amps(28), 32, &Ratio::new(616, 100));
    assert_eq!(status, SafetyStatus::Warning);
    assert!(!warnings.is_empty());

    let (status, warnings, _) = assess_safety(&amps(31), 32, &Ratio::new(682, 100));
    assert_eq!(status, SafetyStatus::Danger);
    assert!(!warnings.is_empty());
}

#[test]
fn total_power_is_additive_over_concatenation() {
    let first = vec![air_conditioner()];
    let second = vec![refrigerator(), device("Fırın", 2000.0, 1, 1.5, 1.0)];
    let both: Vec<Device> = first.iter().chain(second.iter()).cloned().collect();
    let sf = milli(1.25);
    assert_eq!(
        calculate_total_power(&both, sf),
        calculate_total_power(&first, sf) + calculate_total_power(&second, sf)
    );
    assert_eq!(calculate_total_power(&both, milli(1.0)), watts_to_microwatts(7150));
}

#[test]
fn total_power_applies_safety_factor() {
    let devices = vec![air_conditioner()];
    assert_eq!(calculate_total_power(&devices, milli(1.2)), watts_to_microwatts(6000));
    assert_eq!(calculate_total_power(&Vec::new(), milli(1.2)), 0);
}

#[test]
fn single_phase_current_is_exact() {
    let current = calculate_current(
        watts_to_microwatts(2200),
        milli(220.0),
        CircuitType::SinglePhase,
        Ratio::new(1, 1),
    );
    assert_eq!(current.num, 10 * current.den);
    assert_eq!(to_hundredths(&current), Centi { hundredths: 1000 });
}

#[test]
fn three_phase_current_uses_fixed_root_three() {
    let current = calculate_current(
        watts_to_microwatts(11000),
        milli(380.0),
        CircuitType::ThreePhase,
        Ratio::new(9, 10),
    );
    // 11000 / (1.732 * 380 * 0.9) = 18.5703...
    assert_eq!(to_hundredths(&current), Centi { hundredths: 1857 });
    assert_eq!(current.num * 1732 * 380 * 9, current.den * 11000 * 10 * 1000);
}

#[test]
fn breaker_falls_back_to_largest_rating() {
    assert_eq!(recommend_breaker(&amps(1000)), 250);
    assert_eq!(recommend_breaker(&amps(200)), 250);
    assert_eq!(recommend_breaker(&amps(0)), 6);
    // 4 * 1.25 = 5: the smallest rating, 6.
    assert_eq!(recommend_breaker(&amps(4)), 6);
}

#[test]
fn cable_falls_back_to_largest_section() {
    assert_eq!(recommend_cable_section(&amps(1000)), milli(120.0));
    assert_eq!(recommend_cable_section(&amps(0)), milli(1.5));
    // 16.8 * 1.25 = 21: the 2.5 mm² section carries exactly 21 A.
    assert_eq!(recommend_cable_section(&Ratio::new(168, 10)), milli(2.5));
}

#[test]
fn average_power_factor_is_weighted_by_power() {
    let devices = vec![air_conditioner(), refrigerator()];
    let pf = calculate_avg_power_factor(&devices);
    // (5000 * 0.85 + 150 * 0.9) / 5150
    assert!((value(&pf) - 4385.0 / 5150.0).abs() < 1e-12);
    let empty = calculate_avg_power_factor(&Vec::new());
    assert_eq!(empty.num * 10, empty.den * 9);
    let idle = calculate_avg_power_factor(&vec![device("Boş", 0.0, 3, 8.0, 0.5)]);
    assert_eq!(idle.num * 10, idle.den * 9);
}

#[test]
fn monthly_energy_uses_thirty_days() {
    let devices = vec![air_conditioner(), refrigerator()];
    let energy = calculate_monthly_energy(&devices);
    // (2500 * 2 * 8 + 150 * 24) / 1000 * 30 = 1308 kWh
    assert_eq!(energy.num, 1308 * energy.den);
}

#[test]
fn safety_danger_messages() {
    let (status, warnings, recommendations) = assess_safety(&amps(31), 32, &Ratio::new(682, 100));
    assert_eq!(status, SafetyStatus::Danger);
    assert_eq!(warnings, vec![OVERLOADED.to_string(), FIRE_RISK.to_string()]);
    assert_eq!(recommendations, vec![RESIZE.to_string()]);
}

#[test]
fn safety_warning_reports_rounded_percentage() {
    let (status, warnings, recommendations) = assess_safety(&amps(28), 32, &Ratio::new(616, 100));
    assert_eq!(status, SafetyStatus::Warning);
    assert_eq!(warnings, vec![HIGH_USAGE_88.to_string()]);
    assert_eq!(recommendations, vec![HIGHER_CAPACITY.to_string()]);
}

#[test]
fn safety_safe_messages() {
    let (status, warnings, recommendations) = assess_safety(&amps(10), 32, &Ratio::new(22, 10));
    assert_eq!(status, SafetyStatus::Safe);
    assert!(warnings.is_empty());
    assert_eq!(recommendations, vec![WITHIN_LIMITS.to_string(), YEARLY_CHECK.to_string()]);
}

#[test]
fn safety_thresholds_are_strict() {
    // Load factor exactly 0.95: Warning, not Danger.
    let (status, warnings, _) = assess_safety(&amps(19), 20, &Ratio::new(1, 1));
    assert_eq!(status, SafetyStatus::Warning);
    assert_eq!(
        warnings,
        vec!["Sistem kapasitesi yüksek kullanım seviyesinde (95%)".to_string()]
    );
    // Load factor exactly 0.80: Safe.
    let (status, warnings, _) = assess_safety(&amps(16), 20, &Ratio::new(1, 1));
    assert_eq!(status, SafetyStatus::Safe);
    assert!(warnings.is_empty());
}

#[test]
fn safety_high_load_recommendations() {
    let (status, _, recommendations) = assess_safety(&amps(10), 32, &Ratio::new(12, 1));
    assert_eq!(status, SafetyStatus::Safe);
    assert_eq!(
        recommendations,
        vec![
            THREE_PHASE.to_string(),
            BALANCING.to_string(),
            WITHIN_LIMITS.to_string(),
            YEARLY_CHECK.to_string()
        ]
    );
    let (_, _, recommendations) = assess_safety(&amps(31), 32, &Ratio::new(12, 1));
    assert_eq!(recommendations, vec![RESIZE.to_string(), THREE_PHASE.to_string()]);
    // Exactly 5 kW and exactly 10 kW add nothing.
    let (_, _, recommendations) = assess_safety(&amps(10), 32, &Ratio::new(5, 1));
    assert_eq!(recommendations, vec![WITHIN_LIMITS.to_string(), YEARLY_CHECK.to_string()]);
    let (_, _, recommendations) = assess_safety(&amps(10), 32, &Ratio::new(10, 1));
    assert_eq!(
        recommendations,
        vec![BALANCING.to_string(), WITHIN_LIMITS.to_string(), YEARLY_CHECK.to_string()]
    );
}

#[test]
fn end_to_end_single_device() {
    let input = input_of(vec![air_conditioner()], CircuitType::SinglePhase, 220.0, 1.2);
    let result = calculate_load(input);
    // 6000 W at 220 V and pf 0.85: 32.0855 A, target 40.1 A.
    assert_eq!(result.total_load_kw, Centi { hundredths: 600 });
    assert_eq!(result.total_current_amps, Centi { hundredths: 3209 });
    assert_eq!(result.recommended_breaker_amps, 50);
    assert_eq!(result.recommended_cable_section, milli(10.0));
    assert_eq!(result.monthly_consumption_kwh, Centi { hundredths: 120000 });
    assert_eq!(result.estimated_monthly_cost, Centi { hundredths: 420000 });
    assert_eq!(result.safety_status, SafetyStatus::Safe);
    assert!(result.warnings.is_empty());
    assert_eq!(
        result.recommendations,
        vec![BALANCING.to_string(), WITHIN_LIMITS.to_string(), YEARLY_CHECK.to_string()]
    );
    let breakers = [6, 10, 16, 20, 25, 32, 40, 50, 63, 80, 100, 125, 160, 200, 250];
    assert!(breakers.contains(&result.recommended_breaker_amps));
}

#[test]
fn end_to_end_three_phase_overload() {
    let input = input_of(
        vec![device("Motor", 40000.0, 4, 10.0, 0.8)],
        CircuitType::ThreePhase,
        380.0,
        1.25,
    );
    let result = calculate_load(input);
    // 200 kW / (1.732 * 380 * 0.8) = 379.85 A, beyond every table entry.
    assert_eq!(result.total_load_kw, Centi { hundredths: 20000 });
    assert_eq!(result.total_current_amps, Centi { hundredths: 37985 });
    assert_eq!(result.recommended_breaker_amps, 250);
    assert_eq!(result.recommended_cable_section, milli(120.0));
    assert_eq!(result.safety_status, SafetyStatus::Danger);
    assert_eq!(result.warnings, vec![OVERLOADED.to_string(), FIRE_RISK.to_string()]);
    assert_eq!(result.recommendations, vec![RESIZE.to_string(), THREE_PHASE.to_string()]);
    // 160 kW * 10 h * 30 days = 48000 kWh, at 3.5 per kWh.
    assert_eq!(result.monthly_consumption_kwh, Centi { hundredths: 4800000 });
    assert_eq!(result.estimated_monthly_cost, Centi { hundredths: 16800000 });
}

#[test]
fn empty_device_list_is_safe() {
    let result = calculate_load(input_of(Vec::new(), CircuitType::SinglePhase, 230.0, 1.2));
    assert_eq!(result.total_load_kw, Centi { hundredths: 0 });
    assert_eq!(result.total_current_amps, Centi { hundredths: 0 });
    assert_eq!(result.recommended_breaker_amps, 6);
    assert_eq!(result.recommended_cable_section, milli(1.5));
    assert_eq!(result.monthly_consumption_kwh, Centi { hundredths: 0 });
    assert_eq!(result.safety_status, SafetyStatus::Safe);
    assert_eq!(result.recommendations, vec![WITHIN_LIMITS.to_string(), YEARLY_CHECK.to_string()]);
}

#[test]
fn calculation_is_repeatable() {
    let input = input_of(
        vec![air_conditioner(), refrigerator()],
        CircuitType::SinglePhase,
        220.0,
        1.2,
    );
    let first = calculate_load(input.clone());
    let second = calculate_load(input);
    assert_eq!(first.total_load_kw, second.total_load_kw);
    assert_eq!(first.total_current_amps, second.total_current_amps);
    assert_eq!(first.recommended_breaker_amps, second.recommended_breaker_amps);
    assert_eq!(first.recommended_cable_section, second.recommended_cable_section);
    assert_eq!(first.monthly_consumption_kwh, second.monthly_consumption_kwh);
    assert_eq!(first.estimated_monthly_cost, second.estimated_monthly_cost);
    assert_eq!(first.safety_status, second.safety_status);
    assert_eq!(first.warnings, second.warnings);
    assert_eq!(first.recommendations, second.recommendations);
}

#[test]
fn rounding_keeps_two_digits_half_up() {
    // 0.125 rounds up to 0.13, 0.124 down to 0.12.
    assert_eq!(to_hundredths(&Ratio::new(125, 1000)), Centi { hundredths: 13 });
    assert_eq!(to_hundredths(&Ratio::new(124, 1000)), Centi { hundredths: 12 });
    assert_eq!(to_hundredths(&Ratio::new(2, 3)), Centi { hundredths: 67 });
    // 5150 W * 1.2 = 6.18 kW over two devices.
    let result = calculate_load(input_of(
        vec![air_conditioner(), refrigerator()],
        CircuitType::SinglePhase,
        220.0,
        1.2,
    ));
    assert_eq!(result.total_load_kw, Centi { hundredths: 618 });
}

#[test]
fn decimal_text_of_numbers() {
    assert_eq!(decimal_string(0), "0");
    assert_eq!(decimal_string(7), "7");
    assert_eq!(decimal_string(88), "88");
    assert_eq!(decimal_string(1200), "1200");
}

#[test]
fn circuit_and_status_names() {
    assert_eq!(CircuitType::from_name("three_phase"), CircuitType::ThreePhase);
    assert_eq!(CircuitType::from_name("single_phase"), CircuitType::SinglePhase);
    assert_eq!(CircuitType::from_name("Three_Phase"), CircuitType::SinglePhase);
    assert_eq!(CircuitType::from_name(""), CircuitType::SinglePhase);
    assert_eq!(CircuitType::default(), CircuitType::SinglePhase);
    assert_eq!(CircuitType::ThreePhase.name(), "three_phase");
    assert_eq!(SafetyStatus::Safe.name(), "safe");
    assert_eq!(SafetyStatus::Warning.name(), "warning");
    assert_eq!(SafetyStatus::Danger.name(), "danger");
    assert!(SafetyStatus::Safe < SafetyStatus::Warning);
    assert!(SafetyStatus::Warning < SafetyStatus::Danger);
}

#[test]
fn device_defaults_fill_missing_fields() {
    let d = Device::with_defaults(None, None, None, None, None);
    assert_eq!(d.name, "");
    assert_eq!(d.power_watts, milli(0.0));
    assert_eq!(d.quantity, 1);
    assert_eq!(d.usage_hours_per_day, milli(8.0));
    assert_eq!(d.power_factor, milli(0.9));
    let d = Device::with_defaults(
        Some("Klima".to_string()),
        Some(milli(2500.0)),
        Some(2),
        Some(milli(6.5)),
        Some(milli(0.85)),
    );
    assert_eq!(d.name, "Klima");
    assert_eq!(d.power_watts, milli(2500.0));
    assert_eq!(d.quantity, 2);
    assert_eq!(d.usage_hours_per_day, milli(6.5));
    assert_eq!(d.power_factor, milli(0.85));
}
