use safer::energy::EnergySource;
use safer::energy::EnergySourceType;
use safer::energy::MissionEnergyRequirements;
use safer::energy::RangeEstimate;
use safer::risk::Advisory;
use safer::risk::RiskLevel;

fn source(source_type: EnergySourceType) -> EnergySource {
    EnergySource {
        source_type,
        capacity_mkwh: 100_000,      // 100 kWh
        current_level_mpct: 50_000,  // 50%
        efficiency_milli: 900,       // 0.9
        power_output_mkw: 25_000,    // 25 kW
        temperature_mc: 20_000,      // 20 C
        maintenance_hours: 0,
        last_inspection_s: 1_700_000_000,
    }
}

fn requirements() -> MissionEnergyRequirements {
    MissionEnergyRequirements {
        distance_mkm: 10_000,       // 10 km
        duration_mh: 2_000,         // 2 h
        altitude_mm: 12_000_000,    // 12 000 m
        payload_weight_g: 150_000,  // 150 kg
        emergency_reserve_mpct: 20_000,  // 20%
    }
}

#[test]
fn test_risk_thresholds() {
    let probe = source(EnergySourceType::HydrogenFuelCell);
    assert_eq!(probe.determine_risk_level(90_000), RiskLevel::Low);
    assert_eq!(probe.determine_risk_level(89_999), RiskLevel::Medium);
    assert_eq!(probe.determine_risk_level(75_000), RiskLevel::Medium);
    assert_eq!(probe.determine_risk_level(74_999), RiskLevel::High);
    assert_eq!(probe.determine_risk_level(60_000), RiskLevel::High);
    assert_eq!(probe.determine_risk_level(59_999), RiskLevel::Critical);
}

#[test]
fn test_hydrogen_overheat() {
    // 90 C with no maintenance backlog: 100 - 2 * 10 = 80 points.
    let mut hydrogen = source(EnergySourceType::HydrogenFuelCell);
    hydrogen.temperature_mc = 90_000;
    let analysis = hydrogen.analyze(&requirements());
    assert_eq!(analysis.safety_rating_milli, 80_000);
    assert_eq!(analysis.risk_level, RiskLevel::Medium);
    assert!(analysis.recommendations.contains(&Advisory::ScheduleHydrogenInspection));
}

#[test]
fn test_hydrogen_maintenance_penalty() {
    // 600 hours: a tenth of a point for each of the 100 hours past 500.
    let mut hydrogen = source(EnergySourceType::HydrogenFuelCell);
    hydrogen.maintenance_hours = 600;
    let analysis = hydrogen.analyze(&requirements());
    assert_eq!(analysis.safety_rating_milli, 90_000);
    assert_eq!(analysis.risk_level, RiskLevel::Low);
}

#[test]
fn test_hydrogen_reserve_advisory() {
    let mut hydrogen = source(EnergySourceType::HydrogenFuelCell);
    hydrogen.current_level_mpct = 10_000;
    let analysis = hydrogen.analyze(&requirements());
    assert_eq!(analysis.recommendations, vec![Advisory::InsufficientHydrogenReserves]);
}

#[test]
fn test_nuclear_unbounded_range() {
    // Nuclear reports the unbounded sentinel whatever the capacity.
    let mut nuclear = source(EnergySourceType::NuclearThermal);
    let analysis = nuclear.analyze(&requirements());
    assert_eq!(analysis.range_estimate, RangeEstimate::Unbounded);
    nuclear.capacity_mkwh = 0;
    assert_eq!(nuclear.analyze(&requirements()).range_estimate, RangeEstimate::Unbounded);
    nuclear.capacity_mkwh = u64::MAX;
    assert_eq!(nuclear.analyze(&requirements()).range_estimate, RangeEstimate::Unbounded);
}

#[test]
fn test_nuclear_penalties_and_advisories() {
    let mut nuclear = source(EnergySourceType::NuclearThermal);
    nuclear.temperature_mc = 900_000;  // 900 C: half a point per degree past 800.
    nuclear.maintenance_hours = 1500;  // a twentieth of a point per hour past 1000.
    let analysis = nuclear.analyze(&requirements());
    assert_eq!(analysis.safety_rating_milli, 100_000 - 50_000 - 25_000);
    assert_eq!(analysis.risk_level, RiskLevel::Critical);
    assert_eq!(
        analysis.recommendations,
        vec![Advisory::CoreTemperatureNearLimit, Advisory::ScheduleReactorMaintenance],
    );
}

#[test]
fn test_electric_efficiency_penalty() {
    let mut electric = source(EnergySourceType::SolidStateElectric);
    electric.efficiency_milli = 500;  // one point per percent below 0.8
    let analysis = electric.analyze(&requirements());
    assert_eq!(analysis.safety_rating_milli, 70_000);
    assert_eq!(analysis.risk_level, RiskLevel::High);
}

#[test]
fn test_electric_advisory_order_is_fixed() {
    let mut electric = source(EnergySourceType::SolidStateElectric);
    electric.temperature_mc = 50_000;
    electric.current_level_mpct = 5_000;
    let analysis = electric.analyze(&requirements());
    assert_eq!(
        analysis.recommendations,
        vec![Advisory::BatteryTemperatureHigh, Advisory::BatteryChargeBelowRequirements],
    );
}

#[test]
fn test_solar_fixed_safety_and_range() {
    let solar = source(EnergySourceType::SolarElectric);
    let mut needs = requirements();
    needs.altitude_mm = 0;
    let analysis = solar.analyze(&needs);
    // Solar safety is a fixed 95 points.
    assert_eq!(analysis.safety_rating_milli, 95_000);
    assert_eq!(analysis.risk_level, RiskLevel::Low);
    // At sea level: 1000 W/m2 * 0.9 * 100 kWh on the documented scale.
    assert_eq!(analysis.range_estimate, RangeEstimate::MilliKm(90_000_000));
    // Below 10 000 m, the altitude advisory fires.
    assert_eq!(analysis.recommendations, vec![Advisory::IncreaseAltitudeForSolar]);
}

#[test]
fn test_solar_low_efficiency_advisory() {
    let mut solar = source(EnergySourceType::SolarElectric);
    solar.efficiency_milli = 100;
    let analysis = solar.analyze(&requirements());
    assert_eq!(analysis.recommendations, vec![Advisory::SolarEfficiencyBelowOptimal]);
}

#[test]
fn test_fixed_efficiency_ratings_and_ranges() {
    let needs = requirements();
    let hydrogen = source(EnergySourceType::HydrogenFuelCell).analyze(&needs);
    assert_eq!(hydrogen.efficiency_rating_milli, 600);
    assert_eq!(hydrogen.range_estimate, RangeEstimate::MilliKm(30_000));
    assert_eq!(hydrogen.environmental_impact_mkg_per_kwh, 0);
    let electric = source(EnergySourceType::SolidStateElectric).analyze(&needs);
    assert_eq!(electric.efficiency_rating_milli, 950);
    assert_eq!(electric.range_estimate, RangeEstimate::MilliKm(28_500));
    let hybrid = source(EnergySourceType::Hybrid).analyze(&needs);
    assert_eq!(hybrid.efficiency_rating_milli, 750);
    assert_eq!(hybrid.range_estimate, RangeEstimate::MilliKm(30_000));
    let chemical = source(EnergySourceType::ChemicalFuel).analyze(&needs);
    assert_eq!(chemical.efficiency_rating_milli, 350);
    assert_eq!(chemical.range_estimate, RangeEstimate::MilliKm(35_000));
    // Chemical fuel is the one type with direct emissions.
    assert_eq!(chemical.environmental_impact_mkg_per_kwh, 2300);
}

#[test]
fn test_chemical_fuel_scoring() {
    let mut chemical = source(EnergySourceType::ChemicalFuel);
    chemical.temperature_mc = 70_000;  // two points per degree past 60
    let analysis = chemical.analyze(&requirements());
    assert_eq!(analysis.safety_rating_milli, 80_000);
    assert_eq!(analysis.risk_level, RiskLevel::Medium);
    assert_eq!(analysis.recommendations, vec![Advisory::ScheduleFuelSystemInspection]);
}

#[test]
fn test_hybrid_uses_battery_model() {
    let mut hybrid = source(EnergySourceType::Hybrid);
    hybrid.temperature_mc = 50_000;
    let analysis = hybrid.analyze(&requirements());
    assert_eq!(analysis.safety_rating_milli, 90_000);
    assert_eq!(analysis.risk_level, RiskLevel::Low);
    assert_eq!(analysis.recommendations, vec![Advisory::BatteryTemperatureHigh]);
}

#[test]
fn test_energy_analysis_repeats_identically() {
    let mut electric = source(EnergySourceType::SolidStateElectric);
    electric.temperature_mc = 47_500;
    electric.efficiency_milli = 650;
    let needs = requirements();
    let first = electric.analyze(&needs);
    let second = electric.analyze(&needs);
    assert_eq!(first, second);
}

#[test]
fn test_safety_score_clamped_at_zero() {
    let mut hydrogen = source(EnergySourceType::HydrogenFuelCell);
    hydrogen.temperature_mc = 10_000_000;  // absurdly hot
    let analysis = hydrogen.analyze(&requirements());
    assert_eq!(analysis.safety_rating_milli, 0);
    assert_eq!(analysis.risk_level, RiskLevel::Critical);
}
