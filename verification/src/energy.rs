//! Energy-source safety analysis: per-source-type safety scoring from
//! temperature, maintenance and efficiency factors, mission range
//! estimates, and the derived risk level with its advisories.
//!
//! Scale conventions of this module:
//! - capacities in milli-kilowatt-hours, power in milli-kilowatts;
//! - charge levels and reserves in milli-percent (100% = 100_000);
//! - efficiencies in milli-fractions of one (1.0 = 1000);
//! - temperatures in milli-degrees Celsius;
//! - safety scores in milli-points on the 0..=100 point scale;
//! - ranges in milli-kilometres, altitudes in millimetres;
//! - environmental impact in milli-kilograms of CO2 equivalent per kWh.

use vstd::prelude::*;

use crate::risk::Advisory;
use crate::risk::RiskLevel;
use crate::risk::classify;
use crate::risk::energy_score_bands;
use crate::risk::spec_classify;
use crate::risk::spec_energy_score_bands;

verus! {

/// The closed set of energy-source kinds the analyzer knows. Dispatch is
/// an exhaustive match, so a missing handler is a compile-time fault.
#[derive(Clone, Copy, Debug, PartialEq, Eq, Structural, Hash)]
pub enum EnergySourceType {
    HydrogenFuelCell,
    SolidStateElectric,
    NuclearThermal,
    Hybrid,
    SolarElectric,
    ChemicalFuel,
}

/// One energy source as the caller measured it: a plain value record,
/// owned by the caller and only read during one analysis.
#[derive(Clone, Copy, Debug, PartialEq, Eq, Structural)]
pub struct EnergySource {
    pub source_type: EnergySourceType,
    /// Stored energy in milli-kilowatt-hours.
    pub capacity_mkwh: u64,
    /// Current charge level in milli-percent.
    pub current_level_mpct: u64,
    /// Conversion efficiency as a milli-fraction of one (at most 1000).
    pub efficiency_milli: u64,
    /// Rated output in milli-kilowatts.
    pub power_output_mkw: u64,
    /// Operating temperature in milli-degrees Celsius.
    pub temperature_mc: i64,
    /// Hours of operation since the last maintenance.
    pub maintenance_hours: u32,
    /// Last inspection, in seconds of the caller's epoch.
    pub last_inspection_s: i64,
}

/// The demand side an energy source is matched against.
#[derive(Clone, Copy, Debug, PartialEq, Eq, Structural)]
pub struct MissionEnergyRequirements {
    /// Mission distance in milli-kilometres.
    pub distance_mkm: u64,
    /// Mission duration in milli-hours.
    pub duration_mh: u64,
    /// Operating altitude in millimetres.
    pub altitude_mm: u64,
    /// Payload weight in grams.
    pub payload_weight_g: u64,
    /// Required emergency reserve in milli-percent.
    pub emergency_reserve_mpct: u64,
}

/// A mission range estimate. Nuclear-thermal sources report the
/// `Unbounded` sentinel, never a finite approximation.
#[derive(Clone, Copy, Debug, PartialEq, Eq, Structural)]
pub enum RangeEstimate {
    Unbounded,
    MilliKm(u64),
}

/// The report of one energy-source analysis.
#[derive(Clone, Debug, PartialEq, Eq)]
pub struct EnergyAnalysis {
    pub source_type: EnergySourceType,
    pub risk_level: RiskLevel,
    pub range_estimate: RangeEstimate,
    /// Fixed per-type efficiency rating, as a milli-fraction of one.
    pub efficiency_rating_milli: u64,
    /// CO2 equivalent in milli-kilograms per kilowatt-hour.
    pub environmental_impact_mkg_per_kwh: u64,
    /// Safety score in milli-points, clamped to 0..=100_000.
    pub safety_rating_milli: u64,
    /// Advisories in the fixed order this source type appends them.
    pub recommendations: Vec<Advisory>,
}

/// Clamp a score to the 0..=100 point scale (in milli-points).
pub open spec fn spec_clamp_score(score: int) -> int {
    if score < 0 {
        0
    } else if score > 100_000 {
        100_000
    } else {
        score
    }
}

/// Hydrogen safety: from 100 points, two per degree above 80 degrees
/// Celsius and a tenth of a point per maintenance hour beyond 500.
pub open spec fn spec_hydrogen_safety(temperature_mc: int, maintenance_hours: int) -> int {
    let temperature_penalty = if temperature_mc > 80_000 {
        2 * (temperature_mc - 80_000)
    } else {
        0
    };
    let maintenance_penalty = if maintenance_hours > 500 {
        100 * (maintenance_hours - 500)
    } else {
        0
    };
    spec_clamp_score(100_000 - temperature_penalty - maintenance_penalty)
}

/// Electric safety: from 100 points, two per degree above 45 degrees
/// Celsius and one point per percent of efficiency below 0.8.
pub open spec fn spec_electric_safety(temperature_mc: int, efficiency_milli: int) -> int {
    let temperature_penalty = if temperature_mc > 45_000 {
        2 * (temperature_mc - 45_000)
    } else {
        0
    };
    let efficiency_penalty = if efficiency_milli < 800 {
        100 * (800 - efficiency_milli)
    } else {
        0
    };
    spec_clamp_score(100_000 - temperature_penalty - efficiency_penalty)
}

/// Nuclear safety: from 100 points, half a point per degree above 800
/// degrees Celsius and a twentieth of a point per maintenance hour
/// beyond 1000.
pub open spec fn spec_nuclear_safety(temperature_mc: int, maintenance_hours: int) -> int {
    let temperature_penalty = if temperature_mc > 800_000 {
        (temperature_mc - 800_000) / 2
    } else {
        0
    };
    let maintenance_penalty = if maintenance_hours > 1000 {
        50 * (maintenance_hours - 1000)
    } else {
        0
    };
    spec_clamp_score(100_000 - temperature_penalty - maintenance_penalty)
}

/// Chemical-fuel safety, a simplified model in the shape of the hydrogen
/// one: two points per degree above 60 degrees Celsius and a tenth of a
/// point per maintenance hour beyond 300.
pub open spec fn spec_chemical_safety(temperature_mc: int, maintenance_hours: int) -> int {
    let temperature_penalty = if temperature_mc > 60_000 {
        2 * (temperature_mc - 60_000)
    } else {
        0
    };
    let maintenance_penalty = if maintenance_hours > 300 {
        100 * (maintenance_hours - 300)
    } else {
        0
    };
    spec_clamp_score(100_000 - temperature_penalty - maintenance_penalty)
}

/// The safety score of a source, dispatched on its type. Solar is a
/// fixed 95 points: deliberately a constant, with no penalty model; a
/// hybrid stack is scored by the electric model that dominates it.
pub open spec fn spec_safety_rating(source: EnergySource) -> int {
    match source.source_type {
        EnergySourceType::HydrogenFuelCell => spec_hydrogen_safety(
            source.temperature_mc as int,
            source.maintenance_hours as int,
        ),
        EnergySourceType::SolidStateElectric => spec_electric_safety(
            source.temperature_mc as int,
            source.efficiency_milli as int,
        ),
        EnergySourceType::NuclearThermal => spec_nuclear_safety(
            source.temperature_mc as int,
            source.maintenance_hours as int,
        ),
        EnergySourceType::Hybrid => spec_electric_safety(
            source.temperature_mc as int,
            source.efficiency_milli as int,
        ),
        EnergySourceType::SolarElectric => 95_000,
        EnergySourceType::ChemicalFuel => spec_chemical_safety(
            source.temperature_mc as int,
            source.maintenance_hours as int,
        ),
    }
}

/// Risk level from a safety score, by the published thresholds: 90 and
/// above is `Low`, 75 `Medium`, 60 `High`, anything below `Critical`.
pub open spec fn spec_risk_from_score(score: int) -> RiskLevel {
    if score >= 90_000 {
        RiskLevel::Low
    } else if score >= 75_000 {
        RiskLevel::Medium
    } else if score >= 60_000 {
        RiskLevel::High
    } else {
        RiskLevel::Critical
    }
}

/// The shared band table and the published thresholds agree: classifying
/// a score against [`spec_energy_score_bands`] is exactly
/// [`spec_risk_from_score`].
pub proof fn lemma_energy_bands_match_thresholds(score: int)
    ensures
        spec_classify(spec_energy_score_bands(), RiskLevel::Critical, score)
            == spec_risk_from_score(score),
{
    reveal_with_fuel(spec_classify, 5);
    let bands = spec_energy_score_bands();
    assert(bands.subrange(1, 3) =~= seq![
        crate::risk::RiskBand { lower_bound: 75000, level: RiskLevel::Medium },
        crate::risk::RiskBand { lower_bound: 60000, level: RiskLevel::High },
    ]);
    assert(bands.subrange(1, 3).subrange(1, 2) =~= seq![
        crate::risk::RiskBand { lower_bound: 60000, level: RiskLevel::High },
    ]);
    assert(bands.subrange(1, 3).subrange(1, 2).subrange(1, 1)
        =~= Seq::<crate::risk::RiskBand>::empty());
}

/// Purity: the analysis is a function of the source and requirement
/// records alone, so two analyses of identical inputs yield identical
/// reports.
pub proof fn lemma_analysis_deterministic(
    source1: EnergySource,
    source2: EnergySource,
    requirements1: MissionEnergyRequirements,
    requirements2: MissionEnergyRequirements,
)
    requires
        source1 == source2,
        requirements1 == requirements2,
    ensures
        spec_safety_rating(source1) == spec_safety_rating(source2),
        spec_range_estimate(source1, requirements1) == spec_range_estimate(
            source2,
            requirements2,
        ),
        spec_recommendations(source1, requirements1) == spec_recommendations(
            source2,
            requirements2,
        ),
{
}

/// Fixed per-type efficiency rating, as a milli-fraction of one.
pub open spec fn spec_efficiency_rating(source_type: EnergySourceType) -> int {
    match source_type {
        EnergySourceType::HydrogenFuelCell => 600,
        EnergySourceType::SolidStateElectric => 950,
        EnergySourceType::NuclearThermal => 300,
        EnergySourceType::Hybrid => 750,
        EnergySourceType::SolarElectric => 200,
        EnergySourceType::ChemicalFuel => 350,
    }
}

/// Direct emissions per type: zero for every non-chemical type, 2.3 kg
/// of CO2 equivalent per kilowatt-hour for chemical fuel.
pub open spec fn spec_environmental_impact(source_type: EnergySourceType) -> int {
    match source_type {
        EnergySourceType::ChemicalFuel => 2300,
        _ => 0,
    }
}

/// Solar range in milli-kilometres: a 1 kW/m2 sea-level irradiance,
/// raised a fifth per 10 km of altitude, scaled by panel efficiency and
/// capacity, saturating at the widest representable range.
pub open spec fn spec_solar_range(
    efficiency_milli: int,
    capacity_mkwh: int,
    altitude_mm: int,
) -> int {
    let altitude_factor_micro = 1_000_000 + altitude_mm / 50;
    let effective_power = altitude_factor_micro * efficiency_milli / 1000;
    let range = effective_power * capacity_mkwh / 1000;
    if range > u64::MAX {
        u64::MAX as int
    } else {
        range
    }
}

/// The range estimate of a source, dispatched on its type. Nuclear is
/// the `Unbounded` sentinel whatever the capacity; the other types scale
/// their capacity by a fixed per-type distance yield.
pub open spec fn spec_range_estimate(
    source: EnergySource,
    requirements: MissionEnergyRequirements,
) -> RangeEstimate {
    match source.source_type {
        EnergySourceType::HydrogenFuelCell => RangeEstimate::MilliKm(
            (source.capacity_mkwh * 3 / 10) as u64,
        ),
        EnergySourceType::SolidStateElectric => RangeEstimate::MilliKm(
            (source.capacity_mkwh * 285 / 1000) as u64,
        ),
        EnergySourceType::NuclearThermal => RangeEstimate::Unbounded,
        EnergySourceType::Hybrid => RangeEstimate::MilliKm((source.capacity_mkwh * 3 / 10) as u64),
        EnergySourceType::SolarElectric => RangeEstimate::MilliKm(
            spec_solar_range(
                source.efficiency_milli as int,
                source.capacity_mkwh as int,
                requirements.altitude_mm as int,
            ) as u64,
        ),
        EnergySourceType::ChemicalFuel => RangeEstimate::MilliKm(
            (source.capacity_mkwh * 35 / 100) as u64,
        ),
    }
}

/// The advisories of one analysis, in the fixed order its source type
/// appends them.
pub open spec fn spec_recommendations(
    source: EnergySource,
    requirements: MissionEnergyRequirements,
) -> Seq<Advisory> {
    match source.source_type {
        EnergySourceType::HydrogenFuelCell => (if spec_safety_rating(source) <= 80_000 {
            seq![Advisory::ScheduleHydrogenInspection]
        } else {
            Seq::<Advisory>::empty()
        }) + (if source.current_level_mpct < requirements.emergency_reserve_mpct {
            seq![Advisory::InsufficientHydrogenReserves]
        } else {
            Seq::<Advisory>::empty()
        }),
        EnergySourceType::SolidStateElectric => spec_battery_recommendations(
            source,
            requirements,
        ),
        EnergySourceType::NuclearThermal => (if source.temperature_mc > 800_000 {
            seq![Advisory::CoreTemperatureNearLimit]
        } else {
            Seq::<Advisory>::empty()
        }) + (if source.maintenance_hours > 1000 {
            seq![Advisory::ScheduleReactorMaintenance]
        } else {
            Seq::<Advisory>::empty()
        }),
        EnergySourceType::Hybrid => spec_battery_recommendations(source, requirements),
        EnergySourceType::SolarElectric => (if requirements.altitude_mm < 10_000_000 {
            seq![Advisory::IncreaseAltitudeForSolar]
        } else {
            Seq::<Advisory>::empty()
        }) + (if source.efficiency_milli < 150 {
            seq![Advisory::SolarEfficiencyBelowOptimal]
        } else {
            Seq::<Advisory>::empty()
        }),
        EnergySourceType::ChemicalFuel => (if spec_safety_rating(source) <= 80_000 {
            seq![Advisory::ScheduleFuelSystemInspection]
        } else {
            Seq::<Advisory>::empty()
        }) + (if source.current_level_mpct < requirements.emergency_reserve_mpct {
            seq![Advisory::InsufficientFuelReserves]
        } else {
            Seq::<Advisory>::empty()
        }),
    }
}

/// Battery advisories shared by the electric and hybrid types: high cell
/// temperature, then charge below the mission reserve.
pub open spec fn spec_battery_recommendations(
    source: EnergySource,
    requirements: MissionEnergyRequirements,
) -> Seq<Advisory> {
    (if source.temperature_mc > 45_000 {
        seq![Advisory::BatteryTemperatureHigh]
    } else {
        Seq::<Advisory>::empty()
    }) + (if source.current_level_mpct < requirements.emergency_reserve_mpct {
        seq![Advisory::BatteryChargeBelowRequirements]
    } else {
        Seq::<Advisory>::empty()
    })
}

impl EnergySource {
    /// Efficiency is a fraction of one: at most 1000 milli.
    pub open spec fn valid(self) -> bool {
        self.efficiency_milli <= 1000
    }

    /// Safety score of a hydrogen fuel cell, in milli-points.
    pub fn calculate_hydrogen_safety(&self) -> (r: u64)
        ensures
            r as int == spec_hydrogen_safety(
                self.temperature_mc as int,
                self.maintenance_hours as int,
            ),
            r <= 100_000,
    {
        let mut penalty: i128 = 0;
        if self.temperature_mc > 80_000 {
            penalty = penalty + 2 * ((self.temperature_mc as i128) - 80_000);
        }
        if self.maintenance_hours > 500 {
            penalty = penalty + 100 * ((self.maintenance_hours as i128) - 500);
        }
        let score: i128 = 100_000 - penalty;
        if score < 0 {
            0
        } else {
            score as u64
        }
    }

    /// Safety score of a solid-state electric system, in milli-points.
    pub fn calculate_electric_safety(&self) -> (r: u64)
        ensures
            r as int == spec_electric_safety(
                self.temperature_mc as int,
                self.efficiency_milli as int,
            ),
            r <= 100_000,
    {
        let mut penalty: i128 = 0;
        if self.temperature_mc > 45_000 {
            penalty = penalty + 2 * ((self.temperature_mc as i128) - 45_000);
        }
        if self.efficiency_milli < 800 {
            penalty = penalty + 100 * (800 - (self.efficiency_milli as i128));
        }
        let score: i128 = 100_000 - penalty;
        if score < 0 {
            0
        } else {
            score as u64
        }
    }

    /// Safety score of a nuclear-thermal system, in milli-points.
    pub fn calculate_nuclear_safety(&self) -> (r: u64)
        ensures
            r as int == spec_nuclear_safety(
                self.temperature_mc as int,
                self.maintenance_hours as int,
            ),
            r <= 100_000,
    {
        let mut penalty: i128 = 0;
        if self.temperature_mc > 800_000 {
            penalty = penalty + ((self.temperature_mc as i128) - 800_000) / 2;
        }
        if self.maintenance_hours > 1000 {
            penalty = penalty + 50 * ((self.maintenance_hours as i128) - 1000);
        }
        let score: i128 = 100_000 - penalty;
        if score < 0 {
            0
        } else {
            score as u64
        }
    }

    /// Safety score of a chemical-fuel system, in milli-points: a
    /// simplified model in the shape of the hydrogen one.
    pub fn calculate_chemical_safety(&self) -> (r: u64)
        ensures
            r as int == spec_chemical_safety(
                self.temperature_mc as int,
                self.maintenance_hours as int,
            ),
            r <= 100_000,
    {
        let mut penalty: i128 = 0;
        if self.temperature_mc > 60_000 {
            penalty = penalty + 2 * ((self.temperature_mc as i128) - 60_000);
        }
        if self.maintenance_hours > 300 {
            penalty = penalty + 100 * ((self.maintenance_hours as i128) - 300);
        }
        let score: i128 = 100_000 - penalty;
        if score < 0 {
            0
        } else {
            score as u64
        }
    }

    /// Solar range in milli-kilometres at the given altitude.
    pub fn calculate_solar_range(&self, altitude_mm: u64) -> (r: u64)
        requires
            self.valid(),
        ensures
            r as int == spec_solar_range(
                self.efficiency_milli as int,
                self.capacity_mkwh as int,
                altitude_mm as int,
            ),
    {
        let altitude_factor_micro: u64 = 1_000_000 + altitude_mm / 50;
        proof {
            assert((altitude_factor_micro as int) * (self.efficiency_milli as int) <= (u64::MAX
                as int) * 1000) by (nonlinear_arith)
                requires
                    self.efficiency_milli <= 1000,
            ;
        }
        let scaled: u128 = (altitude_factor_micro as u128) * (self.efficiency_milli as u128);
        proof {
            vstd::arithmetic::div_mod::lemma_multiply_divide_le(
                scaled as int,
                1000,
                u64::MAX as int,
            );
        }
        let effective_power: u128 = scaled / 1000;
        proof {
            assert((effective_power as int) * (self.capacity_mkwh as int) <= (u64::MAX as int) * (
            u64::MAX as int)) by (nonlinear_arith)
                requires
                    effective_power <= u64::MAX,
                    self.capacity_mkwh <= u64::MAX,
            ;
        }
        let wide: u128 = effective_power * (self.capacity_mkwh as u128);
        let range: u128 = wide / 1000;
        if range > u64::MAX as u128 {
            u64::MAX
        } else {
            range as u64
        }
    }

    /// Risk level from a safety score, by the shared band table; agrees
    /// with the published thresholds of [`spec_risk_from_score`].
    pub fn determine_risk_level(&self, safety_rating_milli: u64) -> (r: RiskLevel)
        requires
            safety_rating_milli <= 100_000,
        ensures
            r == spec_risk_from_score(safety_rating_milli as int),
    {
        let bands = energy_score_bands();
        let level = classify(&bands, RiskLevel::Critical, safety_rating_milli as i64);
        proof {
            lemma_energy_bands_match_thresholds(safety_rating_milli as int);
        }
        level
    }

    /// Analyze one energy source against the mission's requirements,
    /// dispatching on the source type. Pure: the report is a function of
    /// the two records alone.
    pub fn analyze(&self, requirements: &MissionEnergyRequirements) -> (r: EnergyAnalysis)
        requires
            self.valid(),
        ensures
            r.source_type == self.source_type,
            r.safety_rating_milli as int == spec_safety_rating(*self),
            r.risk_level == spec_risk_from_score(spec_safety_rating(*self)),
            r.range_estimate == spec_range_estimate(*self, *requirements),
            r.efficiency_rating_milli as int == spec_efficiency_rating(self.source_type),
            r.environmental_impact_mkg_per_kwh as int == spec_environmental_impact(
                self.source_type,
            ),
            r.recommendations@ == spec_recommendations(*self, *requirements),
            self.source_type == EnergySourceType::NuclearThermal ==> r.range_estimate
                == RangeEstimate::Unbounded,
    {
        match self.source_type {
            EnergySourceType::HydrogenFuelCell => self.analyze_hydrogen(requirements),
            EnergySourceType::SolidStateElectric => self.analyze_electric(requirements),
            EnergySourceType::NuclearThermal => self.analyze_nuclear(requirements),
            EnergySourceType::Hybrid => self.analyze_hybrid(requirements),
            EnergySourceType::SolarElectric => self.analyze_solar(requirements),
            EnergySourceType::ChemicalFuel => self.analyze_chemical(requirements),
        }
    }

    /// Hydrogen fuel cell: 60% efficiency rating, a 0.3 km per kWh range
    /// yield, zero direct emissions, the hydrogen safety model.
    pub fn analyze_hydrogen(&self, requirements: &MissionEnergyRequirements) -> (r: EnergyAnalysis)
        requires
            self.source_type == EnergySourceType::HydrogenFuelCell,
        ensures
            r.source_type == self.source_type,
            r.safety_rating_milli as int == spec_safety_rating(*self),
            r.risk_level == spec_risk_from_score(spec_safety_rating(*self)),
            r.range_estimate == spec_range_estimate(*self, *requirements),
            r.efficiency_rating_milli == 600,
            r.environmental_impact_mkg_per_kwh == 0,
            r.recommendations@ == spec_recommendations(*self, *requirements),
    {
        let safety_rating_milli = self.calculate_hydrogen_safety();
        let risk_level = self.determine_risk_level(safety_rating_milli);
        let range: u64 = ((self.capacity_mkwh as u128) * 3 / 10) as u64;
        let mut recommendations: Vec<Advisory> = Vec::new();
        if safety_rating_milli <= 80_000 {
            recommendations.push(Advisory::ScheduleHydrogenInspection);
        }
        if self.current_level_mpct < requirements.emergency_reserve_mpct {
            recommendations.push(Advisory::InsufficientHydrogenReserves);
        }
        proof {
            assert(recommendations@ =~= spec_recommendations(*self, *requirements));
        }
        EnergyAnalysis {
            source_type: EnergySourceType::HydrogenFuelCell,
            risk_level,
            range_estimate: RangeEstimate::MilliKm(range),
            efficiency_rating_milli: 600,
            environmental_impact_mkg_per_kwh: 0,
            safety_rating_milli,
            recommendations,
        }
    }

    /// Solid-state electric: 95% efficiency rating, a 0.285 km per kWh
    /// range yield, zero direct emissions, the electric safety model.
    pub fn analyze_electric(&self, requirements: &MissionEnergyRequirements) -> (r: EnergyAnalysis)
        requires
            self.source_type == EnergySourceType::SolidStateElectric,
        ensures
            r.source_type == self.source_type,
            r.safety_rating_milli as int == spec_safety_rating(*self),
            r.risk_level == spec_risk_from_score(spec_safety_rating(*self)),
            r.range_estimate == spec_range_estimate(*self, *requirements),
            r.efficiency_rating_milli == 950,
            r.environmental_impact_mkg_per_kwh == 0,
            r.recommendations@ == spec_recommendations(*self, *requirements),
    {
        let safety_rating_milli = self.calculate_electric_safety();
        let risk_level = self.determine_risk_level(safety_rating_milli);
        let range: u64 = ((self.capacity_mkwh as u128) * 285 / 1000) as u64;
        let mut recommendations: Vec<Advisory> = Vec::new();
        if self.temperature_mc > 45_000 {
            recommendations.push(Advisory::BatteryTemperatureHigh);
        }
        if self.current_level_mpct < requirements.emergency_reserve_mpct {
            recommendations.push(Advisory::BatteryChargeBelowRequirements);
        }
        proof {
            assert(recommendations@ =~= spec_recommendations(*self, *requirements));
        }
        EnergyAnalysis {
            source_type: EnergySourceType::SolidStateElectric,
            risk_level,
            range_estimate: RangeEstimate::MilliKm(range),
            efficiency_rating_milli: 950,
            environmental_impact_mkg_per_kwh: 0,
            safety_rating_milli,
            recommendations,
        }
    }

    /// Nuclear thermal: 30% efficiency rating, the unbounded range
    /// sentinel whatever the capacity, zero direct emissions, the
    /// nuclear safety model.
    pub fn analyze_nuclear(&self, requirements: &MissionEnergyRequirements) -> (r: EnergyAnalysis)
        requires
            self.source_type == EnergySourceType::NuclearThermal,
        ensures
            r.source_type == self.source_type,
            r.safety_rating_milli as int == spec_safety_rating(*self),
            r.risk_level == spec_risk_from_score(spec_safety_rating(*self)),
            r.range_estimate == RangeEstimate::Unbounded,
            r.efficiency_rating_milli == 300,
            r.environmental_impact_mkg_per_kwh == 0,
            r.recommendations@ == spec_recommendations(*self, *requirements),
    {
        let safety_rating_milli = self.calculate_nuclear_safety();
        let risk_level = self.determine_risk_level(safety_rating_milli);
        let mut recommendations: Vec<Advisory> = Vec::new();
        if self.temperature_mc > 800_000 {
            recommendations.push(Advisory::CoreTemperatureNearLimit);
        }
        if self.maintenance_hours > 1000 {
            recommendations.push(Advisory::ScheduleReactorMaintenance);
        }
        proof {
            assert(recommendations@ =~= spec_recommendations(*self, *requirements));
        }
        EnergyAnalysis {
            source_type: EnergySourceType::NuclearThermal,
            risk_level,
            range_estimate: RangeEstimate::Unbounded,
            efficiency_rating_milli: 300,
            environmental_impact_mkg_per_kwh: 0,
            safety_rating_milli,
            recommendations,
        }
    }

    /// Hybrid: 75% efficiency rating, a 0.3 km per kWh range yield, zero
    /// direct emissions. A simplified model: the battery side dominates,
    /// so scoring and advisories follow the electric model.
    pub fn analyze_hybrid(&self, requirements: &MissionEnergyRequirements) -> (r: EnergyAnalysis)
        requires
            self.source_type == EnergySourceType::Hybrid,
        ensures
            r.source_type == self.source_type,
            r.safety_rating_milli as int == spec_safety_rating(*self),
            r.risk_level == spec_risk_from_score(spec_safety_rating(*self)),
            r.range_estimate == spec_range_estimate(*self, *requirements),
            r.efficiency_rating_milli == 750,
            r.environmental_impact_mkg_per_kwh == 0,
            r.recommendations@ == spec_recommendations(*self, *requirements),
    {
        let safety_rating_milli = self.calculate_electric_safety();
        let risk_level = self.determine_risk_level(safety_rating_milli);
        let range: u64 = ((self.capacity_mkwh as u128) * 3 / 10) as u64;
        let mut recommendations: Vec<Advisory> = Vec::new();
        if self.temperature_mc > 45_000 {
            recommendations.push(Advisory::BatteryTemperatureHigh);
        }
        if self.current_level_mpct < requirements.emergency_reserve_mpct {
            recommendations.push(Advisory::BatteryChargeBelowRequirements);
        }
        proof {
            assert(recommendations@ =~= spec_recommendations(*self, *requirements));
        }
        EnergyAnalysis {
            source_type: EnergySourceType::Hybrid,
            risk_level,
            range_estimate: RangeEstimate::MilliKm(range),
            efficiency_rating_milli: 750,
            environmental_impact_mkg_per_kwh: 0,
            safety_rating_milli,
            recommendations,
        }
    }

    /// Solar electric: 20% baseline efficiency rating, the altitude- and
    /// efficiency-scaled range, zero direct emissions, and a fixed 95
    /// point safety score (deliberately no penalty model).
    pub fn analyze_solar(&self, requirements: &MissionEnergyRequirements) -> (r: EnergyAnalysis)
        requires
            self.source_type == EnergySourceType::SolarElectric,
            self.valid(),
        ensures
            r.source_type == self.source_type,
            r.safety_rating_milli == 95_000,
            r.risk_level == spec_risk_from_score(95_000),
            r.range_estimate == spec_range_estimate(*self, *requirements),
            r.efficiency_rating_milli == 200,
            r.environmental_impact_mkg_per_kwh == 0,
            r.recommendations@ == spec_recommendations(*self, *requirements),
    {
        let safety_rating_milli: u64 = 95_000;
        let risk_level = self.determine_risk_level(safety_rating_milli);
        let range = self.calculate_solar_range(requirements.altitude_mm);
        let mut recommendations: Vec<Advisory> = Vec::new();
        if requirements.altitude_mm < 10_000_000 {
            recommendations.push(Advisory::IncreaseAltitudeForSolar);
        }
        if self.efficiency_milli < 150 {
            recommendations.push(Advisory::SolarEfficiencyBelowOptimal);
        }
        proof {
            assert(recommendations@ =~= spec_recommendations(*self, *requirements));
        }
        EnergyAnalysis {
            source_type: EnergySourceType::SolarElectric,
            risk_level,
            range_estimate: RangeEstimate::MilliKm(range),
            efficiency_rating_milli: 200,
            environmental_impact_mkg_per_kwh: 0,
            safety_rating_milli,
            recommendations,
        }
    }

    /// Chemical fuel: 35% efficiency rating, a 0.35 km per kWh range
    /// yield, 2.3 kg CO2 per kWh of direct emissions, the chemical
    /// safety model.
    pub fn analyze_chemical(&self, requirements: &MissionEnergyRequirements) -> (r: EnergyAnalysis)
        requires
            self.source_type == EnergySourceType::ChemicalFuel,
        ensures
            r.source_type == self.source_type,
            r.safety_rating_milli as int == spec_safety_rating(*self),
            r.risk_level == spec_risk_from_score(spec_safety_rating(*self)),
            r.range_estimate == spec_range_estimate(*self, *requirements),
            r.efficiency_rating_milli == 350,
            r.environmental_impact_mkg_per_kwh == 2300,
            r.recommendations@ == spec_recommendations(*self, *requirements),
    {
        let safety_rating_milli = self.calculate_chemical_safety();
        let risk_level = self.determine_risk_level(safety_rating_milli);
        let range: u64 = ((self.capacity_mkwh as u128) * 35 / 100) as u64;
        let mut recommendations: Vec<Advisory> = Vec::new();
        if safety_rating_milli <= 80_000 {
            recommendations.push(Advisory::ScheduleFuelSystemInspection);
        }
        if self.current_level_mpct < requirements.emergency_reserve_mpct {
            recommendations.push(Advisory::InsufficientFuelReserves);
        }
        proof {
            assert(recommendations@ =~= spec_recommendations(*self, *requirements));
        }
        EnergyAnalysis {
            source_type: EnergySourceType::ChemicalFuel,
            risk_level,
            range_estimate: RangeEstimate::MilliKm(range),
            efficiency_rating_milli: 350,
            environmental_impact_mkg_per_kwh: 2300,
            safety_rating_milli,
            recommendations,
        }
    }
}

} // verus!
