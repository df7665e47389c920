//! The shared risk vocabulary: the four-level [`RiskLevel`] order, the
//! advisories that reports carry, and the threshold-band classifier that
//! every analyzer uses to turn a numeric score into a level.

use vstd::prelude::*;

verus! {

/// Four-level risk classification shared by all analyzers.
///
/// The order `Low < Medium < High < Critical` is total; [`RiskLevel::severity`]
/// gives the rank that comparisons and take-the-worst aggregation use.
#[derive(Clone, Copy, Debug, PartialEq, Eq, Structural, Hash)]
pub enum RiskLevel {
    Low,
    Medium,
    High,
    Critical,
}

impl RiskLevel {
    /// Rank in the total order: `Low` is 0 and `Critical` is 3.
    pub open spec fn severity(self) -> int {
        match self {
            RiskLevel::Low => 0,
            RiskLevel::Medium => 1,
            RiskLevel::High => 2,
            RiskLevel::Critical => 3,
        }
    }

    /// The rank of [`RiskLevel::severity`], as a runtime value.
    pub fn severity_rank(self) -> (r: u8)
        ensures
            r as int == self.severity(),
    {
        match self {
            RiskLevel::Low => 0,
            RiskLevel::Medium => 1,
            RiskLevel::High => 2,
            RiskLevel::Critical => 3,
        }
    }

    /// The more severe of two levels: take-the-worst aggregation across
    /// several analyses.
    pub fn worse_of(self, other: RiskLevel) -> (r: RiskLevel)
        ensures
            r == self || r == other,
            r.severity() >= self.severity(),
            r.severity() >= other.severity(),
    {
        if self.severity_rank() >= other.severity_rank() {
            self
        } else {
            other
        }
    }
}

/// One fixed advisory that an analysis may attach to its report.
///
/// Reports carry advisories as values of this closed set, in the fixed
/// order their analysis appends them, so that report content is exactly
/// reproducible; [`Advisory::text`] renders the display wording.
#[derive(Clone, Copy, Debug, PartialEq, Eq, Structural, Hash)]
pub enum Advisory {
    NormalOperations,
    ConsiderFrequencyAdjustment,
    ImmediateFrequencyReallocation,
    UnsafeForCriticalCommunications,
    ScheduleHydrogenInspection,
    InsufficientHydrogenReserves,
    BatteryTemperatureHigh,
    BatteryChargeBelowRequirements,
    CoreTemperatureNearLimit,
    ScheduleReactorMaintenance,
    IncreaseAltitudeForSolar,
    SolarEfficiencyBelowOptimal,
    ScheduleFuelSystemInspection,
    InsufficientFuelReserves,
}

impl Advisory {
    /// The display wording of this advisory. Display only: contracts and
    /// tests identify advisories by variant, never by wording.
    pub fn text(self) -> &'static str {
        match self {
            Advisory::NormalOperations => "Normal operations can proceed",
            Advisory::ConsiderFrequencyAdjustment => "Consider frequency adjustment or power increase",
            Advisory::ImmediateFrequencyReallocation => "Immediate frequency reallocation recommended",
            Advisory::UnsafeForCriticalCommunications => "Unsafe for critical communications. Abort mission if communication dependent",
            Advisory::ScheduleHydrogenInspection => "Schedule hydrogen system inspection",
            Advisory::InsufficientHydrogenReserves => "Insufficient hydrogen reserves for mission",
            Advisory::BatteryTemperatureHigh => "Battery temperature exceeds recommended limits",
            Advisory::BatteryChargeBelowRequirements => "Battery charge below mission requirements",
            Advisory::CoreTemperatureNearLimit => "Core temperature approaching limits",
            Advisory::ScheduleReactorMaintenance => "Schedule reactor maintenance",
            Advisory::IncreaseAltitudeForSolar => "Increase altitude for optimal solar collection",
            Advisory::SolarEfficiencyBelowOptimal => "Solar panel efficiency below optimal",
            Advisory::ScheduleFuelSystemInspection => "Schedule fuel system inspection",
            Advisory::InsufficientFuelReserves => "Insufficient fuel reserves for mission",
        }
    }
}

/// One threshold band: scores at or above `lower_bound` (and below every
/// higher band's bound) classify as `level`.
#[derive(Clone, Copy, Debug, PartialEq, Eq, Structural)]
pub struct RiskBand {
    pub lower_bound: i64,
    pub level: RiskLevel,
}

/// First-match classification over bands ordered high to low: the first
/// band whose lower bound the score reaches gives the level; a score
/// below every band gives `fallback`.
pub open spec fn spec_classify(bands: Seq<RiskBand>, fallback: RiskLevel, score: int) -> RiskLevel
    decreases bands.len(),
{
    if bands.len() == 0 {
        fallback
    } else if score >= bands[0].lower_bound {
        bands[0].level
    } else {
        spec_classify(bands.subrange(1, bands.len() as int), fallback, score)
    }
}

/// A band table is well formed when its lower bounds strictly decrease,
/// so that the bands partition the score axis without overlap. A table
/// that violates this is a construction-time configuration fault, never
/// a per-call condition.
pub open spec fn bands_well_formed(bands: Seq<RiskBand>) -> bool {
    forall|i: int, j: int|
        0 <= i < j < bands.len() ==> bands[i].lower_bound > bands[j].lower_bound
}

/// Classify `score` against `bands`, evaluated high to low; scores below
/// every band fall back to `fallback`.
pub fn classify(bands: &Vec<RiskBand>, fallback: RiskLevel, score: i64) -> (r: RiskLevel)
    ensures
        r == spec_classify(bands@, fallback, score as int),
{
    let ghost whole = bands@;
    proof {
        assert(whole.subrange(0, whole.len() as int) =~= whole);
    }
    let mut i: usize = 0;
    while i < bands.len()
        invariant
            0 <= i <= whole.len(),
            whole == bands@,
            spec_classify(whole, fallback, score as int) == spec_classify(
                whole.subrange(i as int, whole.len() as int),
                fallback,
                score as int,
            ),
        decreases whole.len() - i,
    {
        let band = bands[i];
        if score >= band.lower_bound {
            proof {
                assert(whole.subrange(i as int, whole.len() as int)[0] == band);
            }
            return band.level;
        }
        proof {
            assert(whole.subrange(i as int, whole.len() as int).subrange(
                1,
                whole.len() - i,
            ) =~= whole.subrange(i + 1, whole.len() as int));
        }
        i = i + 1;
    }
    proof {
        assert(whole.subrange(whole.len() as int, whole.len() as int).len() == 0);
    }
    fallback
}

/// The bands that all energy analyses score against, in milli-points:
/// 90.000 and above is `Low`, 75.000 `Medium`, 60.000 `High`, and
/// anything below falls back to `Critical`.
pub open spec fn spec_energy_score_bands() -> Seq<RiskBand> {
    seq![
        RiskBand { lower_bound: 90000, level: RiskLevel::Low },
        RiskBand { lower_bound: 75000, level: RiskLevel::Medium },
        RiskBand { lower_bound: 60000, level: RiskLevel::High },
    ]
}

/// Build the energy safety-score band table.
pub fn energy_score_bands() -> (r: Vec<RiskBand>)
    ensures
        r@ == spec_energy_score_bands(),
        bands_well_formed(r@),
{
    let mut v: Vec<RiskBand> = Vec::new();
    v.push(RiskBand { lower_bound: 90000, level: RiskLevel::Low });
    v.push(RiskBand { lower_bound: 75000, level: RiskLevel::Medium });
    v.push(RiskBand { lower_bound: 60000, level: RiskLevel::High });
    proof {
        assert(v@ =~= spec_energy_score_bands());
    }
    v
}

/// The bands that the radio analysis scores signal-to-noise against, in
/// centi-decibels: strictly above 30 dB is `Low`, above 20 dB `Medium`,
/// above 10 dB `High`, at or below 10 dB `Critical`.
pub open spec fn spec_radio_snr_bands() -> Seq<RiskBand> {
    seq![
        RiskBand { lower_bound: 3001, level: RiskLevel::Low },
        RiskBand { lower_bound: 2001, level: RiskLevel::Medium },
        RiskBand { lower_bound: 1001, level: RiskLevel::High },
    ]
}

/// Build the radio signal-to-noise band table.
pub fn radio_snr_bands() -> (r: Vec<RiskBand>)
    ensures
        r@ == spec_radio_snr_bands(),
        bands_well_formed(r@),
{
    let mut v: Vec<RiskBand> = Vec::new();
    v.push(RiskBand { lower_bound: 3001, level: RiskLevel::Low });
    v.push(RiskBand { lower_bound: 2001, level: RiskLevel::Medium });
    v.push(RiskBand { lower_bound: 1001, level: RiskLevel::High });
    proof {
        assert(v@ =~= spec_radio_snr_bands());
    }
    v
}

} // verus!
