//! Diving safety calculations: pressure at depth, oxygen partial
//! pressure, no-decompression time limits and air consumption.
//!
//! Scale conventions of this module:
//! - depth in micrometres (1 m = 1_000_000);
//! - pressure in microbar (1 bar = 1_000_000);
//! - partial pressure in micro-ata;
//! - gas fractions and work rates in millionths (1.0 = 1_000_000);
//! - durations in whole seconds;
//! - gas volume in microlitres;
//! - temperatures in milli-degrees Celsius.
//!
//! Negative depth is unrepresentable: depths are unsigned, so a caller
//! cannot hand the calculator a value below the surface.

use vstd::prelude::*;

verus! {

/// A snapshot of the water column at a dive site. A plain value record:
/// the caller fills it from its sensors and owns it; the calculator only
/// reads it.
#[derive(Clone, Copy, Debug, PartialEq, Eq, Structural)]
pub struct DivingConditions {
    /// Depth in micrometres.
    pub depth_um: u64,
    /// Water temperature in milli-degrees Celsius.
    pub water_temperature_mc: i64,
    /// Visibility in millimetres.
    pub visibility_mm: u64,
    /// Current speed in milli-knots.
    pub current_speed_mkn: u64,
    /// Water density in grams per cubic metre (1 kg/m3 = 1000).
    pub water_density_gm3: u64,
    /// Salinity in milli-PSU.
    pub salinity_mpsu: u64,
    /// Ambient pressure in microbar.
    pub pressure_ubar: u64,
    /// Oxygen partial pressure in micro-ata.
    pub oxygen_partial_pressure_uata: u64,
}

/// One staged decompression stop of a completed dive, listed shallow to
/// surface.
#[derive(Clone, Copy, Debug, PartialEq, Eq, Structural)]
pub struct DecompressionStop {
    /// Stop depth in micrometres.
    pub depth_um: u64,
    /// Stop duration in seconds.
    pub duration_s: u64,
}

/// One completed dive of one diver. Created once when the dive ends and
/// never mutated; later no-decompression-limit calculations for the same
/// diver take the diver's profiles as history.
#[derive(Clone, Debug, PartialEq, Eq)]
pub struct DiveProfile {
    /// Identifier of this dive record (128-bit caller-supplied id).
    pub id: u128,
    /// Identifier of the diver (128-bit caller-supplied id).
    pub diver_id: u128,
    /// Dive start, in seconds of the caller's epoch.
    pub start_time_s: i64,
    /// Dive end, in seconds of the caller's epoch.
    pub end_time_s: i64,
    /// Greatest depth reached, in micrometres.
    pub max_depth_um: u64,
    /// Time spent at the bottom, in seconds.
    pub bottom_time_s: u64,
    /// Staged stops of the ascent, shallow to surface.
    pub decompression_stops: Vec<DecompressionStop>,
    /// Air consumed over the dive, in microlitres.
    pub air_consumption_ul: u64,
    /// Air left in the tank at surfacing, in microbar.
    pub remaining_air_ubar: u64,
    /// The no-decompression limit the dive was planned against, in seconds.
    pub no_decompression_limit_s: u64,
}

/// Kinds of diving gear tracked by equipment records.
#[derive(Clone, Copy, Debug, PartialEq, Eq, Structural, Hash)]
pub enum DivingGearType {
    Tank,
    Regulator,
    BCD,
    Wetsuit,
    Computer,
    Gauge,
}

/// Absolute pressure in microbar at a depth in micrometres: one tenth of
/// a bar per metre of water, plus one atmosphere at the surface.
pub open spec fn spec_pressure_at_depth(depth_um: int) -> int {
    depth_um / 10 + 1_000_000
}

/// Oxygen partial pressure in micro-ata: absolute pressure times the
/// oxygen fraction of the breathing gas.
pub open spec fn spec_oxygen_partial_pressure(depth_um: int, oxygen_fraction_millionths: int) -> int {
    spec_pressure_at_depth(depth_um) * oxygen_fraction_millionths / 1_000_000
}

/// Base no-decompression limit in seconds, from the fixed depth-banded
/// table. A depth exactly on a band edge belongs to the shallower band.
pub open spec fn spec_base_no_decompression_limit(depth_um: int) -> int {
    if depth_um <= 10_000_000 {
        13140  // 219 min
    } else if depth_um <= 20_000_000 {
        8820  // 147 min
    } else if depth_um <= 30_000_000 {
        4320  // 72 min
    } else if depth_um <= 40_000_000 {
        2220  // 37 min
    } else {
        600  // 10 min
    }
}

/// No-decompression limit in seconds: the base table limit, halved when
/// the diver has any prior dive in the residual-nitrogen window. The
/// halving is a deliberately simplified residual-nitrogen proxy, not a
/// tissue-compartment model.
pub open spec fn spec_no_decompression_limit(depth_um: int, prior_dives: nat) -> int {
    if prior_dives == 0 {
        spec_base_no_decompression_limit(depth_um)
    } else {
        spec_base_no_decompression_limit(depth_um) / 2
    }
}

/// Air consumed in microlitres: a surface rate of 20 litres per minute,
/// scaled by absolute pressure and by the diver's work rate, over the
/// dive duration. Equivalently, pressure times work rate times duration,
/// divided by three million (20 L/min over 60 s/min, in micro scales).
pub open spec fn spec_air_consumption(
    depth_um: int,
    duration_s: int,
    work_rate_millionths: int,
) -> int {
    spec_pressure_at_depth(depth_um) * work_rate_millionths * duration_s / 3_000_000
}

/// Totals of one diver's recorded history, for dive safety reports.
#[derive(Clone, Copy, Debug, PartialEq, Eq, Structural)]
pub struct DiveHistorySummary {
    /// How many dives the history holds.
    pub total_dives: usize,
    /// Bottom time across all dives, in seconds, saturating at the
    /// widest representable total.
    pub cumulative_bottom_time_s: u64,
    /// The deepest recorded depth in micrometres; zero for an empty
    /// history.
    pub max_depth_reached_um: u64,
}

/// Total bottom time of a history in seconds, saturating.
pub open spec fn spec_cumulative_bottom_time(profiles: Seq<DiveProfile>) -> int
    decreases profiles.len(),
{
    if profiles.len() == 0 {
        0
    } else {
        let rest = spec_cumulative_bottom_time(profiles.drop_last());
        if rest + profiles.last().bottom_time_s > u64::MAX {
            u64::MAX as int
        } else {
            rest + profiles.last().bottom_time_s
        }
    }
}

/// The deepest depth of a history in micrometres; zero when empty.
pub open spec fn spec_max_depth(profiles: Seq<DiveProfile>) -> int
    decreases profiles.len(),
{
    if profiles.len() == 0 {
        0
    } else {
        let rest = spec_max_depth(profiles.drop_last());
        if profiles.last().max_depth_um > rest {
            profiles.last().max_depth_um as int
        } else {
            rest
        }
    }
}

/// Summarize one diver's history: the dive count, the saturating total
/// of bottom time, and the deepest recorded depth.
pub fn summarize_dive_history(profiles: &Vec<DiveProfile>) -> (r: DiveHistorySummary)
    ensures
        r.total_dives == profiles@.len(),
        r.cumulative_bottom_time_s as int == spec_cumulative_bottom_time(profiles@),
        r.max_depth_reached_um as int == spec_max_depth(profiles@),
{
    let mut cumulative: u64 = 0;
    let mut deepest: u64 = 0;
    let mut i: usize = 0;
    while i < profiles.len()
        invariant
            i <= profiles@.len(),
            cumulative as int == spec_cumulative_bottom_time(profiles@.subrange(0, i as int)),
            deepest as int == spec_max_depth(profiles@.subrange(0, i as int)),
        decreases profiles@.len() - i,
    {
        let profile = &profiles[i];
        cumulative = if profile.bottom_time_s > u64::MAX - cumulative {
            u64::MAX
        } else {
            cumulative + profile.bottom_time_s
        };
        if profile.max_depth_um > deepest {
            deepest = profile.max_depth_um;
        }
        proof {
            let prefix = profiles@.subrange(0, i as int + 1);
            assert(prefix.drop_last() =~= profiles@.subrange(0, i as int));
            assert(prefix.last() == profiles@[i as int]);
        }
        i = i + 1;
    }
    proof {
        assert(profiles@.subrange(0, profiles@.len() as int) =~= profiles@);
    }
    DiveHistorySummary {
        total_dives: profiles.len(),
        cumulative_bottom_time_s: cumulative,
        max_depth_reached_um: deepest,
    }
}

/// Purity: every diving calculation is a function of its inputs alone,
/// so repeating one with identical inputs yields an identical result.
pub proof fn lemma_calculations_deterministic(
    depth_um_1: int,
    depth_um_2: int,
    prior_dives_1: nat,
    prior_dives_2: nat,
)
    requires
        depth_um_1 == depth_um_2,
        prior_dives_1 == prior_dives_2,
    ensures
        spec_pressure_at_depth(depth_um_1) == spec_pressure_at_depth(depth_um_2),
        spec_no_decompression_limit(depth_um_1, prior_dives_1) == spec_no_decompression_limit(
            depth_um_2,
            prior_dives_2,
        ),
{
}

/// Stateless configuration of the diving calculations: the fixed
/// pressure-conversion factor and oxygen-toxicity limit. All methods are
/// pure; the calculator holds no per-dive state.
#[derive(Clone, Copy, Debug, PartialEq, Eq, Structural)]
pub struct DivingSafetyCalculator {
    /// Microbar of pressure per metre of depth.
    pub pressure_conversion_factor_ubar_per_m: u64,
    /// Oxygen-toxicity budget in milli-OTU.
    pub oxygen_toxicity_limit_motu: u64,
    /// Residual nitrogen loading in milli-units of tissue pressure.
    pub nitrogen_loading_milli: u64,
}

impl DivingSafetyCalculator {
    /// The configuration the calculations are stated for: a tenth of a
    /// bar per metre of depth.
    pub open spec fn well_formed(self) -> bool {
        self.pressure_conversion_factor_ubar_per_m == 100_000
    }

    /// A calculator with the standard configuration: 0.1 bar per metre,
    /// a 650 OTU oxygen-toxicity budget, and no residual nitrogen.
    pub fn new() -> (r: DivingSafetyCalculator)
        ensures
            r.well_formed(),
            r.oxygen_toxicity_limit_motu == 650_000,
            r.nitrogen_loading_milli == 0,
    {
        DivingSafetyCalculator {
            pressure_conversion_factor_ubar_per_m: 100_000,
            oxygen_toxicity_limit_motu: 650_000,
            nitrogen_loading_milli: 0,
        }
    }

    /// Absolute pressure in microbar at `depth_um` micrometres of depth.
    pub fn calculate_pressure_at_depth(&self, depth_um: u64) -> (r: u64)
        requires
            self.well_formed(),
        ensures
            r as int == spec_pressure_at_depth(depth_um as int),
    {
        depth_um / 10 + 1_000_000
    }

    /// No-decompression limit in seconds at `depth_um`, given the diver's
    /// prior dives in the residual-nitrogen window. Any prior dive halves
    /// the base table limit (a simplified residual-nitrogen proxy).
    pub fn calculate_no_decompression_limit(
        &self,
        depth_um: u64,
        previous_dives: &Vec<DiveProfile>,
    ) -> (r: u64)
        requires
            self.well_formed(),
        ensures
            r as int == spec_no_decompression_limit(depth_um as int, previous_dives@.len()),
    {
        let base: u64 = if depth_um <= 10_000_000 {
            13140
        } else if depth_um <= 20_000_000 {
            8820
        } else if depth_um <= 30_000_000 {
            4320
        } else if depth_um <= 40_000_000 {
            2220
        } else {
            600
        };
        if previous_dives.len() == 0 {
            base
        } else {
            base / 2
        }
    }

    /// Oxygen partial pressure in micro-ata at `depth_um`, breathing a
    /// gas whose oxygen fraction is `oxygen_fraction_millionths` (at most
    /// one, i.e. 1_000_000).
    pub fn calculate_oxygen_partial_pressure(
        &self,
        depth_um: u64,
        oxygen_fraction_millionths: u64,
    ) -> (r: u64)
        requires
            self.well_formed(),
            oxygen_fraction_millionths <= 1_000_000,
        ensures
            r as int == spec_oxygen_partial_pressure(
                depth_um as int,
                oxygen_fraction_millionths as int,
            ),
    {
        let pressure: u64 = self.calculate_pressure_at_depth(depth_um);
        proof {
            assert((pressure as int) * (oxygen_fraction_millionths as int) <= (pressure as int)
                * 1_000_000) by (nonlinear_arith)
                requires
                    oxygen_fraction_millionths <= 1_000_000,
            ;
        }
        let wide: u128 = (pressure as u128) * (oxygen_fraction_millionths as u128);
        proof {
            vstd::arithmetic::div_mod::lemma_multiply_divide_le(
                wide as int,
                1_000_000,
                pressure as int,
            );
        }
        (wide / 1_000_000) as u64
    }

    /// Air consumed in microlitres over a dive of `duration_s` seconds at
    /// `depth_um`, at the given work rate. The bounds keep the product
    /// within machine range: depth at most 1 km, duration at most 10^7
    /// seconds, work rate at most tenfold.
    pub fn estimate_air_consumption(
        &self,
        depth_um: u64,
        duration_s: u64,
        work_rate_millionths: u64,
    ) -> (r: u64)
        requires
            self.well_formed(),
            depth_um <= 1_000_000_000,
            duration_s <= 10_000_000,
            work_rate_millionths <= 10_000_000,
        ensures
            r as int == spec_air_consumption(
                depth_um as int,
                duration_s as int,
                work_rate_millionths as int,
            ),
    {
        let pressure: u64 = self.calculate_pressure_at_depth(depth_um);
        proof {
            assert((pressure as int) * (work_rate_millionths as int) <= 101_000_000
                * 10_000_000) by (nonlinear_arith)
                requires
                    pressure <= 101_000_000,
                    work_rate_millionths <= 10_000_000,
            ;
        }
        let scaled: u128 = (pressure as u128) * (work_rate_millionths as u128);
        proof {
            assert((scaled as int) * (duration_s as int) <= 1_010_000_000_000_000
                * 10_000_000) by (nonlinear_arith)
                requires
                    scaled <= 1_010_000_000_000_000,
                    duration_s <= 10_000_000,
            ;
        }
        let wide: u128 = scaled * (duration_s as u128);
        proof {
            vstd::arithmetic::div_mod::lemma_div_is_ordered(
                wide as int,
                10_100_000_000_000_000_000_000,
                3_000_000,
            );
        }
        (wide / 3_000_000) as u64
    }
}

} // verus!
