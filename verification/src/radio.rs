//! Radio-frequency interference analysis: free-space path loss per
//! emitter, aggregate interference across the emitter set, the derived
//! signal-to-noise ratio, and its risk classification.
//!
//! Scale conventions of this module:
//! - powers and noise in centi-dBm, ratios and losses in centi-dB;
//! - frequencies in kilohertz, distances in metres;
//! - terrain and weather factors in centi-units (1.0 = 100);
//! - linear power on an internal scale of 10^-12 milliwatts, so that a
//!   signal of -120 dBm maps to one unit and weaker signals vanish.
//!
//! The decibel-to-linear conversions run through the fixed-point
//! logarithm of [`crate::decibel`], which is exact at powers of ten and
//! monotone; [`lemma_interference_monotone_in_power`] lifts that
//! monotonicity through the whole pipeline.

use vstd::prelude::*;

use crate::decibel::LINEAR_MAX;
use crate::decibel::centi_log10;
use crate::decibel::centi_log10_u128;
use crate::decibel::lemma_centi_log10_decade_bounds;
use crate::decibel::lemma_centi_log10_mono;
use crate::decibel::lemma_centi_log10_of_pow10;
use crate::decibel::lemma_log10_floor_le_38;
use crate::decibel::lemma_pow10_inverse_le;
use crate::decibel::lemma_pow10_inverse_mono;
use crate::decibel::pow10;
use crate::decibel::pow10_inverse;
use crate::decibel::spec_pow10_inverse;
use crate::risk::Advisory;
use crate::risk::RiskLevel;
use crate::risk::classify;
use crate::risk::radio_snr_bands;
use crate::risk::spec_classify;
use crate::risk::spec_radio_snr_bands;

verus! {

/// The cap on the summed linear interference power: one hundred decades
/// above a single saturated emitter, far beyond any representable input.
pub const LINEAR_SUM_CAP: u128 = 1_000_000_000_000_000_000_000_000_000_000_000_000;

/// One radio emitter contributing interference.
#[derive(Clone, Copy, Debug, PartialEq, Eq, Structural)]
pub struct RadioSource {
    /// Carrier frequency in kilohertz; must be positive.
    pub frequency_khz: u64,
    /// Transmit power in centi-dBm.
    pub power_cdbm: i64,
    /// Distance to the receiver in metres.
    pub distance_m: u64,
    /// Terrain attenuation factor in centi-units.
    pub terrain_factor_centi: u32,
}

/// The emitter set and ambient conditions one analysis reads. The
/// source collection may be empty: an empty set means no interference.
#[derive(Clone, Debug, PartialEq, Eq)]
pub struct RadioEnvironment {
    pub sources: Vec<RadioSource>,
    /// Ambient noise floor in centi-dBm.
    pub background_noise_cdbm: i64,
    /// Weather attenuation multiplier in centi-units; 100 is neutral.
    pub weather_factor_centi: u64,
}

/// A power level in centi-dB, or the absence of any signal: an empty
/// emitter set produces no interference at all, which no finite decibel
/// value represents.
#[derive(Clone, Copy, Debug, PartialEq, Eq, Structural)]
pub enum SignalLevel {
    NoSignal,
    CentiDb(i64),
}

/// The report of one radio-interference analysis.
#[derive(Clone, Debug, PartialEq, Eq)]
pub struct RadioInterferenceAnalysis {
    /// Aggregate interference in centi-dBm, or no signal at all.
    pub interference_level: SignalLevel,
    /// Interference minus the noise floor, in centi-dB.
    pub signal_to_noise: SignalLevel,
    pub risk_level: RiskLevel,
    /// The advisories of this analysis, in fixed order.
    pub recommendations: Vec<Advisory>,
}

/// Why an environment was rejected before analysis. Validation failures
/// surface to the caller at once and are never retried internally.
#[derive(Clone, Copy, Debug, PartialEq, Eq, Structural, Hash)]
pub enum ValidationError {
    /// A source's frequency is zero.
    FrequencyNotPositive,
    /// A source's transmit power lies outside +/- 1000 dBm.
    PowerOutOfRange,
    /// A source's terrain factor exceeds 1000.
    TerrainFactorOutOfRange,
    /// The weather multiplier is zero.
    WeatherFactorNotPositive,
    /// The weather multiplier exceeds 10000.
    WeatherFactorOutOfRange,
    /// The noise floor lies outside +/- 1000 dBm.
    NoiseOutOfRange,
}

/// A source the analysis accepts: positive frequency, and power and
/// terrain factor within the documented machine bounds.
pub open spec fn spec_source_valid(source: RadioSource) -> bool {
    &&& source.frequency_khz >= 1
    &&& -100_000 <= source.power_cdbm <= 100_000
    &&& source.terrain_factor_centi <= 100_000
}

/// The first reason to reject a source, checked in a fixed order.
pub open spec fn spec_source_error(source: RadioSource) -> Option<ValidationError> {
    if source.frequency_khz == 0 {
        Some(ValidationError::FrequencyNotPositive)
    } else if source.power_cdbm < -100_000 || source.power_cdbm > 100_000 {
        Some(ValidationError::PowerOutOfRange)
    } else if source.terrain_factor_centi > 100_000 {
        Some(ValidationError::TerrainFactorOutOfRange)
    } else {
        None
    }
}

/// The first rejected source's error, scanning front to back.
pub open spec fn spec_sources_error(sources: Seq<RadioSource>) -> Option<ValidationError>
    decreases sources.len(),
{
    if sources.len() == 0 {
        None
    } else if spec_source_error(sources[0]) is Some {
        spec_source_error(sources[0])
    } else {
        spec_sources_error(sources.subrange(1, sources.len() as int))
    }
}

/// An environment the analysis accepts.
pub open spec fn spec_environment_valid(env: RadioEnvironment) -> bool {
    &&& forall|i: int| 0 <= i < env.sources@.len() ==> spec_source_valid(#[trigger] env.sources@[i])
    &&& 1 <= env.weather_factor_centi <= 1_000_000
    &&& -100_000 <= env.background_noise_cdbm <= 100_000
}

/// The first reason to reject an environment: the sources in order, then
/// the weather multiplier, then the noise floor.
pub open spec fn spec_validate(env: RadioEnvironment) -> Option<ValidationError> {
    if spec_sources_error(env.sources@) is Some {
        spec_sources_error(env.sources@)
    } else if env.weather_factor_centi == 0 {
        Some(ValidationError::WeatherFactorNotPositive)
    } else if env.weather_factor_centi > 1_000_000 {
        Some(ValidationError::WeatherFactorOutOfRange)
    } else if env.background_noise_cdbm < -100_000 || env.background_noise_cdbm > 100_000 {
        Some(ValidationError::NoiseOutOfRange)
    } else {
        None
    }
}

/// Validation succeeds exactly on valid environments.
pub proof fn lemma_validate_none_iff_valid(env: RadioEnvironment)
    ensures
        spec_validate(env) is None <==> spec_environment_valid(env),
{
    lemma_sources_error_none_iff_all_valid(env.sources@);
}

/// The source scan finds no error exactly when every source is valid.
pub proof fn lemma_sources_error_none_iff_all_valid(sources: Seq<RadioSource>)
    ensures
        spec_sources_error(sources) is None <==> forall|i: int|
            0 <= i < sources.len() ==> spec_source_valid(#[trigger] sources[i]),
    decreases sources.len(),
{
    if sources.len() > 0 {
        let rest = sources.subrange(1, sources.len() as int);
        lemma_sources_error_none_iff_all_valid(rest);
        assert forall|i: int| 1 <= i < sources.len() implies rest[i - 1] == sources[i] by {}
        if spec_sources_error(sources) is None {
            assert forall|i: int| 0 <= i < sources.len() implies spec_source_valid(
                #[trigger] sources[i],
            ) by {
                if i > 0 {
                    assert(spec_source_valid(rest[i - 1]));
                }
            }
        } else {
            if spec_source_error(sources[0]) is None {
                assert(spec_sources_error(rest) is Some);
                let k = choose|k: int|
                    0 <= k < rest.len() && !spec_source_valid(#[trigger] rest[k]);
                assert(!spec_source_valid(sources[k + 1]));
            }
        }
    }
}

/// Scanning may skip a clean prefix.
pub proof fn lemma_sources_error_skip(sources: Seq<RadioSource>, i: int)
    requires
        0 <= i <= sources.len(),
        forall|j: int| 0 <= j < i ==> spec_source_error(#[trigger] sources[j]) is None,
    ensures
        spec_sources_error(sources) == spec_sources_error(
            sources.subrange(i, sources.len() as int),
        ),
    decreases i,
{
    if i == 0 {
        assert(sources.subrange(0, sources.len() as int) =~= sources);
    } else {
        lemma_sources_error_skip(sources, i - 1);
        let tail = sources.subrange(i - 1, sources.len() as int);
        assert(tail[0] == sources[i - 1]);
        assert(spec_source_error(sources[i - 1]) is None);
        assert(tail.subrange(1, tail.len() as int) =~= sources.subrange(
            i,
            sources.len() as int,
        ));
        assert(spec_sources_error(tail) == spec_sources_error(
            tail.subrange(1, tail.len() as int),
        ));
    }
}

/// The weather multiplier as an additive decibel adjustment: ten times
/// the centi-logarithm of the factor, centred so that a factor of one
/// adjusts by nothing.
pub open spec fn spec_weather_adjustment_cdb(weather_factor_centi: int) -> int {
    10 * (centi_log10(weather_factor_centi as nat) - 200)
}

/// Free-space path loss of one source in centi-dB: twenty times the
/// logarithm of `4 * pi * distance / wavelength`, written as a sum of
/// logarithms (the constant 438 is `100 * log10(c / (4 * pi)) - 300`,
/// folding the kilohertz scale in), plus the terrain penalty of
/// `terrain_factor * log10(distance_km)`.
///
/// Two degenerate cases have explicit policy instead of an undefined
/// logarithm: a co-located emitter (zero distance) suffers no modelled
/// path loss, and within one kilometre the terrain term is not a credit
/// but zero.
pub open spec fn spec_path_loss_cdb(source: RadioSource) -> int {
    let basic = if source.distance_m == 0 {
        0
    } else {
        20 * (centi_log10(source.distance_m as nat) + centi_log10(source.frequency_khz as nat)
            - 438)
    };
    let terrain = if source.distance_m > 1000 {
        (source.terrain_factor_centi * (centi_log10(source.distance_m as nat) - 300)) / 100
    } else {
        0
    };
    basic + terrain
}

/// The power one source delivers to the receiver, in centi-dBm:
/// transmit power, attenuated by weather and by path loss.
pub open spec fn spec_received_cdb(source: RadioSource, weather_adjustment_cdb: int) -> int {
    source.power_cdbm + weather_adjustment_cdb - spec_path_loss_cdb(source)
}

/// A received level as linear power, in units of 10^-12 milliwatts:
/// the inverse logarithm of the level, with levels below -120 dBm
/// vanishing to zero.
pub open spec fn spec_linear_power(received_cdb: int) -> int {
    let shifted = received_cdb + 12_000;
    if shifted < 0 {
        0
    } else {
        spec_pow10_inverse(shifted / 10, LINEAR_MAX as nat) as int
    }
}

/// Sum with saturation at [`LINEAR_SUM_CAP`].
pub open spec fn spec_capped_add(a: int, b: int) -> int {
    if a + b > LINEAR_SUM_CAP {
        LINEAR_SUM_CAP as int
    } else {
        a + b
    }
}

/// Total linear interference power of an emitter set.
pub open spec fn spec_total_linear(sources: Seq<RadioSource>, weather_adjustment_cdb: int) -> int
    decreases sources.len(),
{
    if sources.len() == 0 {
        0
    } else {
        spec_capped_add(
            spec_total_linear(sources.drop_last(), weather_adjustment_cdb),
            spec_linear_power(spec_received_cdb(sources.last(), weather_adjustment_cdb)),
        )
    }
}

/// The total stays within the saturation bounds.
pub proof fn lemma_total_linear_bounds(sources: Seq<RadioSource>, weather_adjustment_cdb: int)
    ensures
        0 <= spec_total_linear(sources, weather_adjustment_cdb) <= LINEAR_SUM_CAP,
    decreases sources.len(),
{
    if sources.len() > 0 {
        lemma_total_linear_bounds(sources.drop_last(), weather_adjustment_cdb);
        let last = spec_linear_power(spec_received_cdb(sources.last(), weather_adjustment_cdb));
        lemma_linear_power_bounds(spec_received_cdb(sources.last(), weather_adjustment_cdb));
    }
}

/// Linear power is nonnegative and bounded by [`LINEAR_MAX`].
pub proof fn lemma_linear_power_bounds(received_cdb: int)
    ensures
        0 <= spec_linear_power(received_cdb) <= LINEAR_MAX,
{
    let shifted = received_cdb + 12_000;
    if shifted >= 0 {
        lemma_pow10_inverse_le(shifted / 10, LINEAR_MAX as nat);
    }
}

/// Aggregate interference of the environment: the total linear power
/// taken back to centi-dBm, or `NoSignal` when nothing is received.
pub open spec fn spec_interference_level(env: RadioEnvironment) -> SignalLevel {
    let total = spec_total_linear(
        env.sources@,
        spec_weather_adjustment_cdb(env.weather_factor_centi as int),
    );
    if total == 0 {
        SignalLevel::NoSignal
    } else {
        SignalLevel::CentiDb((10 * centi_log10(total as nat) - 12_000) as i64)
    }
}

/// Signal-to-noise ratio: interference minus the noise floor.
pub open spec fn spec_signal_to_noise(env: RadioEnvironment) -> SignalLevel {
    match spec_interference_level(env) {
        SignalLevel::NoSignal => SignalLevel::NoSignal,
        SignalLevel::CentiDb(level) => SignalLevel::CentiDb(
            (level - env.background_noise_cdbm) as i64,
        ),
    }
}

/// Risk from a signal-to-noise ratio in centi-dB: strictly above 30 dB
/// is `Low`, above 20 dB `Medium`, above 10 dB `High`, else `Critical`.
pub open spec fn spec_snr_risk(snr_cdb: int) -> RiskLevel {
    if snr_cdb > 3000 {
        RiskLevel::Low
    } else if snr_cdb > 2000 {
        RiskLevel::Medium
    } else if snr_cdb > 1000 {
        RiskLevel::High
    } else {
        RiskLevel::Critical
    }
}

/// Risk level of the environment: no signal at all is `Low`.
pub open spec fn spec_risk_level(env: RadioEnvironment) -> RiskLevel {
    match spec_signal_to_noise(env) {
        SignalLevel::NoSignal => RiskLevel::Low,
        SignalLevel::CentiDb(snr) => spec_snr_risk(snr as int),
    }
}

/// The one advisory each risk level carries.
pub open spec fn spec_advisory_for(level: RiskLevel) -> Advisory {
    match level {
        RiskLevel::Low => Advisory::NormalOperations,
        RiskLevel::Medium => Advisory::ConsiderFrequencyAdjustment,
        RiskLevel::High => Advisory::ImmediateFrequencyReallocation,
        RiskLevel::Critical => Advisory::UnsafeForCriticalCommunications,
    }
}

/// The shared band table and the published thresholds agree.
pub proof fn lemma_radio_bands_match_thresholds(snr_cdb: int)
    ensures
        spec_classify(spec_radio_snr_bands(), RiskLevel::Critical, snr_cdb) == spec_snr_risk(
            snr_cdb,
        ),
{
    reveal_with_fuel(spec_classify, 5);
    let bands = spec_radio_snr_bands();
    assert(bands.subrange(1, 3) =~= seq![
        crate::risk::RiskBand { lower_bound: 2001, level: RiskLevel::Medium },
        crate::risk::RiskBand { lower_bound: 1001, level: RiskLevel::High },
    ]);
    assert(bands.subrange(1, 3).subrange(1, 2) =~= seq![
        crate::risk::RiskBand { lower_bound: 1001, level: RiskLevel::High },
    ]);
    assert(bands.subrange(1, 3).subrange(1, 2).subrange(1, 1)
        =~= Seq::<crate::risk::RiskBand>::empty());
}

/// Order on signal levels: no signal at all is below every finite
/// level, and finite levels compare as their centi-dB values.
pub open spec fn spec_level_le(a: SignalLevel, b: SignalLevel) -> bool {
    match (a, b) {
        (SignalLevel::NoSignal, _) => true,
        (SignalLevel::CentiDb(x), SignalLevel::CentiDb(y)) => x <= y,
        (SignalLevel::CentiDb(_), SignalLevel::NoSignal) => false,
    }
}

/// Linear power is monotone in the received level.
pub proof fn lemma_linear_power_mono(received_1: int, received_2: int)
    requires
        received_1 <= received_2,
    ensures
        spec_linear_power(received_1) <= spec_linear_power(received_2),
{
    lemma_linear_power_bounds(received_1);
    lemma_linear_power_bounds(received_2);
    let shifted_1 = received_1 + 12_000;
    let shifted_2 = received_2 + 12_000;
    if shifted_1 >= 0 {
        vstd::arithmetic::div_mod::lemma_div_is_ordered(shifted_1, shifted_2, 10);
        lemma_pow10_inverse_mono(shifted_1 / 10, shifted_2 / 10, LINEAR_MAX as nat);
    }
}

/// The total is monotone under a pointwise bound on the summands.
pub proof fn lemma_total_linear_mono(
    sources_1: Seq<RadioSource>,
    sources_2: Seq<RadioSource>,
    weather_adjustment_cdb: int,
)
    requires
        sources_1.len() == sources_2.len(),
        forall|i: int|
            0 <= i < sources_1.len() ==> spec_linear_power(
                spec_received_cdb(#[trigger] sources_1[i], weather_adjustment_cdb),
            ) <= spec_linear_power(
                spec_received_cdb(#[trigger] sources_2[i], weather_adjustment_cdb),
            ),
    ensures
        spec_total_linear(sources_1, weather_adjustment_cdb) <= spec_total_linear(
            sources_2,
            weather_adjustment_cdb,
        ),
    decreases sources_1.len(),
{
    if sources_1.len() > 0 {
        let n = sources_1.len() as int;
        assert forall|i: int| 0 <= i < n - 1 implies spec_linear_power(
            spec_received_cdb(#[trigger] sources_1.drop_last()[i], weather_adjustment_cdb),
        ) <= spec_linear_power(
            spec_received_cdb(#[trigger] sources_2.drop_last()[i], weather_adjustment_cdb),
        ) by {
            assert(sources_1.drop_last()[i] == sources_1[i]);
            assert(sources_2.drop_last()[i] == sources_2[i]);
        }
        lemma_total_linear_mono(
            sources_1.drop_last(),
            sources_2.drop_last(),
            weather_adjustment_cdb,
        );
        assert(sources_1.last() == sources_1[n - 1]);
        assert(sources_2.last() == sources_2[n - 1]);
    }
}

/// Monotonicity in transmit power: raising one source's power while
/// every other input stays fixed never lowers the aggregate
/// interference level.
pub proof fn lemma_interference_monotone_in_power(
    env1: RadioEnvironment,
    env2: RadioEnvironment,
    j: int,
)
    requires
        env1.sources@.len() == env2.sources@.len(),
        0 <= j < env1.sources@.len(),
        forall|i: int|
            0 <= i < env1.sources@.len() && i != j ==> #[trigger] env1.sources@[i]
                == env2.sources@[i],
        env2.sources@[j].frequency_khz == env1.sources@[j].frequency_khz,
        env2.sources@[j].distance_m == env1.sources@[j].distance_m,
        env2.sources@[j].terrain_factor_centi == env1.sources@[j].terrain_factor_centi,
        env1.sources@[j].power_cdbm <= env2.sources@[j].power_cdbm,
        env2.weather_factor_centi == env1.weather_factor_centi,
    ensures
        spec_level_le(spec_interference_level(env1), spec_interference_level(env2)),
{
    let w = spec_weather_adjustment_cdb(env1.weather_factor_centi as int);
    assert(spec_path_loss_cdb(env1.sources@[j]) == spec_path_loss_cdb(env2.sources@[j]));
    assert forall|i: int| 0 <= i < env1.sources@.len() implies spec_linear_power(
        spec_received_cdb(#[trigger] env1.sources@[i], w),
    ) <= spec_linear_power(spec_received_cdb(#[trigger] env2.sources@[i], w)) by {
        if i == j {
            lemma_linear_power_mono(
                spec_received_cdb(env1.sources@[j], w),
                spec_received_cdb(env2.sources@[j], w),
            );
        }
    }
    lemma_total_linear_mono(env1.sources@, env2.sources@, w);
    let total_1 = spec_total_linear(env1.sources@, w);
    let total_2 = spec_total_linear(env2.sources@, w);
    lemma_total_linear_bounds(env1.sources@, w);
    lemma_total_linear_bounds(env2.sources@, w);
    if total_1 > 0 {
        lemma_centi_log10_mono(total_1 as nat, total_2 as nat);
        lemma_log10_floor_le_38(total_1 as nat);
        lemma_log10_floor_le_38(total_2 as nat);
        lemma_centi_log10_decade_bounds(total_1 as nat);
        lemma_centi_log10_decade_bounds(total_2 as nat);
    }
}

/// An empty emitter set is no interference at all: the report carries
/// the no-signal level, not an undefined logarithm, and classifies as
/// low risk.
pub proof fn lemma_empty_environment_no_signal(env: RadioEnvironment)
    requires
        env.sources@.len() == 0,
    ensures
        spec_interference_level(env) == SignalLevel::NoSignal,
        spec_signal_to_noise(env) == SignalLevel::NoSignal,
        spec_risk_level(env) == RiskLevel::Low,
{
}

/// Purity: the analysis is a function of the environment record alone,
/// so two analyses of identical environments yield identical reports.
pub proof fn lemma_report_deterministic(env1: RadioEnvironment, env2: RadioEnvironment)
    requires
        env1 == env2,
    ensures
        spec_validate(env1) == spec_validate(env2),
        spec_interference_level(env1) == spec_interference_level(env2),
        spec_signal_to_noise(env1) == spec_signal_to_noise(env2),
        spec_risk_level(env1) == spec_risk_level(env2),
{
}

impl RadioSource {
    /// Path loss of this source in centi-dB: exactly
    /// [`spec_path_loss_cdb`], within the bounds its valid inputs allow.
    pub fn calculate_path_loss(&self) -> (r: i64)
        requires
            spec_source_valid(*self),
        ensures
            r as int == spec_path_loss_cdb(*self),
            -8760 <= r <= 3_747_200,
    {
        let basic: i64 = if self.distance_m == 0 {
            0
        } else {
            let distance_log = centi_log10_u128(self.distance_m as u128);
            let frequency_log = centi_log10_u128(self.frequency_khz as u128);
            20 * (distance_log as i64 + frequency_log as i64 - 438)
        };
        let terrain: i64 = if self.distance_m > 1000 {
            let distance_log = centi_log10_u128(self.distance_m as u128);
            proof {
                lemma_centi_log10_of_pow10(3);
                assert(pow10(3) == 1000) by {
                    reveal_with_fuel(pow10, 4);
                }
                lemma_centi_log10_mono(1000, self.distance_m as nat);
                assert((self.terrain_factor_centi as int) * ((distance_log - 300) as int)
                    <= 100_000 * 3599) by (nonlinear_arith)
                    requires
                        self.terrain_factor_centi <= 100_000,
                        300 <= distance_log <= 3899,
                ;
            }
            let penalty: u64 = (self.terrain_factor_centi as u64) * ((distance_log - 300)
                as u64);
            (penalty / 100) as i64
        } else {
            0
        };
        basic + terrain
    }
}

impl RadioEnvironment {
    /// Analyze this environment: reject invalid inputs with the first
    /// applicable error, otherwise aggregate every source's received
    /// power, derive the signal-to-noise ratio and classify it.
    ///
    /// The report is a function of the environment alone; see
    /// [`lemma_report_deterministic`].
    pub fn analyze(&self) -> (r: Result<RadioInterferenceAnalysis, ValidationError>)
        ensures
            r is Ok <==> spec_validate(*self) is None,
            spec_validate(*self) matches Some(e) ==> r == Result::<
                RadioInterferenceAnalysis,
                ValidationError,
            >::Err(e),
            r matches Ok(report) ==> {
                &&& report.interference_level == spec_interference_level(*self)
                &&& report.signal_to_noise == spec_signal_to_noise(*self)
                &&& report.risk_level == spec_risk_level(*self)
                &&& report.recommendations@ == seq![spec_advisory_for(spec_risk_level(*self))]
            },
    {
        let n = self.sources.len();
        // Validation, in the order the specification fixes.
        let mut i: usize = 0;
        while i < n
            invariant
                i <= n == self.sources@.len(),
                forall|j: int| 0 <= j < i ==> spec_source_error(#[trigger] self.sources@[j]) is None,
            decreases n - i,
        {
            let source = self.sources[i];
            proof {
                lemma_sources_error_skip(self.sources@, i as int);
                assert(self.sources@.subrange(i as int, n as int)[0] == source);
            }
            if source.frequency_khz == 0 {
                return Err(ValidationError::FrequencyNotPositive);
            }
            if source.power_cdbm < -100_000 || source.power_cdbm > 100_000 {
                return Err(ValidationError::PowerOutOfRange);
            }
            if source.terrain_factor_centi > 100_000 {
                return Err(ValidationError::TerrainFactorOutOfRange);
            }
            i = i + 1;
        }
        proof {
            lemma_sources_error_skip(self.sources@, n as int);
            assert(self.sources@.subrange(n as int, n as int).len() == 0);
        }
        if self.weather_factor_centi == 0 {
            return Err(ValidationError::WeatherFactorNotPositive);
        }
        if self.weather_factor_centi > 1_000_000 {
            return Err(ValidationError::WeatherFactorOutOfRange);
        }
        if self.background_noise_cdbm < -100_000 || self.background_noise_cdbm > 100_000 {
            return Err(ValidationError::NoiseOutOfRange);
        }
        proof {
            lemma_validate_none_iff_valid(*self);
        }
        // The weather multiplier as a decibel adjustment.
        let weather_log = centi_log10_u128(self.weather_factor_centi as u128);
        proof {
            lemma_centi_log10_of_pow10(6);
            assert(pow10(6) == 1_000_000) by {
                reveal_with_fuel(pow10, 8);
            }
            lemma_centi_log10_mono(self.weather_factor_centi as nat, 1_000_000);
        }
        let weather_adjustment: i64 = 10 * (weather_log as i64 - 200);
        let ghost w_adj = spec_weather_adjustment_cdb(self.weather_factor_centi as int);
        assert(weather_adjustment as int == w_adj);
        assert(-2000 <= weather_adjustment <= 4000);
        // Aggregate linear interference power.
        let mut total: u128 = 0;
        let mut i: usize = 0;
        while i < n
            invariant
                i <= n == self.sources@.len(),
                spec_environment_valid(*self),
                weather_adjustment as int == w_adj,
                -2000 <= weather_adjustment <= 4000,
                total as int == spec_total_linear(self.sources@.subrange(0, i as int), w_adj),
                total <= LINEAR_SUM_CAP,
            decreases n - i,
        {
            let source = self.sources[i];
            let loss = source.calculate_path_loss();
            let received: i64 = source.power_cdbm + weather_adjustment - loss;
            let shifted: i64 = received + 12_000;
            let linear: u128 = if shifted < 0 {
                0
            } else {
                pow10_inverse(((shifted as u64) / 10) as i64)
            };
            proof {
                lemma_linear_power_bounds(spec_received_cdb(source, w_adj));
                assert(linear as int == spec_linear_power(spec_received_cdb(source, w_adj)));
            }
            let sum: u128 = total + linear;
            total = if sum > LINEAR_SUM_CAP {
                LINEAR_SUM_CAP
            } else {
                sum
            };
            proof {
                let prefix = self.sources@.subrange(0, i as int + 1);
                assert(prefix.drop_last() =~= self.sources@.subrange(0, i as int));
                assert(prefix.last() == source);
            }
            i = i + 1;
        }
        proof {
            assert(self.sources@.subrange(0, n as int) =~= self.sources@);
        }
        // Back to decibels, and classification.
        let interference_level: SignalLevel;
        let signal_to_noise: SignalLevel;
        let risk_level: RiskLevel;
        if total == 0 {
            interference_level = SignalLevel::NoSignal;
            signal_to_noise = SignalLevel::NoSignal;
            risk_level = RiskLevel::Low;
        } else {
            let total_log = centi_log10_u128(total);
            let level: i64 = 10 * (total_log as i64) - 12_000;
            let snr: i64 = level - self.background_noise_cdbm;
            interference_level = SignalLevel::CentiDb(level);
            signal_to_noise = SignalLevel::CentiDb(snr);
            let bands = radio_snr_bands();
            risk_level = classify(&bands, RiskLevel::Critical, snr);
            proof {
                lemma_radio_bands_match_thresholds(snr as int);
            }
        }
        let advisory = match risk_level {
            RiskLevel::Low => Advisory::NormalOperations,
            RiskLevel::Medium => Advisory::ConsiderFrequencyAdjustment,
            RiskLevel::High => Advisory::ImmediateFrequencyReallocation,
            RiskLevel::Critical => Advisory::UnsafeForCriticalCommunications,
        };
        let mut recommendations: Vec<Advisory> = Vec::new();
        recommendations.push(advisory);
        proof {
            assert(recommendations@ =~= seq![spec_advisory_for(spec_risk_level(*self))]);
        }
        Ok(
            RadioInterferenceAnalysis {
                interference_level,
                signal_to_noise,
                risk_level,
                recommendations,
            },
        )
    }
}

} // verus!
