use safer::radio::RadioEnvironment;
use safer::radio::RadioSource;
use safer::radio::SignalLevel;
use safer::radio::ValidationError;
use safer::risk::Advisory;
use safer::risk::RiskLevel;

fn environment(sources: Vec<RadioSource>) -> RadioEnvironment {
    RadioEnvironment {
        sources,
        background_noise_cdbm: -9_000,  // -90 dBm
        weather_factor_centi: 100,      // neutral weather
    }
}

// A 100 MHz emitter one kilometre away: its free-space path loss on the
// fixed-point scale is exactly 72.40 dB, so a transmit power of
// 12.40 dBm is received at -60.00 dBm.
fn reference_source() -> RadioSource {
    RadioSource {
        frequency_khz: 100_000,
        power_cdbm: 1_240,
        distance_m: 1_000,
        terrain_factor_centi: 0,
    }
}

#[test]
fn test_radio_empty_set_is_low_risk() {
    let env = environment(vec![]);
    let report = env.analyze().unwrap();
    assert_eq!(report.interference_level, SignalLevel::NoSignal);
    assert_eq!(report.signal_to_noise, SignalLevel::NoSignal);
    assert_eq!(report.risk_level, RiskLevel::Low);
    assert_eq!(report.recommendations, vec![Advisory::NormalOperations]);
}

#[test]
fn test_single_source_exact_levels() {
    let env = environment(vec![reference_source()]);
    let report = env.analyze().unwrap();
    assert_eq!(report.interference_level, SignalLevel::CentiDb(-6_000));
    // SNR of exactly 30 dB over the -90 dBm floor: not strictly above
    // 30 dB, so the medium band.
    assert_eq!(report.signal_to_noise, SignalLevel::CentiDb(3_000));
    assert_eq!(report.risk_level, RiskLevel::Medium);
    assert_eq!(report.recommendations, vec![Advisory::ConsiderFrequencyAdjustment]);
}

#[test]
fn test_snr_band_edges() {
    let mut env = environment(vec![reference_source()]);
    let snr_of = |env: &RadioEnvironment| match env.analyze().unwrap().signal_to_noise {
        SignalLevel::CentiDb(v) => v,
        SignalLevel::NoSignal => panic!("expected a finite level"),
    };
    env.background_noise_cdbm = -9_010;
    assert_eq!(snr_of(&env), 3_010);
    assert_eq!(env.analyze().unwrap().risk_level, RiskLevel::Low);
    env.background_noise_cdbm = -8_001;
    assert_eq!(env.analyze().unwrap().risk_level, RiskLevel::Medium);
    env.background_noise_cdbm = -8_000;
    assert_eq!(env.analyze().unwrap().risk_level, RiskLevel::High);
    env.background_noise_cdbm = -7_001;
    assert_eq!(env.analyze().unwrap().risk_level, RiskLevel::High);
    env.background_noise_cdbm = -7_000;
    assert_eq!(env.analyze().unwrap().risk_level, RiskLevel::Critical);
    assert_eq!(
        env.analyze().unwrap().recommendations,
        vec![Advisory::UnsafeForCriticalCommunications],
    );
}

#[test]
fn test_weather_attenuation_applies_per_source() {
    // A 0.1 weather multiplier costs every source ten decibels.
    let mut env = environment(vec![reference_source()]);
    env.weather_factor_centi = 10;
    let report = env.analyze().unwrap();
    assert_eq!(report.interference_level, SignalLevel::CentiDb(-7_000));
}

#[test]
fn test_zero_distance_suffers_no_path_loss() {
    let mut source = reference_source();
    source.distance_m = 0;
    source.power_cdbm = -6_000;
    let env = environment(vec![source]);
    let report = env.analyze().unwrap();
    assert_eq!(report.interference_level, SignalLevel::CentiDb(-6_000));
}

#[test]
fn test_terrain_penalty_beyond_one_kilometre() {
    // Ten kilometres at 100 MHz: basic loss 92.40 dB; a terrain factor
    // of 2.0 adds 2.0 * log10(10 km) = 2.00 dB.
    let source = RadioSource {
        frequency_khz: 100_000,
        power_cdbm: 3_440,
        distance_m: 10_000,
        terrain_factor_centi: 200,
    };
    let report = environment(vec![source]).analyze().unwrap();
    assert_eq!(report.interference_level, SignalLevel::CentiDb(-6_000));
}

#[test]
fn test_terrain_is_no_credit_within_one_kilometre() {
    // At 500 m the log10 of the distance in kilometres is negative; the
    // terrain term must be zero, not a credit, so the terrain factor
    // changes nothing.
    let mut with_terrain = reference_source();
    with_terrain.distance_m = 500;
    let mut without_terrain = with_terrain;
    with_terrain.terrain_factor_centi = 900;
    without_terrain.terrain_factor_centi = 0;
    let a = environment(vec![with_terrain]).analyze().unwrap();
    let b = environment(vec![without_terrain]).analyze().unwrap();
    assert_eq!(a.interference_level, b.interference_level);
}

#[test]
fn test_interference_monotone_in_power() {
    let weak = reference_source();
    let mut strong = weak;
    strong.power_cdbm = weak.power_cdbm + 700;
    let second = RadioSource {
        frequency_khz: 250_000,
        power_cdbm: 2_000,
        distance_m: 3_000,
        terrain_factor_centi: 150,
    };
    let low = environment(vec![weak, second]).analyze().unwrap();
    let high = environment(vec![strong, second]).analyze().unwrap();
    match (low.interference_level, high.interference_level) {
        (SignalLevel::CentiDb(a), SignalLevel::CentiDb(b)) => assert!(a <= b),
        (SignalLevel::NoSignal, _) => {}
        (SignalLevel::CentiDb(_), SignalLevel::NoSignal) => panic!("interference dropped"),
    }
}

#[test]
fn test_two_sources_add_power() {
    let one = environment(vec![reference_source()]).analyze().unwrap();
    let two = environment(vec![reference_source(), reference_source()]).analyze().unwrap();
    // Two equal emitters sit three decibels (and a rounding step) above
    // one.
    assert_eq!(one.interference_level, SignalLevel::CentiDb(-6_000));
    assert_eq!(two.interference_level, SignalLevel::CentiDb(-5_690));
}

#[test]
fn test_validation_errors() {
    let mut zero_frequency = reference_source();
    zero_frequency.frequency_khz = 0;
    assert_eq!(
        environment(vec![zero_frequency]).analyze(),
        Err(ValidationError::FrequencyNotPositive),
    );

    let mut hot = reference_source();
    hot.power_cdbm = 100_001;
    assert_eq!(environment(vec![hot]).analyze(), Err(ValidationError::PowerOutOfRange));

    let mut rough = reference_source();
    rough.terrain_factor_centi = 100_001;
    assert_eq!(environment(vec![rough]).analyze(), Err(ValidationError::TerrainFactorOutOfRange));

    let mut env = environment(vec![reference_source()]);
    env.weather_factor_centi = 0;
    assert_eq!(env.analyze(), Err(ValidationError::WeatherFactorNotPositive));
    env.weather_factor_centi = 1_000_001;
    assert_eq!(env.analyze(), Err(ValidationError::WeatherFactorOutOfRange));

    let mut noisy = environment(vec![reference_source()]);
    noisy.background_noise_cdbm = -100_001;
    assert_eq!(noisy.analyze(), Err(ValidationError::NoiseOutOfRange));
}

#[test]
fn test_first_failing_source_wins() {
    let mut zero_frequency = reference_source();
    zero_frequency.frequency_khz = 0;
    let mut hot = reference_source();
    hot.power_cdbm = 200_000;
    let env = environment(vec![hot, zero_frequency]);
    assert_eq!(env.analyze(), Err(ValidationError::PowerOutOfRange));
}

#[test]
fn test_radio_analysis_repeats_identically() {
    let env = environment(vec![
        reference_source(),
        RadioSource {
            frequency_khz: 433_920,
            power_cdbm: 2_715,
            distance_m: 12_345,
            terrain_factor_centi: 137,
        },
    ]);
    let first = env.analyze().unwrap();
    let second = env.analyze().unwrap();
    assert_eq!(first, second);
}

#[test]
fn test_path_loss_exact_value() {
    // 20 * log10(4 * pi * 1000 m / 3 m) at 100 MHz is 72.40 dB on the
    // fixed-point scale.
    let loss = reference_source().calculate_path_loss();
    assert_eq!(loss, 7_240);
}
