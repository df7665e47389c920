use safer::decibel::centi_log10_u128;
use safer::decibel::pow10_inverse;
use safer::risk::Advisory;
use safer::risk::RiskBand;
use safer::risk::RiskLevel;
use safer::risk::classify;
use safer::risk::energy_score_bands;
use safer::risk::radio_snr_bands;

#[test]
fn test_risk_level_total_order() {
    assert!(RiskLevel::Low.severity_rank() < RiskLevel::Medium.severity_rank());
    assert!(RiskLevel::Medium.severity_rank() < RiskLevel::High.severity_rank());
    assert!(RiskLevel::High.severity_rank() < RiskLevel::Critical.severity_rank());
}

#[test]
fn test_worse_of_takes_the_maximum() {
    assert_eq!(RiskLevel::Low.worse_of(RiskLevel::High), RiskLevel::High);
    assert_eq!(RiskLevel::Critical.worse_of(RiskLevel::Medium), RiskLevel::Critical);
    assert_eq!(RiskLevel::Medium.worse_of(RiskLevel::Medium), RiskLevel::Medium);
}

#[test]
fn test_classifier_first_match_and_fallback() {
    let bands = vec![
        RiskBand { lower_bound: 50, level: RiskLevel::Low },
        RiskBand { lower_bound: 10, level: RiskLevel::High },
    ];
    assert_eq!(classify(&bands, RiskLevel::Critical, 50), RiskLevel::Low);
    assert_eq!(classify(&bands, RiskLevel::Critical, 49), RiskLevel::High);
    assert_eq!(classify(&bands, RiskLevel::Critical, 10), RiskLevel::High);
    assert_eq!(classify(&bands, RiskLevel::Critical, 9), RiskLevel::Critical);
    // No bands at all: everything falls back.
    let empty: Vec<RiskBand> = vec![];
    assert_eq!(classify(&empty, RiskLevel::Medium, 1_000_000), RiskLevel::Medium);
}

#[test]
fn test_shared_band_tables() {
    let energy = energy_score_bands();
    assert_eq!(energy.len(), 3);
    assert_eq!(energy[0], RiskBand { lower_bound: 90_000, level: RiskLevel::Low });
    assert_eq!(energy[2], RiskBand { lower_bound: 60_000, level: RiskLevel::High });
    let radio = radio_snr_bands();
    assert_eq!(radio.len(), 3);
    assert_eq!(radio[0], RiskBand { lower_bound: 3_001, level: RiskLevel::Low });
    assert_eq!(radio[2], RiskBand { lower_bound: 1_001, level: RiskLevel::High });
}

#[test]
fn test_advisory_wording() {
    assert_eq!(
        Advisory::ScheduleHydrogenInspection.text(),
        "Schedule hydrogen system inspection",
    );
    assert_eq!(Advisory::NormalOperations.text(), "Normal operations can proceed");
    assert_eq!(
        Advisory::UnsafeForCriticalCommunications.text(),
        "Unsafe for critical communications. Abort mission if communication dependent",
    );
}

#[test]
fn test_centi_log10_exact_at_powers_of_ten() {
    assert_eq!(centi_log10_u128(1), 0);
    assert_eq!(centi_log10_u128(10), 100);
    assert_eq!(centi_log10_u128(1_000), 300);
    assert_eq!(centi_log10_u128(1_000_000), 600);
    assert_eq!(centi_log10_u128(10_000_000_000), 1_000);
}

#[test]
fn test_centi_log10_between_decades() {
    // 100 * log10(2) = 30.10...: the ten-digit approximation floors to 30.
    assert_eq!(centi_log10_u128(2), 30);
    assert_eq!(centi_log10_u128(999_999), 599);
    assert_eq!(centi_log10_u128(1_000_001), 600);
    // Monotone across an arbitrary stretch.
    let mut previous = 0;
    for value in [3u128, 47, 500, 6_283, 99_991, 1_234_567, 89_000_000] {
        let current = centi_log10_u128(value);
        assert!(current >= previous);
        previous = current;
    }
}

#[test]
fn test_pow10_inverse_round_trip() {
    // Negative targets saturate at zero; the inverse of an exact decade
    // logarithm is at least that decade.
    assert_eq!(pow10_inverse(-1), 0);
    assert!(pow10_inverse(0) >= 1);
    assert!(pow10_inverse(300) >= 1_000);
    assert!(pow10_inverse(600) >= 1_000_000);
    // The inverse is the greatest such value: its own logarithm matches
    // the target, and the successor overshoots.
    let v = pow10_inverse(600);
    assert_eq!(centi_log10_u128(v), 600);
    assert!(centi_log10_u128(v + 1) > 600);
}
