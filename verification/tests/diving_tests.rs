use safer::diving::DecompressionStop;
use safer::diving::DiveProfile;
use safer::diving::DivingSafetyCalculator;
use safer::diving::summarize_dive_history;

fn profile(diver_id: u128, max_depth_um: u64) -> DiveProfile {
    DiveProfile {
        id: 1,
        diver_id,
        start_time_s: 1_700_000_000,
        end_time_s: 1_700_003_600,
        max_depth_um,
        bottom_time_s: 1800,
        decompression_stops: vec![DecompressionStop { depth_um: 5_000_000, duration_s: 180 }],
        air_consumption_ul: 1_500_000_000,
        remaining_air_ubar: 90_000_000,
        no_decompression_limit_s: 4320,
    }
}

#[test]
fn test_diving_calculator() {
    let calculator = DivingSafetyCalculator::new();
    let pressure = calculator.calculate_pressure_at_depth(30_000_000);
    assert!(pressure > 1_000_000); // Pressure should be greater than surface pressure

    let ndl = calculator.calculate_no_decompression_limit(30_000_000, &vec![]);
    assert!(ndl > 0);
}

#[test]
fn test_pressure_at_surface_and_ten_metres() {
    let calculator = DivingSafetyCalculator::new();
    // 1.0 bar at the surface.
    assert_eq!(calculator.calculate_pressure_at_depth(0), 1_000_000);
    // 2.0 bar at ten metres.
    assert_eq!(calculator.calculate_pressure_at_depth(10_000_000), 2_000_000);
}

#[test]
fn test_ndl_band_edges() {
    let calculator = DivingSafetyCalculator::new();
    let none: Vec<DiveProfile> = vec![];
    // 219 minutes at the surface and exactly at ten metres.
    assert_eq!(calculator.calculate_no_decompression_limit(0, &none), 219 * 60);
    assert_eq!(calculator.calculate_no_decompression_limit(10_000_000, &none), 219 * 60);
    // A tenth of a millimetre past ten metres crosses into the next band.
    assert_eq!(calculator.calculate_no_decompression_limit(10_000_100, &none), 147 * 60);
    assert_eq!(calculator.calculate_no_decompression_limit(20_000_000, &none), 147 * 60);
    assert_eq!(calculator.calculate_no_decompression_limit(20_000_100, &none), 72 * 60);
    assert_eq!(calculator.calculate_no_decompression_limit(30_000_000, &none), 72 * 60);
    assert_eq!(calculator.calculate_no_decompression_limit(30_000_100, &none), 37 * 60);
    assert_eq!(calculator.calculate_no_decompression_limit(40_000_000, &none), 37 * 60);
    assert_eq!(calculator.calculate_no_decompression_limit(40_000_100, &none), 10 * 60);
}

#[test]
fn test_ndl_halved_by_prior_dive() {
    let calculator = DivingSafetyCalculator::new();
    let history = vec![profile(7, 18_000_000)];
    assert_eq!(calculator.calculate_no_decompression_limit(10_000_000, &history), 219 * 30);
    assert_eq!(calculator.calculate_no_decompression_limit(45_000_000, &history), 5 * 60);
}

#[test]
fn test_oxygen_partial_pressure() {
    let calculator = DivingSafetyCalculator::new();
    // Air (21% oxygen) at ten metres: 2.0 bar * 0.21 = 0.42 ata.
    assert_eq!(calculator.calculate_oxygen_partial_pressure(10_000_000, 210_000), 420_000);
    // Pure oxygen at the surface: 1.0 ata.
    assert_eq!(calculator.calculate_oxygen_partial_pressure(0, 1_000_000), 1_000_000);
}

#[test]
fn test_air_consumption() {
    let calculator = DivingSafetyCalculator::new();
    // 20 L/min at 2.0 bar for 10 minutes at normal work rate: 400 litres.
    let consumed = calculator.estimate_air_consumption(10_000_000, 600, 1_000_000);
    assert_eq!(consumed, 400_000_000);
    // Doubling the work rate doubles the consumption.
    let hard = calculator.estimate_air_consumption(10_000_000, 600, 2_000_000);
    assert_eq!(hard, 800_000_000);
}

#[test]
fn test_dive_history_summary() {
    let empty: Vec<DiveProfile> = vec![];
    let summary = summarize_dive_history(&empty);
    assert_eq!(summary.total_dives, 0);
    assert_eq!(summary.cumulative_bottom_time_s, 0);
    assert_eq!(summary.max_depth_reached_um, 0);

    let mut first = profile(9, 18_000_000);
    first.bottom_time_s = 1200;
    let mut second = profile(9, 33_000_000);
    second.bottom_time_s = 900;
    let summary = summarize_dive_history(&vec![first, second]);
    assert_eq!(summary.total_dives, 2);
    assert_eq!(summary.cumulative_bottom_time_s, 2100);
    assert_eq!(summary.max_depth_reached_um, 33_000_000);
}

#[test]
fn test_dive_history_bottom_time_saturates() {
    let mut first = profile(4, 10_000_000);
    first.bottom_time_s = u64::MAX - 10;
    let mut second = profile(4, 10_000_000);
    second.bottom_time_s = 100;
    let summary = summarize_dive_history(&vec![first, second]);
    assert_eq!(summary.cumulative_bottom_time_s, u64::MAX);
}

#[test]
fn test_diving_calculations_repeat_identically() {
    let calculator = DivingSafetyCalculator::new();
    let history = vec![profile(3, 22_000_000)];
    let first = calculator.calculate_no_decompression_limit(22_000_000, &history);
    let second = calculator.calculate_no_decompression_limit(22_000_000, &history);
    assert_eq!(first, second);
    assert_eq!(
        calculator.calculate_pressure_at_depth(22_000_000),
        calculator.calculate_pressure_at_depth(22_000_000),
    );
}
