use sigma_racer_sidearm::performance_mode::PerformanceMode;
use sigma_racer_sidearm::wingman;

#[test]
fn performance_mode_performance_mode_round_trips() {
    for mode in [
        PerformanceMode::Rain,
        PerformanceMode::Std,
        PerformanceMode::Sport,
        PerformanceMode::Track,
    ] {
        assert_eq!(PerformanceMode::from_raw(mode.to_raw()), mode);
        assert_eq!(PerformanceMode::from_label(mode.as_str()), Some(mode));
    }
}

#[test]
fn lib_performance_mode_round_trips() {
    for mode in [
        wingman::PerformanceMode::Rain,
        wingman::PerformanceMode::Std,
        wingman::PerformanceMode::Sport,
        wingman::PerformanceMode::Track,
    ] {
        assert_eq!(wingman::PerformanceMode::from_raw(mode.to_raw()), mode);
        assert_eq!(wingman::PerformanceMode::from_label(mode.as_str()), Some(mode));
    }
}

#[test]
fn unknown_raw_mode_falls_back_to_std() {
    assert_eq!(PerformanceMode::from_raw(4), PerformanceMode::Std);
    assert_eq!(PerformanceMode::from_raw(7), PerformanceMode::Std);
    assert_eq!(PerformanceMode::from_raw(255), PerformanceMode::Std);
    assert_eq!(PerformanceMode::from_raw(2), PerformanceMode::Sport);
}

#[test]
fn wingman_unknown_raw_mode_falls_back_to_sport() {
    assert_eq!(wingman::PerformanceMode::from_raw(4), wingman::PerformanceMode::Sport);
    assert_eq!(wingman::PerformanceMode::from_raw(255), wingman::PerformanceMode::Sport);
    assert_eq!(wingman::PerformanceMode::from_raw(1), wingman::PerformanceMode::Std);
}

#[test]
fn mode_labels_and_raw_values() {
    assert_eq!(PerformanceMode::Rain.as_str(), "RAIN");
    assert_eq!(PerformanceMode::Std.as_str(), "STD");
    assert_eq!(PerformanceMode::Sport.as_str(), "SPORT");
    assert_eq!(PerformanceMode::Track.as_str(), "TRACK");
    assert_eq!(PerformanceMode::Track.to_raw(), 3);
    assert_eq!(PerformanceMode::Rain.to_raw(), 0);
    assert_eq!(PerformanceMode::default(), PerformanceMode::Std);
}

#[test]
fn unknown_labels_are_rejected() {
    assert_eq!(PerformanceMode::from_label("rain"), None);
    assert_eq!(PerformanceMode::from_label(""), None);
    assert_eq!(PerformanceMode::from_label("SPORTS"), None);
    assert_eq!(PerformanceMode::from_label("TRAC"), None);
    assert_eq!(wingman::PerformanceMode::from_label("STD "), None);
}
