use ble_async_demo::air_quality::{air_quality_index, air_quality_label, AirQuality, AirQualityError};

#[test]
fn grades_by_thresholds() {
    let cases = [
        (400, AirQuality::Excellent),
        (599, AirQuality::Excellent),
        (600, AirQuality::Good),
        (799, AirQuality::Good),
        (800, AirQuality::Moderate),
        (999, AirQuality::Moderate),
        (1000, AirQuality::Poor),
        (1499, AirQuality::Poor),
        (1500, AirQuality::Unhealthy),
        (u16::MAX, AirQuality::Unhealthy),
    ];
    for (ppm, grade) in cases {
        assert_eq!(air_quality_index(ppm), Ok(grade), "{} ppm", ppm);
    }
}

#[test]
fn below_range_is_an_error() {
    assert_eq!(air_quality_index(399), Err(AirQualityError::BelowRange(399)));
    assert_eq!(air_quality_index(0), Err(AirQualityError::BelowRange(0)));
}

#[test]
fn labels() {
    assert_eq!(air_quality_label(AirQuality::Excellent), "Excellent");
    assert_eq!(air_quality_label(AirQuality::Good), "Good");
    assert_eq!(air_quality_label(AirQuality::Moderate), "Moderate");
    assert_eq!(air_quality_label(AirQuality::Poor), "Poor");
    assert_eq!(air_quality_label(AirQuality::Unhealthy), "Unhealthy");
}

fn rank(grade: AirQuality) -> u8 {
    match grade {
        AirQuality::Excellent => 0,
        AirQuality::Good => 1,
        AirQuality::Moderate => 2,
        AirQuality::Poor => 3,
        AirQuality::Unhealthy => 4,
    }
}

#[test]
fn grade_never_improves_with_more_co2() {
    let mut previous = 0;
    for ppm in (400..=u16::MAX).step_by(7) {
        let r = rank(air_quality_index(ppm).unwrap());
        assert!(r >= previous, "{} ppm", ppm);
        previous = r;
    }
}
