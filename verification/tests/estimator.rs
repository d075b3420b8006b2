use creation_time::estimator::{calculate_error_range, estimate, Estimate, EstimatorError};

#[test]
fn estimate_matches_the_local_slope() {
    // Slope 10 per identifier; 50 identifiers from the first point.
    let r = estimate(150, (100, 1000), (200, 2000));
    assert_eq!(r, Ok(Estimate { created_at: 1500, error_margin: 500 }));
}

#[test]
fn estimate_extrapolates_with_growing_margin() {
    let r = estimate(300, (100, 1000), (200, 2000));
    assert_eq!(r, Ok(Estimate { created_at: 3000, error_margin: 2000 }));
}

#[test]
fn estimate_truncates_toward_zero() {
    // Slope 10/3: the exact offset 20/3 is cut down to 6.
    let r = estimate(2, (0, 0), (3, 10));
    assert_eq!(r, Ok(Estimate { created_at: 6, error_margin: 6 }));
    // Negative offset -20/3 is cut up to -6, toward zero.
    let r = estimate(2, (0, 0), (3, -10));
    assert_eq!(r, Ok(Estimate { created_at: -6, error_margin: 6 }));
}

#[test]
fn estimate_handles_a_falling_slope() {
    let r = estimate(15, (10, 100), (20, 50));
    assert_eq!(r, Ok(Estimate { created_at: 75, error_margin: 25 }));
}

#[test]
fn estimate_rejects_equal_reference_identifiers() {
    let r = estimate(5, (7, 100), (7, 200));
    assert_eq!(r, Err(EstimatorError::InsufficientData));
}

#[test]
fn estimate_reports_an_unrepresentable_margin() {
    // Slope i64::MAX per identifier, three identifiers out.
    let r = estimate(3, (0, 0), (1, i64::MAX));
    assert_eq!(r, Err(EstimatorError::OutOfRange));
}

#[test]
fn estimate_reports_an_unrepresentable_timestamp() {
    // Extrapolating backwards along a falling slope pushes the estimate
    // past the top of the 64-bit range while the margin itself fits.
    let r = estimate(0, (1, i64::MAX), (2, i64::MAX - 10));
    assert_eq!(r, Err(EstimatorError::OutOfRange));
}

#[test]
fn error_range_scales_with_distance_from_the_first_point() {
    assert_eq!(calculate_error_range(150, 100, 1000, 200, 2000), 500);
    assert_eq!(calculate_error_range(300, 100, 1000, 200, 2000), 2000);
    assert_eq!(calculate_error_range(100, 100, 1000, 200, 2000), 0);
}
