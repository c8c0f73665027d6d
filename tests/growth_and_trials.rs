use healthcare_credentialing::growth::{Error as GrowthError, MaternalChildHealthContract, PediatricMeasurements, Sex};
use healthcare_credentialing::trial::{
    validate_causality, validate_date_not_future, validate_date_range, validate_severity,
    validate_study_phase, validate_withdrawal_reason, Error as TrialError,
};

#[test]
fn test_calculate_growth_percentiles() {
    let percentiles = MaternalChildHealthContract::calculate_growth_percentiles(
        "female",
        12,
        PediatricMeasurements {
            weight_kg_x100: 960,
            height_cm_x100: 7500,
            head_circumference_cm_x100: Some(4550),
            bmi_x100: 1700,
        },
    )
    .unwrap();
    assert!(percentiles.weight_percentile_x100 >= 0);
    assert!(percentiles.weight_percentile_x100 <= 10_000);
    let bad = MaternalChildHealthContract::calculate_growth_percentiles(
        "other",
        12,
        PediatricMeasurements {
            weight_kg_x100: 960,
            height_cm_x100: 7500,
            head_circumference_cm_x100: None,
            bmi_x100: 1700,
        },
    );
    assert!(bad.is_err());
}

#[test]
fn growth_percentiles_exact_values() {
    let p = MaternalChildHealthContract::calculate_growth_percentiles(
        "male",
        6,
        PediatricMeasurements {
            weight_kg_x100: 740,
            height_cm_x100: 6600,
            head_circumference_cm_x100: Some(3970),
            bmi_x100: 1660,
        },
    )
    .unwrap();
    // expected weight 370 + 360 = 730: 5000 + 10 * 2000 / 120 = 5166
    assert_eq!(p.weight_percentile_x100, 5166);
    // expected height 5100 + 1500 = 6600
    assert_eq!(p.height_percentile_x100, 5000);
    // expected head 3550 + 420 = 3970
    assert_eq!(p.head_circ_pct_x100, Some(5000));
    // expected bmi 1720: 5000 - 60 * 2000 / 120 = 4000
    assert_eq!(p.bmi_percentile_x100, 4000);
}

#[test]
fn percentile_rounds_toward_zero_and_clamps() {
    assert_eq!(MaternalChildHealthContract::estimate_percentile(100, 101, 120), 4984);
    assert_eq!(MaternalChildHealthContract::estimate_percentile(101, 100, 120), 5016);
    assert_eq!(MaternalChildHealthContract::estimate_percentile(0, 10_000, 120), 0);
    assert_eq!(MaternalChildHealthContract::estimate_percentile(10_000, 0, 120), 10_000);
    assert_eq!(MaternalChildHealthContract::estimate_percentile(i64::MIN, i64::MAX, 1), 0);
}

#[test]
fn growth_age_limit_and_curves() {
    let m = PediatricMeasurements { weight_kg_x100: 1, height_cm_x100: 1, head_circumference_cm_x100: None, bmi_x100: 1 };
    assert_eq!(
        MaternalChildHealthContract::calculate_growth_percentiles("female", 229, m),
        Err(GrowthError::InvalidData)
    );
    assert!(MaternalChildHealthContract::calculate_growth_percentiles("female", 228, m).is_ok());
    assert_eq!(MaternalChildHealthContract::expected_weight_kg_x100(24, Sex::Female), 350 + 720 + 300);
    assert_eq!(MaternalChildHealthContract::expected_height_cm_x100(13, Sex::Male), 5100 + 3000 + 80);
    assert_eq!(MaternalChildHealthContract::expected_head_circumference_cm_x100(30, Sex::Female), 3450 + 1680 + 60);
    assert_eq!(MaternalChildHealthContract::expected_bmi_x100(3, Sex::Female), 1680);
}

#[test]
fn trial_date_range() {
    assert_eq!(validate_date_range(1, 2), Ok(()));
    assert_eq!(validate_date_range(2, 2), Err(TrialError::InvalidDateRange));
    assert_eq!(validate_date_range(3, 2), Err(TrialError::InvalidDateRange));
    assert_eq!(validate_date_not_future(5, 5), Ok(()));
    assert_eq!(validate_date_not_future(6, 5), Err(TrialError::InvalidDate));
}

#[test]
fn trial_vocabularies() {
    assert_eq!(validate_study_phase("phase3"), Ok(()));
    assert_eq!(validate_study_phase("phase5"), Err(TrialError::InvalidStudyPhase));
    assert_eq!(validate_severity("critical"), Ok(()));
    assert_eq!(validate_severity("fatal"), Err(TrialError::InvalidSeverity));
    assert_eq!(validate_causality("probable"), Ok(()));
    assert_eq!(validate_causality("maybe"), Err(TrialError::InvalidCausality));
    assert_eq!(validate_withdrawal_reason("lost"), Ok(()));
    assert_eq!(validate_withdrawal_reason(""), Err(TrialError::InvalidWithdrawalReason));
}
