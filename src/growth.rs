//! Growth percentiles of children, estimated against simple reference curves.
use vstd::prelude::*;
use crate::text::same_text;

verus! {

#[derive(Clone, Copy, Debug, PartialEq, Eq, Structural)]
pub enum Error {
    NotFound,
    Unauthorized,
    InvalidData,
    AlreadyExists,
}

#[derive(Clone, Copy, Debug, PartialEq, Eq, Structural)]
pub enum Sex {
    Male,
    Female,
}

/// The oldest age, in months, that the reference curves cover.
pub const MAX_AGE_MONTHS: u32 = 228;

/// A child's measurements, each in hundredths of its unit.
#[derive(Clone, Copy, Debug, PartialEq, Eq, Structural)]
pub struct PediatricMeasurements {
    pub weight_kg_x100: i64,
    pub height_cm_x100: i64,
    pub head_circumference_cm_x100: Option<i64>,
    pub bmi_x100: i64,
}

/// Percentiles in hundredths, from 0 to 10 000.
#[derive(Clone, Copy, Debug, PartialEq, Eq, Structural)]
pub struct GrowthPercentiles {
    pub weight_percentile_x100: i64,
    pub height_percentile_x100: i64,
    pub head_circ_pct_x100: Option<i64>,
    pub bmi_percentile_x100: i64,
}

/// Integer division rounding towards zero.
pub open spec fn div_toward_zero(a: int, b: int) -> int {
    if a >= 0 {
        a / b
    } else {
        -((-a) / b)
    }
}

/// The percentile, in hundredths, of `value` on a curve centred on `expected`: the median
/// plus 20 points per standard deviation, held within 0 and 100.
pub open spec fn percentile(value: int, expected: int, sd: int) -> int {
    let score = 5000 + div_toward_zero((value - expected) * 2000, sd);
    if score < 0 {
        0
    } else if score > 10000 {
        10000
    } else {
        score
    }
}

pub open spec fn expected_weight(age_months: u32, sex: Sex) -> int {
    let base: int = if sex == Sex::Male {
        370
    } else {
        350
    };
    if age_months <= 12 {
        base + age_months * 60
    } else {
        base + 12 * 60 + (age_months - 12) * 25
    }
}

pub open spec fn expected_height(age_months: u32, sex: Sex) -> int {
    let base: int = if sex == Sex::Male {
        5100
    } else {
        5000
    };
    if age_months <= 12 {
        base + age_months * 250
    } else {
        base + 12 * 250 + (age_months - 12) * 80
    }
}

pub open spec fn expected_head_circumference(age_months: u32, sex: Sex) -> int {
    let base: int = if sex == Sex::Male {
        3550
    } else {
        3450
    };
    if age_months <= 24 {
        base + age_months * 70
    } else {
        base + 24 * 70 + (age_months - 24) * 10
    }
}

pub open spec fn expected_bmi(sex: Sex) -> int {
    if sex == Sex::Male {
        1720
    } else {
        1680
    }
}

pub open spec fn sex_named(name: Seq<char>) -> Option<Sex> {
    if name == "male"@ {
        Some(Sex::Male)
    } else if name == "female"@ {
        Some(Sex::Female)
    } else {
        None
    }
}

/// The percentiles of `m` for a child of the given sex and age.
pub open spec fn growth_percentiles(age_months: u32, sex: Sex, m: PediatricMeasurements) -> GrowthPercentiles {
    GrowthPercentiles {
        weight_percentile_x100: percentile(m.weight_kg_x100 as int, expected_weight(age_months, sex), 120) as i64,
        height_percentile_x100: percentile(m.height_cm_x100 as int, expected_height(age_months, sex), 300) as i64,
        head_circ_pct_x100: match m.head_circumference_cm_x100 {
            Some(hc) => Some(percentile(hc as int, expected_head_circumference(age_months, sex), 180) as i64),
            None => None,
        },
        bmi_percentile_x100: percentile(m.bmi_x100 as int, expected_bmi(sex), 120) as i64,
    }
}

pub struct MaternalChildHealthContract;

impl MaternalChildHealthContract {
    /// Reads a sex from its name, `male` or `female`.
    pub fn sex_from_name(name: &str) -> (r: Option<Sex>)
        ensures
            r == sex_named(name@),
    {
        if same_text(name, "male") {
            Some(Sex::Male)
        } else if same_text(name, "female") {
            Some(Sex::Female)
        } else {
            None
        }
    }

    /// Estimates the growth percentiles of a child's measurements. The sex must be `male`
    /// or `female` and the age at most 228 months.
    pub fn calculate_growth_percentiles(
        sex: &str,
        age_months: u32,
        measurements: PediatricMeasurements,
    ) -> (r: Result<GrowthPercentiles, Error>)
        ensures
            r == if age_months > MAX_AGE_MONTHS || sex_named(sex@) is None {
                Err::<GrowthPercentiles, Error>(Error::InvalidData)
            } else {
                Ok(growth_percentiles(age_months, sex_named(sex@)->Some_0, measurements))
            },
    {
        if age_months > MAX_AGE_MONTHS {
            return Err(Error::InvalidData);
        }
        let sex = match Self::sex_from_name(sex) {
            Some(s) => s,
            None => {
                return Err(Error::InvalidData);
            },
        };
        let expected_weight = Self::expected_weight_kg_x100(age_months, sex);
        let expected_height = Self::expected_height_cm_x100(age_months, sex);
        let expected_hc = Self::expected_head_circumference_cm_x100(age_months, sex);
        let expected_bmi = Self::expected_bmi_x100(age_months, sex);
        let weight_percentile_x100 = Self::estimate_percentile(
            measurements.weight_kg_x100,
            expected_weight,
            120,
        );
        let height_percentile_x100 = Self::estimate_percentile(
            measurements.height_cm_x100,
            expected_height,
            300,
        );
        let bmi_percentile_x100 = Self::estimate_percentile(
            measurements.bmi_x100,
            expected_bmi,
            120,
        );
        let head_circ_pct_x100 = match measurements.head_circumference_cm_x100 {
            Some(hc) => Some(Self::estimate_percentile(hc, expected_hc, 180)),
            None => None,
        };
        Ok(
            GrowthPercentiles {
                weight_percentile_x100,
                height_percentile_x100,
                head_circ_pct_x100,
                bmi_percentile_x100,
            },
        )
    }

    /// The percentile, in hundredths, of `value` on a curve with median `expected` and
    /// standard deviation `sd`.
    pub fn estimate_percentile(value: i64, expected: i64, sd: i64) -> (r: i64)
        requires
            sd > 0,
        ensures
            r == percentile(value as int, expected as int, sd as int),
            0 <= r <= 10000,
    {
        let delta = value as i128 - expected as i128;
        let score = 5000i128 + (delta * 2000i128) / (sd as i128);
        if score < 0 {
            0
        } else if score > 10_000 {
            10_000
        } else {
            score as i64
        }
    }

    pub fn expected_weight_kg_x100(age_months: u32, sex: Sex) -> (r: i64)
        ensures
            r == expected_weight(age_months, sex),
    {
        let base: i64 = if sex == Sex::Male {
            370
        } else {
            350
        };
        if age_months <= 12 {
            base + age_months as i64 * 60
        } else {
            base + 12 * 60 + (age_months - 12) as i64 * 25
        }
    }

    pub fn expected_height_cm_x100(age_months: u32, sex: Sex) -> (r: i64)
        ensures
            r == expected_height(age_months, sex),
    {
        let base: i64 = if sex == Sex::Male {
            5100
        } else {
            5000
        };
        if age_months <= 12 {
            base + age_months as i64 * 250
        } else {
            base + 12 * 250 + (age_months - 12) as i64 * 80
        }
    }

    pub fn expected_head_circumference_cm_x100(age_months: u32, sex: Sex) -> (r: i64)
        ensures
            r == expected_head_circumference(age_months, sex),
    {
        let base: i64 = if sex == Sex::Male {
            3550
        } else {
            3450
        };
        let growth: i64 = if age_months <= 24 {
            age_months as i64 * 70
        } else {
            24 * 70 + (age_months - 24) as i64 * 10
        };
        base + growth
    }

    pub fn expected_bmi_x100(_age_months: u32, sex: Sex) -> (r: i64)
        ensures
            r == expected_bmi(sex),
    {
        if sex == Sex::Male {
            1720
        } else {
            1680
        }
    }
}

} // verus!
