//! The air quality report of the main loop: the ENS160 sensor's equivalent
//! CO2 reading is graded into an air quality index, which is reported by
//! name.
use vstd::prelude::*;

verus! {

#[verifier::external_type_specification]
#[verifier::external_body]
pub struct ExAirQualityConvError(ens160::error::AirQualityConvError);

/// Air quality index, from best to worst.
#[derive(Clone, Copy, Debug, PartialEq, Eq, Structural)]
pub enum AirQuality {
    Excellent,
    Good,
    Moderate,
    Poor,
    Unhealthy,
}

/// Why a reading could not be graded.
#[derive(Clone, Copy, Debug, PartialEq, Eq, Structural)]
pub enum AirQualityError {
    /// The equivalent CO2 reading (ppm) lies below the sensor's range, which
    /// starts at 400 ppm.
    BelowRange(u16),
}

/// The grade of an equivalent CO2 reading (ppm); none below 400 ppm.
pub open spec fn grade_of(eco2_ppm: u16) -> Option<AirQuality> {
    if eco2_ppm < 400 {
        None
    } else if eco2_ppm < 600 {
        Some(AirQuality::Excellent)
    } else if eco2_ppm < 800 {
        Some(AirQuality::Good)
    } else if eco2_ppm < 1000 {
        Some(AirQuality::Moderate)
    } else if eco2_ppm < 1500 {
        Some(AirQuality::Poor)
    } else {
        Some(AirQuality::Unhealthy)
    }
}

/// Calls `ens160::AirQualityIndex::try_from` on `ens160::ECo2::from(eco2_ppm)`:
/// 400..=599 ppm is excellent, 600..=799 good, 800..=999 moderate,
/// 1000..=1499 poor, from 1500 on unhealthy, and below 400 an error.
#[verifier::external_body]
fn ens160_air_quality_index(eco2_ppm: u16) -> (r: Result<AirQuality, ens160::error::AirQualityConvError>)
    ensures
        r is Ok <==> grade_of(eco2_ppm) is Some,
        r matches Ok(grade) ==> grade_of(eco2_ppm) == Some(grade),
{
    match ens160::AirQualityIndex::try_from(ens160::ECo2::from(eco2_ppm)) {
        Ok(ens160::AirQualityIndex::Excellent) => Ok(AirQuality::Excellent),
        Ok(ens160::AirQualityIndex::Good) => Ok(AirQuality::Good),
        Ok(ens160::AirQualityIndex::Moderate) => Ok(AirQuality::Moderate),
        Ok(ens160::AirQualityIndex::Poor) => Ok(AirQuality::Poor),
        Ok(ens160::AirQualityIndex::Unhealthy) => Ok(AirQuality::Unhealthy),
        Err(e) => Err(e),
    }
}

/// Grades an equivalent CO2 reading (ppm) into an air quality index.
pub fn air_quality_index(eco2_ppm: u16) -> (r: Result<AirQuality, AirQualityError>)
    ensures
        grade_of(eco2_ppm) matches Some(grade) ==> (r matches Ok(g) && g == grade),
        grade_of(eco2_ppm) is None ==> (r matches Err(e) && e == AirQualityError::BelowRange(
            eco2_ppm,
        )),
{
    match ens160_air_quality_index(eco2_ppm) {
        Ok(grade) => Ok(grade),
        Err(_) => Err(AirQualityError::BelowRange(eco2_ppm)),
    }
}

/// The name under which an air quality index is reported.
pub open spec fn label_of(grade: AirQuality) -> &'static str {
    match grade {
        AirQuality::Excellent => "Excellent",
        AirQuality::Good => "Good",
        AirQuality::Moderate => "Moderate",
        AirQuality::Poor => "Poor",
        AirQuality::Unhealthy => "Unhealthy",
    }
}

/// The name under which an air quality index is reported.
pub fn air_quality_label(grade: AirQuality) -> (r: &'static str)
    ensures
        r == label_of(grade),
{
    match grade {
        AirQuality::Excellent => "Excellent",
        AirQuality::Good => "Good",
        AirQuality::Moderate => "Moderate",
        AirQuality::Poor => "Poor",
        AirQuality::Unhealthy => "Unhealthy",
    }
}

/// A higher equivalent CO2 reading never gives a better grade.
pub proof fn lemma_grade_monotonic(low: u16, high: u16)
    requires
        400 <= low <= high,
    ensures
        grade_rank(grade_of(low)->0) <= grade_rank(grade_of(high)->0),
{
}

/// Position of a grade from best (0) to worst (4).
pub open spec fn grade_rank(grade: AirQuality) -> int {
    match grade {
        AirQuality::Excellent => 0,
        AirQuality::Good => 1,
        AirQuality::Moderate => 2,
        AirQuality::Poor => 3,
        AirQuality::Unhealthy => 4,
    }
}

} // verus!
