use vstd::prelude::*;

use crate::bytes::str_eq;

verus! {

/// A budget quantity as the engine knows it: measured, estimated, or not
/// known at all. The amount is the quantity's raw count.
#[derive(Debug, Clone, Copy, PartialEq, Eq, Structural)]
pub enum BudgetMeasurement {
    Observed(u64),
    Estimated(u64),
    Unknown,
}

/// A budget measurement on the wire: a quality word and an optional amount.
#[derive(Debug, PartialEq, Eq)]
pub struct WireBudgetMeasurement {
    pub quality: String,
    pub amount: Option<u64>,
}

/// Why a wire measurement was refused, naming the offending field.
#[derive(Debug, Clone, Copy, PartialEq, Eq, Structural)]
pub enum BudgetMeasurementError {
    /// `budget_measurement.amount`: an observed or estimated quantity
    /// came without its amount.
    MissingAmount,
    /// `budget_measurement.quality`: not a quality this reader knows, or
    /// an unknown quantity that carries a non-zero amount.
    InvalidQuality,
}

/// How a wire measurement reads: absent means unknown; `observed` and
/// `estimated` need an amount; `unknown` may carry none or zero.
pub open spec fn measurement_reading(
    value: Option<(Seq<char>, Option<u64>)>,
) -> Result<BudgetMeasurement, BudgetMeasurementError> {
    match value {
        None => Ok(BudgetMeasurement::Unknown),
        Some((quality, amount)) => if quality == "observed"@ {
            match amount {
                Some(a) => Ok(BudgetMeasurement::Observed(a)),
                None => Err(BudgetMeasurementError::MissingAmount),
            }
        } else if quality == "estimated"@ {
            match amount {
                Some(a) => Ok(BudgetMeasurement::Estimated(a)),
                None => Err(BudgetMeasurementError::MissingAmount),
            }
        } else if quality == "unknown"@ && (amount is None || amount == Some(0u64)) {
            Ok(BudgetMeasurement::Unknown)
        } else {
            Err(BudgetMeasurementError::InvalidQuality)
        },
    }
}

pub open spec fn wire_view(value: Option<WireBudgetMeasurement>) -> Option<(Seq<char>, Option<u64>)> {
    match value {
        None => None,
        Some(w) => Some((w.quality@, w.amount)),
    }
}

/// The wire form of a measurement.
pub open spec fn measurement_wire(m: BudgetMeasurement) -> (Seq<char>, Option<u64>) {
    match m {
        BudgetMeasurement::Observed(a) => ("observed"@, Some(a)),
        BudgetMeasurement::Estimated(a) => ("estimated"@, Some(a)),
        BudgetMeasurement::Unknown => ("unknown"@, None),
    }
}

/// Reads a wire measurement.
pub fn measurement_from_wire(value: Option<WireBudgetMeasurement>) -> (r: Result<BudgetMeasurement, BudgetMeasurementError>)
    ensures
        r == measurement_reading(wire_view(value)),
{
    let value = match value {
        None => return Ok(BudgetMeasurement::Unknown),
        Some(v) => v,
    };
    if str_eq(value.quality.as_str(), "observed") {
        match value.amount {
            Some(a) => Ok(BudgetMeasurement::Observed(a)),
            None => Err(BudgetMeasurementError::MissingAmount),
        }
    } else if str_eq(value.quality.as_str(), "estimated") {
        match value.amount {
            Some(a) => Ok(BudgetMeasurement::Estimated(a)),
            None => Err(BudgetMeasurementError::MissingAmount),
        }
    } else if str_eq(value.quality.as_str(), "unknown") && (value.amount.is_none() || value.amount == Some(0u64)) {
        Ok(BudgetMeasurement::Unknown)
    } else {
        Err(BudgetMeasurementError::InvalidQuality)
    }
}

/// Writes a measurement: its quality word, and its amount when it has one.
pub fn measurement_to_wire(m: BudgetMeasurement) -> (w: WireBudgetMeasurement)
    ensures
        (w.quality@, w.amount) == measurement_wire(m),
{
    match m {
        BudgetMeasurement::Observed(a) => WireBudgetMeasurement { quality: "observed".to_owned(), amount: Some(a) },
        BudgetMeasurement::Estimated(a) => WireBudgetMeasurement { quality: "estimated".to_owned(), amount: Some(a) },
        BudgetMeasurement::Unknown => WireBudgetMeasurement { quality: "unknown".to_owned(), amount: None },
    }
}

/// Reading back what was written gives the measurement that was written.
pub proof fn law_measurement_round_trip(m: BudgetMeasurement)
    ensures
        measurement_reading(Some(measurement_wire(m))) == Ok::<BudgetMeasurement, BudgetMeasurementError>(m),
{
    reveal_strlit("observed");
    reveal_strlit("estimated");
    reveal_strlit("unknown");
    assert("observed"@.len() == 8);
    assert("estimated"@.len() == 9);
    assert("unknown"@.len() == 7);
    assert("observed"@ != "estimated"@);
    assert("observed"@ != "unknown"@);
    assert("estimated"@ != "unknown"@);
}

} // verus!
