//! Lower- and upper-limit validators: a saturating one that clamps, and a
//! strict one that rejects.

use vstd::prelude::*;
use vstd::string::StringExecFns;

use crate::validator::{ValidationError, Validator};

verus! {

/// A saturating bounds validator: a value below the lower limit becomes the
/// lower limit, one above the upper limit becomes the upper limit, and
/// nothing is ever rejected. The lower limit is applied first.
#[derive(Debug, Clone, PartialEq, Eq, Hash)]
pub struct SatMinMaxValidator<T> {
    /// Lower limit boundary.
    pub min: Option<T>,
    /// Upper limit boundary.
    pub max: Option<T>,
}

/// What saturating `val` to the limits `min` and `max` yields, lower limit
/// first.
pub open spec fn saturated(min: Option<u64>, max: Option<u64>, val: u64) -> u64 {
    if min is Some && val < min->0 {
        min->0
    } else if max is Some && val > max->0 {
        max->0
    } else {
        val
    }
}

impl Validator<u8> for SatMinMaxValidator<u8> {
    open spec fn validate_spec(self, val: u8) -> Result<u8, Seq<char>> {
        Ok(
            (saturated(
                match self.min {
                    Some(lo) => Some(lo as u64),
                    None => None,
                },
                match self.max {
                    Some(hi) => Some(hi as u64),
                    None => None,
                },
                val as u64,
            ) as u8),
        )
    }

    open spec fn description_spec(&self) -> Option<Seq<char>> {
        None
    }

    fn validate(self, val: u8) -> (r: Result<u8, ValidationError>) {
        match self.min {
            Some(lo) if val < lo => {
                return Ok(lo);
            },
            _ => {},
        }
        match self.max {
            Some(hi) if val > hi => {
                return Ok(hi);
            },
            _ => {},
        }
        Ok(val)
    }

    fn description(&self) -> (r: Option<String>) {
        None
    }
}

impl Validator<u64> for SatMinMaxValidator<u64> {
    open spec fn validate_spec(self, val: u64) -> Result<u64, Seq<char>> {
        Ok(saturated(self.min, self.max, val))
    }

    open spec fn description_spec(&self) -> Option<Seq<char>> {
        None
    }

    fn validate(self, val: u64) -> (r: Result<u64, ValidationError>) {
        match self.min {
            Some(lo) if val < lo => {
                return Ok(lo);
            },
            _ => {},
        }
        match self.max {
            Some(hi) if val > hi => {
                return Ok(hi);
            },
            _ => {},
        }
        Ok(val)
    }

    fn description(&self) -> (r: Option<String>) {
        None
    }
}

/// A strict bounds validator: a value below the lower limit or above the
/// upper limit is rejected. The lower limit is checked first.
#[derive(Debug, Clone, PartialEq, Eq, Hash)]
pub struct StrictMinMaxValidator<T> {
    /// Lower limit boundary.
    pub min: Option<T>,
    /// Upper limit boundary.
    pub max: Option<T>,
}

/// The rejection message, if any, for `val` against the limits `min` and
/// `max`, lower limit checked first.
pub open spec fn bounds_error(min: Option<u64>, max: Option<u64>, val: u64) -> Option<Seq<char>> {
    if min is Some && val < min->0 {
        Some("value below the lower limit"@)
    } else if max is Some && val > max->0 {
        Some("value above the upper limit"@)
    } else {
        None
    }
}

impl Validator<u8> for StrictMinMaxValidator<u8> {
    open spec fn validate_spec(self, val: u8) -> Result<u8, Seq<char>> {
        match bounds_error(
            match self.min {
                Some(lo) => Some(lo as u64),
                None => None,
            },
            match self.max {
                Some(hi) => Some(hi as u64),
                None => None,
            },
            val as u64,
        ) {
            Some(m) => Err(m),
            None => Ok(val),
        }
    }

    open spec fn description_spec(&self) -> Option<Seq<char>> {
        Some("value must lie within the configured limits"@)
    }

    fn validate(self, val: u8) -> (r: Result<u8, ValidationError>) {
        match self.min {
            Some(lo) if val < lo => {
                return Err(ValidationError::new(String::from_str("value below the lower limit")));
            },
            _ => {},
        }
        match self.max {
            Some(hi) if val > hi => {
                return Err(ValidationError::new(String::from_str("value above the upper limit")));
            },
            _ => {},
        }
        Ok(val)
    }

    fn description(&self) -> (r: Option<String>) {
        Some(String::from_str("value must lie within the configured limits"))
    }
}

impl Validator<u64> for StrictMinMaxValidator<u64> {
    open spec fn validate_spec(self, val: u64) -> Result<u64, Seq<char>> {
        match bounds_error(self.min, self.max, val) {
            Some(m) => Err(m),
            None => Ok(val),
        }
    }

    open spec fn description_spec(&self) -> Option<Seq<char>> {
        Some("value must lie within the configured limits"@)
    }

    fn validate(self, val: u64) -> (r: Result<u64, ValidationError>) {
        match self.min {
            Some(lo) if val < lo => {
                return Err(ValidationError::new(String::from_str("value below the lower limit")));
            },
            _ => {},
        }
        match self.max {
            Some(hi) if val > hi => {
                return Err(ValidationError::new(String::from_str("value above the upper limit")));
            },
            _ => {},
        }
        Ok(val)
    }

    fn description(&self) -> (r: Option<String>) {
        Some(String::from_str("value must lie within the configured limits"))
    }
}

} // verus!
