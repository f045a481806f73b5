use crate::err::VestingError;
use vstd::prelude::*;

verus! {

/// The length of one vesting period.
#[derive(Clone, Copy, Debug, PartialEq, Eq, Structural, Hash)]
pub enum PeriodType {
    Daily,
    Monthly,
    Quarterly,
    SemiAnnually,
    Yearly,
}

impl PeriodType {
    /// The period type that a number stands for, counting from one in the
    /// order of the variants.
    pub open spec fn spec_from_u32(value: u32) -> Option<PeriodType> {
        if value == 1 {
            Some(PeriodType::Daily)
        } else if value == 2 {
            Some(PeriodType::Monthly)
        } else if value == 3 {
            Some(PeriodType::Quarterly)
        } else if value == 4 {
            Some(PeriodType::SemiAnnually)
        } else if value == 5 {
            Some(PeriodType::Yearly)
        } else {
            None
        }
    }

    /// Reads a period type from its number; any other number is `UnknownPeriodType`.
    pub fn from_u32(value: u32) -> (period_type: Result<PeriodType, VestingError>)
        ensures
            period_type == match PeriodType::spec_from_u32(value) {
                Some(known) => Ok::<PeriodType, VestingError>(known),
                None => Err::<PeriodType, VestingError>(VestingError::UnknownPeriodType),
            },
    {
        match value {
            1 => Ok(PeriodType::Daily),
            2 => Ok(PeriodType::Monthly),
            3 => Ok(PeriodType::Quarterly),
            4 => Ok(PeriodType::SemiAnnually),
            5 => Ok(PeriodType::Yearly),
            _ => Err(VestingError::UnknownPeriodType),
        }
    }

    /// The number that stands for this period type.
    pub fn to_u32(self) -> (value: u32)
        ensures
            PeriodType::spec_from_u32(value) == Some(self),
    {
        match self {
            PeriodType::Daily => 1,
            PeriodType::Monthly => 2,
            PeriodType::Quarterly => 3,
            PeriodType::SemiAnnually => 4,
            PeriodType::Yearly => 5,
        }
    }

    /// Vested amounts are computed for daily and monthly periods only.
    pub open spec fn spec_is_supported(self) -> bool {
        self == PeriodType::Daily || self == PeriodType::Monthly
    }

    #[verifier::when_used_as_spec(spec_is_supported)]
    pub fn is_supported(self) -> (supported: bool)
        ensures
            supported == self.spec_is_supported(),
    {
        match self {
            PeriodType::Daily | PeriodType::Monthly => true,
            _ => false,
        }
    }
}

} // verus!
