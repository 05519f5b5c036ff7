//! The checks made, in order, before a new charge joins the configuration.
use vstd::prelude::*;
use crate::tuple_text::TupleError;

verus! {

/// Why a new charge was refused.
#[derive(Clone, Copy, Debug, PartialEq, Eq, Structural)]
pub enum ChargeInputError {
    /// The charge's value is not a number.
    ValueNotNumber,
    /// The charge's position could not be read.
    Position(TupleError),
    /// A charge already stands at that position.
    PositionNotUnique,
}

impl ChargeInputError {
    /// The text shown to the user for this error.
    pub fn message(&self) -> (r: &'static str)
        ensures
            r@ == self.spec_message(),
    {
        proof {
            reveal_strlit("Charge value is not a number");
            reveal_strlit("Position is not unique");
        }
        match self {
            ChargeInputError::ValueNotNumber => "Charge value is not a number",
            ChargeInputError::Position(e) => e.message(),
            ChargeInputError::PositionNotUnique => "Position is not unique",
        }
    }

    pub open spec fn spec_message(&self) -> Seq<char> {
        match self {
            ChargeInputError::ValueNotNumber => "Charge value is not a number"@,
            ChargeInputError::Position(e) => e.spec_message(),
            ChargeInputError::PositionNotUnique => "Position is not unique"@,
        }
    }
}

/// Decides whether a charge may be added, from what was found of its input:
/// whether its value reads as a number, how reading its position went, and
/// whether that position is free. The value is checked first, then the
/// position, then its uniqueness.
pub fn check_new_charge(value_is_number: bool, position: Result<(), TupleError>, unique: bool) -> (r:
    Result<(), ChargeInputError>)
    ensures
        !value_is_number ==> r == Err::<(), ChargeInputError>(ChargeInputError::ValueNotNumber),
        value_is_number ==> match position {
            Err(e) => r == Err::<(), ChargeInputError>(ChargeInputError::Position(e)),
            Ok(()) => if unique {
                r == Ok::<(), ChargeInputError>(())
            } else {
                r == Err::<(), ChargeInputError>(ChargeInputError::PositionNotUnique)
            },
        },
{
    if !value_is_number {
        Err(ChargeInputError::ValueNotNumber)
    } else {
        match position {
            Err(e) => Err(ChargeInputError::Position(e)),
            Ok(()) => {
                if unique {
                    Ok(())
                } else {
                    Err(ChargeInputError::PositionNotUnique)
                }
            },
        }
    }
}

} // verus!
