//! Amounts of money, in zatoshis.

use vstd::prelude::*;

verus! {

/// The largest amount of zatoshis that can ever exist: 21 million coins of
/// 100 million zatoshis each.
pub const MAX_MONEY: u64 = 2_100_000_000_000_000;

/// A value that no `Amount` can hold.
#[derive(Clone, Copy, Debug, PartialEq, Eq)]
pub struct AmountOutOfRange {
    pub value: u64,
}

/// A non-negative amount of zatoshis, at most `MAX_MONEY`.
#[derive(Clone, Copy, Debug, PartialEq, Eq)]
pub struct Amount {
    zatoshis: u64,
}

impl View for Amount {
    type V = nat;

    closed spec fn view(&self) -> nat {
        self.zatoshis as nat
    }
}

impl Amount {
    #[verifier::type_invariant]
    spec fn in_range(self) -> bool {
        self.zatoshis <= MAX_MONEY
    }

    /// Whether `value` is an amount that can be held.
    pub open spec fn representable(value: u64) -> bool {
        value <= MAX_MONEY
    }

    /// The amount of `value` zatoshis, if there can be so many.
    pub fn from_u64(value: u64) -> (made: Result<Amount, AmountOutOfRange>)
        ensures
            Self::representable(value) ==> made is Ok && made.unwrap()@ == value,
            !Self::representable(value) ==> made == Err::<Amount, AmountOutOfRange>(
                AmountOutOfRange { value },
            ),
    {
        if value <= MAX_MONEY {
            Ok(Amount { zatoshis: value })
        } else {
            Err(AmountOutOfRange { value })
        }
    }

    pub fn to_u64(&self) -> (value: u64)
        ensures
            value == self@,
            Self::representable(value),
    {
        proof {
            use_type_invariant(self);
        }
        self.zatoshis
    }
}

} // verus!
