//! Fixed-precision amounts in their base units.

use vstd::prelude::*;

verus! {

/// A Bitcoin amount, counted in satoshi.
#[derive(Clone, Copy, Debug, PartialEq, Eq, Structural)]
pub struct BitcoinAmount {
    pub sat: u64,
}

impl BitcoinAmount {
    /// The amount of `sat` satoshi.
    pub fn from_sat(sat: u64) -> (amount: Self)
        ensures
            amount.sat == sat,
    {
        BitcoinAmount { sat }
    }

    /// The amount in satoshi.
    pub fn as_sat(&self) -> (sat: u64)
        ensures
            sat == self.sat,
    {
        self.sat
    }
}

/// A Monero amount, counted in piconero.
#[derive(Clone, Copy, Debug, PartialEq, Eq, Structural)]
pub struct MoneroAmount {
    pub piconero: u64,
}

impl MoneroAmount {
    /// The amount of `piconero` piconero.
    pub fn from_piconero(piconero: u64) -> (amount: Self)
        ensures
            amount.piconero == piconero,
    {
        MoneroAmount { piconero }
    }

    /// The amount in piconero.
    pub fn as_piconero(&self) -> (piconero: u64)
        ensures
            piconero == self.piconero,
    {
        self.piconero
    }

    /// The sum of two amounts, or `None` where it does not fit the base unit's range.
    pub fn checked_add(self, other: MoneroAmount) -> (sum: Option<MoneroAmount>)
        ensures
            self.piconero + other.piconero <= u64::MAX ==> sum == Some(
                (MoneroAmount { piconero: (self.piconero + other.piconero) as u64 }),
            ),
            self.piconero + other.piconero > u64::MAX ==> sum.is_none(),
    {
        if self.piconero <= u64::MAX - other.piconero {
            Some(MoneroAmount { piconero: self.piconero + other.piconero })
        } else {
            None
        }
    }
}

} // verus!
