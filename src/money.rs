//! The shop's balance: a signed amount of dollars, which may go negative.

use vstd::prelude::*;

verus! {

/// The decimal digits of a natural number, most significant first.
pub open spec fn decimal_digits(n: nat) -> Seq<char>
    decreases n,
{
    let d = ((n % 10) as u8 + 48u8) as char;
    if n < 10 {
        seq![d]
    } else {
        decimal_digits(n / 10).push(d)
    }
}

/// An integer in decimal, with a leading minus sign when it is negative.
pub open spec fn int_chars(x: int) -> Seq<char> {
    if x < 0 {
        seq!['-'] + decimal_digits((-x) as nat)
    } else {
        decimal_digits(x as nat)
    }
}

/// How a balance is written: a dollar sign, then the amount in decimal.
pub open spec fn money_chars(x: int) -> Seq<char> {
    seq!['$'] + int_chars(x)
}

/// The value that saturating arithmetic on `i32` gives for the exact result.
pub open spec fn clamp_i32(x: int) -> i32 {
    if x > i32::MAX {
        i32::MAX
    } else if x < i32::MIN {
        i32::MIN
    } else {
        x as i32
    }
}

/// Relies on the `Display` of `i32` (through `format!`): the value in
/// decimal, with a leading `-` when it is negative.
#[verifier::external_body]
pub(crate) fn decimal(x: i32) -> (r: String)
    ensures
        r@ == int_chars(x as int),
{
    format!("{}", x)
}

#[derive(Clone, Copy, Debug, PartialEq, Eq, Structural)]
pub struct Money(pub i32);

impl Money {
    pub open spec fn spec_value(self) -> int {
        self.0 as int
    }

    pub fn new(x: i32) -> (m: Money)
        ensures
            m.spec_value() == x,
    {
        Money(x)
    }

    pub fn value(&self) -> (r: i32)
        ensures
            r as int == self.spec_value(),
    {
        self.0
    }

    /// Adds `rhs`; the balance saturates at the bounds of `i32`.
    pub fn add_assign(&mut self, rhs: Money)
        ensures
            final(self).spec_value() == clamp_i32(old(self).spec_value() + rhs.spec_value()),
    {
        let s: i64 = self.0 as i64 + rhs.0 as i64;
        self.0 = if s > i32::MAX as i64 {
            i32::MAX
        } else if s < i32::MIN as i64 {
            i32::MIN
        } else {
            s as i32
        };
    }

    /// Subtracts `rhs`; the balance saturates at the bounds of `i32`.
    pub fn sub_assign(&mut self, rhs: Money)
        ensures
            final(self).spec_value() == clamp_i32(old(self).spec_value() - rhs.spec_value()),
    {
        let s: i64 = self.0 as i64 - rhs.0 as i64;
        self.0 = if s > i32::MAX as i64 {
            i32::MAX
        } else if s < i32::MIN as i64 {
            i32::MIN
        } else {
            s as i32
        };
    }

    /// The balance as shown to the player, e.g. `$1000` or `$-250`.
    pub fn text(&self) -> (r: String)
        ensures
            r@ == money_chars(self.spec_value()),
    {
        let mut r = String::from_str("$");
        let digits = decimal(self.0);
        r.append(digits.as_str());
        proof {
            reveal_strlit("$");
        }
        r
    }
}

} // verus!
