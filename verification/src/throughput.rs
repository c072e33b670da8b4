//! Transactions per second as an exact ratio over a positive time window,
//! and its rendering with two decimal places.

use crate::text::{decimal_digits, digit_char, push_char, push_decimal, push_digit};
use vstd::prelude::*;

verus! {

/// The unit in which a chain reports its timestamps.
#[derive(Debug, Clone, Copy, PartialEq, Eq, Structural)]
pub enum TimeUnit {
    Microseconds,
    Milliseconds,
}

impl TimeUnit {
    /// How many of the unit make one second.
    pub open spec fn per_second(self) -> nat {
        match self {
            TimeUnit::Microseconds => 1_000_000,
            TimeUnit::Milliseconds => 1_000,
        }
    }

    /// How many of the unit make one second.
    pub fn ticks_per_second(&self) -> (ticks: u64)
        ensures
            ticks == self.per_second(),
    {
        match self {
            TimeUnit::Microseconds => 1_000_000,
            TimeUnit::Milliseconds => 1_000,
        }
    }
}

/// The quotient of two naturals rounded to the nearest natural; a quotient
/// that lies exactly between two naturals goes to the even one.
pub open spec fn round_half_even(numerator: nat, denominator: nat) -> nat
    recommends
        denominator > 0,
{
    let quotient = numerator / denominator;
    let remainder = numerator % denominator;
    if 2 * remainder < denominator {
        quotient
    } else if 2 * remainder > denominator {
        quotient + 1
    } else if quotient % 2 == 0 {
        quotient
    } else {
        quotient + 1
    }
}

/// The rounded quotient is never further than one half from the exact
/// quotient.
pub proof fn lemma_round_half_even_is_nearest(numerator: nat, denominator: nat)
    requires
        denominator > 0,
    ensures
        2 * (round_half_even(numerator, denominator) * denominator - numerator) <= denominator,
        2 * (numerator - round_half_even(numerator, denominator) * denominator) <= denominator,
{
    let quotient = numerator / denominator;
    let remainder = numerator % denominator;
    assert(numerator == quotient * denominator + remainder && remainder < denominator) by {
        vstd::arithmetic::div_mod::lemma_fundamental_div_mod(
            numerator as int,
            denominator as int,
        );
        vstd::arithmetic::div_mod::lemma_mod_bound(numerator as int, denominator as int);
    }
    assert((quotient + 1) * denominator == quotient * denominator + denominator)
        by (nonlinear_arith);
}

/// A count of hundredths written as a decimal number with exactly two
/// fractional digits, such as `37.00`.
pub open spec fn fixed_two(hundredths: nat) -> Seq<char> {
    decimal_digits(hundredths / 100) + seq![
        '.',
        digit_char((hundredths % 100) / 10),
        digit_char(hundredths % 10),
    ]
}

/// The mathematical content of a throughput: so many transactions in so
/// many units of time.
pub struct Rate {
    pub transactions: nat,
    pub elapsed: nat,
    pub unit: TimeUnit,
}

impl Rate {
    /// Hundredths of a transaction per second, rounded half to even.
    pub open spec fn hundredths(self) -> nat
        recommends
            self.elapsed > 0,
    {
        round_half_even(self.transactions * self.unit.per_second() * 100, self.elapsed)
    }

    /// The rate in transactions per second with two decimal places.
    pub open spec fn rendered(self) -> Seq<char>
        recommends
            self.elapsed > 0,
    {
        fixed_two(self.hundredths())
    }
}

/// A throughput estimate: a number of transactions over a window of time
/// that is always longer than zero.
#[derive(Debug, Clone, Copy, PartialEq)]
pub struct Throughput {
    transactions: u64,
    elapsed: u64,
    unit: TimeUnit,
}

impl View for Throughput {
    type V = Rate;

    closed spec fn view(&self) -> Rate {
        Rate {
            transactions: self.transactions as nat,
            elapsed: self.elapsed as nat,
            unit: self.unit,
        }
    }
}

impl Throughput {
    #[verifier::type_invariant]
    spec fn window_is_positive(self) -> bool {
        self.elapsed > 0
    }

    /// The throughput of `transactions` over `elapsed` units of time, or
    /// nothing where no time has elapsed.
    pub fn over(transactions: u64, elapsed: u64, unit: TimeUnit) -> (throughput: Option<Throughput>)
        ensures
            throughput is Some <==> elapsed > 0,
            throughput matches Some(t) ==> t@ == (Rate {
                transactions: transactions as nat,
                elapsed: elapsed as nat,
                unit,
            }),
    {
        if elapsed > 0 {
            Some(Throughput { transactions, elapsed, unit })
        } else {
            None
        }
    }

    /// The number of transactions counted.
    pub fn transactions(&self) -> (count: u64)
        ensures
            count == self@.transactions,
    {
        self.transactions
    }

    /// The length of the window, in the throughput's unit; never zero.
    pub fn elapsed(&self) -> (ticks: u64)
        ensures
            ticks == self@.elapsed,
            ticks > 0,
    {
        proof {
            use_type_invariant(self);
        }
        self.elapsed
    }

    /// The unit of the window's length.
    pub fn unit(&self) -> (unit: TimeUnit)
        ensures
            unit == self@.unit,
    {
        self.unit
    }

    /// Hundredths of a transaction per second, rounded half to even.
    pub fn hundredths(&self) -> (count: u128)
        ensures
            count == self@.hundredths(),
    {
        proof {
            use_type_invariant(self);
        }
        let ticks: u64 = self.unit.ticks_per_second();
        let per_second: u128 = ticks as u128 * 100;
        assert(self.transactions as u128 * per_second <= 0xffff_ffff_ffff_ffff * 100_000_000)
            by (nonlinear_arith)
            requires
                self.transactions <= 0xffff_ffff_ffff_ffff,
                per_second <= 100_000_000,
        ;
        let numerator: u128 = self.transactions as u128 * per_second;
        assert(numerator == self@.transactions * self@.unit.per_second() * 100)
            by (nonlinear_arith)
            requires
                numerator == self.transactions as u128 * per_second,
                per_second == ticks as u128 * 100,
                ticks == self@.unit.per_second(),
                self.transactions == self@.transactions,
        ;
        let denominator: u128 = self.elapsed as u128;
        let quotient: u128 = numerator / denominator;
        let remainder: u128 = numerator % denominator;
        if 2 * remainder < denominator {
            quotient
        } else if 2 * remainder > denominator {
            quotient + 1
        } else if quotient % 2 == 0 {
            quotient
        } else {
            quotient + 1
        }
    }

    /// The rate in transactions per second with two decimal places.
    pub fn render(&self) -> (text: String)
        ensures
            text@ == self@.rendered(),
    {
        let hundredths: u128 = self.hundredths();
        let mut out = String::new();
        push_decimal(&mut out, hundredths / 100);
        push_char(&mut out, '.');
        push_digit(&mut out, ((hundredths % 100) / 10) as u8);
        push_digit(&mut out, (hundredths % 10) as u8);
        out
    }
}

/// Why an estimator has no rate to report.
#[derive(Debug, Clone, Copy, PartialEq, Eq, Structural)]
pub enum Degradation {
    /// An upstream call failed, or its body did not have the expected shape.
    Unavailable,
    /// A numeric or time field could not be read.
    UnreadableField,
    /// The latest index is smaller than the distance to the reference unit.
    IndexTooSmall,
    /// The latest sample is not later than the reference sample.
    NoElapsedTime,
    /// A cumulative counter is smaller at the latest sample than at the
    /// reference sample.
    CounterWentBack,
}

/// What an estimator reports: a rate, or the reason why there is none.
#[derive(Debug, Clone, Copy, PartialEq)]
pub enum Estimate {
    Rate(Throughput),
    Degraded(Degradation),
}

/// The mathematical content of an estimate.
pub enum Outcome {
    Rate(Rate),
    Degraded(Degradation),
}

impl View for Estimate {
    type V = Outcome;

    open spec fn view(&self) -> Outcome {
        match *self {
            Estimate::Rate(throughput) => Outcome::Rate(throughput@),
            Estimate::Degraded(reason) => Outcome::Degraded(reason),
        }
    }
}

impl Outcome {
    /// The text that a snapshot shows for this outcome: the rendered rate,
    /// or nothing where the estimate is degraded.
    pub open spec fn shown(self) -> Option<Seq<char>> {
        match self {
            Outcome::Rate(rate) => Some(rate.rendered()),
            Outcome::Degraded(_) => None,
        }
    }
}

impl Estimate {
    /// The estimate for `transactions` over `elapsed` units of time: a rate
    /// where time has elapsed, and a degraded estimate where none has.
    pub fn over(transactions: u64, elapsed: u64, unit: TimeUnit) -> (estimate: Estimate)
        ensures
            estimate@ == window_outcome(transactions as nat, elapsed as nat, unit),
    {
        match Throughput::over(transactions, elapsed, unit) {
            Some(throughput) => Estimate::Rate(throughput),
            None => Estimate::Degraded(Degradation::NoElapsedTime),
        }
    }

    /// The text that a snapshot shows for this estimate.
    pub fn shown(&self) -> (text: Option<String>)
        ensures
            text is Some <==> self@.shown() is Some,
            text matches Some(t) ==> Some(t@) == self@.shown(),
    {
        match self {
            Estimate::Rate(throughput) => Some(throughput.render()),
            Estimate::Degraded(_) => None,
        }
    }
}

/// The outcome for a window of `elapsed` units of time in which
/// `transactions` were counted.
pub open spec fn window_outcome(transactions: nat, elapsed: nat, unit: TimeUnit) -> Outcome {
    if elapsed > 0 {
        Outcome::Rate(Rate { transactions, elapsed, unit })
    } else {
        Outcome::Degraded(Degradation::NoElapsedTime)
    }
}

} // verus!
