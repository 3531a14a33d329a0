//! Error taxonomy of the adapter.
//!
//! Every fallible operation reports a typed error; no verified function
//! of this crate panics on malformed input.

use vstd::prelude::*;

verus! {

/// Failure of the fixed-point arithmetic: the exact result cannot be
/// represented, or a narrowing conversion falls outside its range.
#[derive(Clone, Copy, Debug, PartialEq, Eq, Structural)]
pub enum ArithmeticError {
    /// The exact result does not fit in the 128-bit backing integer.
    Overflow,
    /// A ratio was requested with a zero denominator.
    DivisionByZero,
    /// A narrowing conversion was requested for a value outside `[0, 2^64)`.
    OutOfRange,
}

/// Failure while decoding the pool account buffer.
#[derive(Clone, Copy, Debug, PartialEq, Eq, Structural)]
pub enum DecodeError {
    /// The buffer is not exactly the fixed pool-account length.
    Truncated,
    /// The leading 8-byte tag does not identify a pool account.
    WrongDiscriminator,
}

/// Failure while rebuilding a snapshot from freshly fetched accounts.
#[derive(Clone, Copy, Debug, PartialEq, Eq, Structural)]
pub enum RefreshError {
    /// A required account is absent from the supplied batch.
    MissingAccount,
    /// The pool account bytes do not decode.
    Pool(DecodeError),
    /// A vault token-account buffer does not unpack.
    MalformedTokenAccount,
    /// The clock account buffer does not deserialize.
    MalformedClock,
}

/// Rejection reported by a direction-specific swap simulation.
#[derive(Clone, Copy, Debug, PartialEq, Eq, Structural)]
pub enum SimulationError {
    /// The pool cannot cover the requested trade.
    InsufficientLiquidity,
    /// The simulation's arithmetic failed.
    Arithmetic(ArithmeticError),
}

/// Failure while computing a quote.
#[derive(Clone, Copy, Debug, PartialEq, Eq, Structural)]
pub enum QuoteError {
    /// The input mint matches neither side of the pool.
    UnknownInputMint,
    /// The simulation rejected the trade.
    Simulation(SimulationError),
}

/// Failure while building an instruction.
#[derive(Clone, Copy, Debug, PartialEq, Eq, Structural)]
pub enum EncodeError {
    /// No derived address exists for the required seeds.
    DerivationFailed,
}

} // verus!
