//! The quoting bridge: from a snapshot and a trade to an output amount.
//!
//! The trade direction is chosen by comparing the trade's input mint
//! with the snapshot's two mint addresses.  The amount itself comes
//! from a direction-specific simulation supplied by the caller; the
//! bridge always hands it the snapshot's observed slot, never a clock
//! value of its own, so a quote is reproducible from a snapshot alone.

use vstd::prelude::*;
use crate::addr::Address;
use crate::errors::{ArithmeticError, QuoteError, SimulationError};
use crate::fixed::{
    in_bits_range, spec_from_fraction, spec_from_num, spec_mul_bits, I80F48, FRAC_ONE,
};
use crate::snapshot::{spec_refresh, AccountEntry, PoolSnapshot, PoolSnapshotModel};

verus! {

/// A trade direction relative to the base token.
#[derive(Clone, Copy, Debug, PartialEq, Eq, Structural)]
pub enum Side {
    /// Buy the base token with the quote token.
    Buy,
    /// Sell the base token for the quote token.
    Sell,
}

/// A computed quote: the echoed input amount and the simulated output
/// amount.
#[derive(Clone, Copy, Debug, PartialEq, Eq, Structural)]
pub struct QuoteResult {
    /// The direction that was simulated.
    pub side: Side,
    /// The input amount, echoed back.
    pub in_amount: u64,
    /// The transferable output amount.
    pub out_amount: u64,
}

/// A direction-specific, slot-aware swap simulation.
///
/// The pool program's own swap arithmetic is outside this adapter; the
/// aggregator injects an implementation of this trait.  An implementor
/// states its result as a specification function and must prove that
/// the executable methods meet it.
pub trait SwapSimulator {
    /// The result of simulating a buy of the base token.
    spec fn buy_spec(&self, slot: u64, amount_in: u64) -> Result<u64, SimulationError>;

    /// The result of simulating a sale of the base token.
    spec fn sell_spec(&self, slot: u64, amount_in: u64) -> Result<u64, SimulationError>;

    /// Simulates buying the base token with `amount_in` quote tokens at
    /// the given slot.
    fn simulate_buy(&self, slot: u64, amount_in: u64) -> (r: Result<u64, SimulationError>)
        ensures
            r == self.buy_spec(slot, amount_in),
    ;

    /// Simulates selling `amount_in` base tokens for quote tokens at
    /// the given slot.
    fn simulate_sell(&self, slot: u64, amount_in: u64) -> (r: Result<u64, SimulationError>)
        ensures
            r == self.sell_spec(slot, amount_in),
    ;
}

/// The quote for the given snapshot, simulation, input mint and input
/// amount: an input mint equal to the quote mint buys the base token,
/// one equal to the base mint sells it, any other mint is rejected; the
/// simulation always receives the snapshot's observed slot.
pub open spec fn spec_quote<S: SwapSimulator>(
    snap: PoolSnapshotModel,
    sim: S,
    input_mint: Seq<u8>,
    amount_in: u64,
) -> Result<QuoteResult, QuoteError> {
    if snap.header.quote_params.mint_key == input_mint {
        match sim.buy_spec(snap.observed_slot, amount_in) {
            Ok(out) => Ok(QuoteResult { side: Side::Buy, in_amount: amount_in, out_amount: out }),
            Err(e) => Err(QuoteError::Simulation(e)),
        }
    } else if snap.header.base_params.mint_key == input_mint {
        match sim.sell_spec(snap.observed_slot, amount_in) {
            Ok(out) => Ok(QuoteResult { side: Side::Sell, in_amount: amount_in, out_amount: out }),
            Err(e) => Err(QuoteError::Simulation(e)),
        }
    } else {
        Err(QuoteError::UnknownInputMint)
    }
}

/// Computes a quote against a snapshot.
pub fn quote<S: SwapSimulator>(
    snapshot: &PoolSnapshot,
    sim: &S,
    input_mint: &Address,
    amount_in: u64,
) -> (r: Result<QuoteResult, QuoteError>)
    ensures
        r == spec_quote(snapshot@, *sim, input_mint@, amount_in),
{
    if snapshot.header.quote_params.mint_key.equals(input_mint) {
        match sim.simulate_buy(snapshot.observed_slot, amount_in) {
            Ok(out) => Ok(QuoteResult { side: Side::Buy, in_amount: amount_in, out_amount: out }),
            Err(e) => Err(QuoteError::Simulation(e)),
        }
    } else if snapshot.header.base_params.mint_key.equals(input_mint) {
        match sim.simulate_sell(snapshot.observed_slot, amount_in) {
            Ok(out) => Ok(QuoteResult { side: Side::Sell, in_amount: amount_in, out_amount: out }),
            Err(e) => Err(QuoteError::Simulation(e)),
        }
    } else {
        Err(QuoteError::UnknownInputMint)
    }
}

/// How the direction is chosen: the quote mint buys, the base mint
/// sells, any third mint fails, and a successful quote echoes its
/// input amount.
pub proof fn lemma_quote_direction<S: SwapSimulator>(
    snap: PoolSnapshotModel,
    sim: S,
    input_mint: Seq<u8>,
    amount_in: u64,
)
    ensures
        snap.header.quote_params.mint_key == input_mint ==> (spec_quote(
            snap,
            sim,
            input_mint,
            amount_in,
        ) matches Ok(q) ==> q.side == Side::Buy),
        snap.header.quote_params.mint_key != input_mint && snap.header.base_params.mint_key
            == input_mint ==> (spec_quote(snap, sim, input_mint, amount_in) matches Ok(q)
            ==> q.side == Side::Sell),
        snap.header.quote_params.mint_key != input_mint && snap.header.base_params.mint_key
            != input_mint ==> spec_quote(snap, sim, input_mint, amount_in) == Err::<
            QuoteResult,
            QuoteError,
        >(QuoteError::UnknownInputMint),
        spec_quote(snap, sim, input_mint, amount_in) matches Ok(q) ==> q.in_amount == amount_in,
{
}

/// Quotes are reproducible: refreshing twice from batches that carry
/// the same bytes yields the same refresh outcome, and on success the
/// same quote for the same trade.
pub proof fn lemma_quote_reproducible<S: SwapSimulator>(
    pool_key: Seq<u8>,
    clock_key: Seq<u8>,
    e1: Seq<AccountEntry>,
    e2: Seq<AccountEntry>,
    sim: S,
    input_mint: Seq<u8>,
    amount_in: u64,
)
    requires
        crate::snapshot::entries_agree(e1, e2),
    ensures
        spec_refresh(pool_key, clock_key, e1) == spec_refresh(pool_key, clock_key, e2),
        spec_refresh(pool_key, clock_key, e1) matches Ok(s) ==> spec_quote(
            s,
            sim,
            input_mint,
            amount_in,
        ) == spec_quote(
            spec_refresh(pool_key, clock_key, e2)->Ok_0,
            sim,
            input_mint,
            amount_in,
        ),
{
    crate::snapshot::lemma_refresh_deterministic(pool_key, clock_key, e1, e2);
}

/// A simulation that pays out at a fixed rate, ignoring the slot: the
/// output is `floor(amount_in * numerator / denominator)`, computed in
/// fixed point.  It exercises the quoting bridge without the pool
/// program's own arithmetic.
#[derive(Clone, Copy, Debug)]
pub struct LinearRateSimulator {
    /// Numerator of the payout rate.
    pub rate_numerator: u64,
    /// Denominator of the payout rate.
    pub rate_denominator: u64,
}

/// The payout of [`LinearRateSimulator`]: `amount_in` widened to fixed
/// point, multiplied by `numerator / denominator`, floored back to an
/// unsigned 64-bit integer; each arithmetic failure is reported.
pub open spec fn spec_linear_out(num: u64, den: u64, amount_in: u64) -> Result<
    u64,
    SimulationError,
> {
    if den == 0 {
        Err(SimulationError::Arithmetic(ArithmeticError::DivisionByZero))
    } else {
        let product = spec_mul_bits(spec_from_num(amount_in), spec_from_fraction(num, den));
        if !in_bits_range(product) {
            Err(SimulationError::Arithmetic(ArithmeticError::Overflow))
        } else {
            let floored = product / (FRAC_ONE as int);
            if !(0 <= floored <= u64::MAX) {
                Err(SimulationError::Arithmetic(ArithmeticError::OutOfRange))
            } else {
                Ok(floored as u64)
            }
        }
    }
}

impl SwapSimulator for LinearRateSimulator {
    open spec fn buy_spec(&self, slot: u64, amount_in: u64) -> Result<u64, SimulationError> {
        spec_linear_out(self.rate_numerator, self.rate_denominator, amount_in)
    }

    open spec fn sell_spec(&self, slot: u64, amount_in: u64) -> Result<u64, SimulationError> {
        spec_linear_out(self.rate_numerator, self.rate_denominator, amount_in)
    }

    fn simulate_buy(&self, slot: u64, amount_in: u64) -> (r: Result<u64, SimulationError>) {
        self.payout(amount_in)
    }

    fn simulate_sell(&self, slot: u64, amount_in: u64) -> (r: Result<u64, SimulationError>) {
        self.payout(amount_in)
    }
}

impl LinearRateSimulator {
    /// Computes the fixed-rate payout for `amount_in`.
    fn payout(&self, amount_in: u64) -> (r: Result<u64, SimulationError>)
        ensures
            r == spec_linear_out(self.rate_numerator, self.rate_denominator, amount_in),
    {
        let rate = match I80F48::from_fraction(self.rate_numerator, self.rate_denominator) {
            Ok(v) => v,
            Err(e) => {
                return Err(SimulationError::Arithmetic(e));
            },
        };
        let amount = I80F48::from_num(amount_in);
        let product = match amount.mul(rate) {
            Ok(v) => v,
            Err(e) => {
                return Err(SimulationError::Arithmetic(e));
            },
        };
        match product.floor() {
            Ok(v) => Ok(v),
            Err(e) => Err(SimulationError::Arithmetic(e)),
        }
    }
}

} // verus!
