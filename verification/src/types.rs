//! Values that the swap logic reads and produces.

use crate::decimal::{dec_from_u128, dec_to_u128, fp_nat, precision, Dec, DecModel};
use vstd::prelude::*;

verus! {

/// The identifier of a spot market.
#[derive(Debug, PartialEq, Eq, Hash)]
pub struct MarketId {
    id: String,
}

impl View for MarketId {
    type V = Seq<char>;

    closed spec fn view(&self) -> Seq<char> {
        self.id@
    }
}

impl MarketId {
    /// A market id holding the given text, without validation.
    pub fn unchecked(id: String) -> (r: MarketId)
        ensures
            r@ == id@,
    {
        MarketId { id }
    }

    /// The text of the id.
    pub fn as_str(&self) -> (r: &str)
        ensures
            r@ == self@,
    {
        self.id.as_str()
    }

    /// Whether two ids are the same text.
    pub fn same_as(&self, other: &MarketId) -> (r: bool)
        ensures
            r == (self@ == other@),
    {
        self.id == other.id
    }
}

impl Clone for MarketId {
    fn clone(&self) -> (r: Self)
        ensures
            r == *self,
    {
        MarketId { id: self.id.clone() }
    }
}

/// A copy of the ids, in the same order.
pub fn copy_market_ids(ids: &Vec<MarketId>) -> (r: Vec<MarketId>)
    ensures
        r@ == ids@,
{
    let mut r: Vec<MarketId> = Vec::new();
    let mut i: usize = 0;
    while i < ids.len()
        invariant
            i <= ids.len(),
            r@ == ids@.subrange(0, i as int),
        decreases ids.len() - i,
    {
        r.push(ids[i].clone());
        i = i + 1;
    }
    assert(r@ == ids@);
    r
}

/// A copy of the ids, in reverse order.
pub fn reversed_market_ids(ids: &Vec<MarketId>) -> (r: Vec<MarketId>)
    ensures
        r@ == ids@.reverse(),
{
    let mut r: Vec<MarketId> = Vec::new();
    let mut i: usize = ids.len();
    while i > 0
        invariant
            i <= ids.len(),
            r@.len() == ids.len() - i,
            forall|k: int| 0 <= k < r@.len() ==> #[trigger] r@[k] == ids@[ids.len() - 1 - k],
        decreases i,
    {
        i = i - 1;
        r.push(ids[i].clone());
    }
    assert(r@ =~= ids@.reverse());
    r
}

/// An amount of a denomination with a whole-number amount (a bank coin).
#[derive(Debug)]
pub struct Coin {
    pub denom: String,
    pub amount: u128,
}

/// An amount of a denomination held as a fixed-point decimal.
#[derive(Debug)]
pub struct FPCoin {
    pub amount: Dec,
    pub denom: String,
}

impl FPCoin {
    /// A copy with the same amount and denomination.
    pub fn copy(&self) -> (r: FPCoin)
        ensures
            r.amount == self.amount,
            r.denom@ == self.denom@,
    {
        FPCoin { amount: self.amount, denom: self.denom.clone() }
    }

    /// The coin's amount as a decimal.
    pub fn from_coin(value: Coin) -> (r: FPCoin)
        ensures
            r.amount@ == fp_nat(value.amount as nat),
            r.denom@ == value.denom@,
    {
        FPCoin { amount: dec_from_u128(value.amount), denom: value.denom }
    }

    /// The whole part of the amount as a bank coin.
    pub fn into_coin(self) -> (r: Coin)
        requires
            self.amount@.mag / precision() <= u128::MAX,
        ensures
            r.amount as nat == self.amount@.mag / precision(),
            r.denom@ == self.denom@,
    {
        Coin { denom: self.denom, amount: dec_to_u128(self.amount) }
    }
}

/// A swap's size: what is paid in, or what is to be received.
#[derive(Debug)]
pub enum SwapEstimationAmount {
    InputQuantity(FPCoin),
    ReceiveQuantity(FPCoin),
}

impl SwapEstimationAmount {
    /// The coin that the estimate starts from.
    pub open spec fn coin(self) -> FPCoin {
        match self {
            SwapEstimationAmount::InputQuantity(c) => c,
            SwapEstimationAmount::ReceiveQuantity(c) => c,
        }
    }

    /// Whether the estimate goes from the amount to be received back to the input.
    pub open spec fn from_target(self) -> bool {
        self is ReceiveQuantity
    }
}

/// The contract configuration.
#[derive(Debug)]
pub struct Config {
    /// Receives the relayer share of trading fees; when it is the contract itself,
    /// the fee discount goes back to the swapper.
    pub fee_recipient: String,
    /// Who may change routes and configuration.
    pub admin: String,
}

impl Config {
    /// A copy of the configuration.
    pub fn copy(&self) -> (r: Config)
        ensures
            r.fee_recipient@ == self.fee_recipient@,
            r.admin@ == self.admin@,
    {
        Config { fee_recipient: self.fee_recipient.clone(), admin: self.admin.clone() }
    }
}

/// The configuration and the version of the contract, as queried.
#[derive(Debug)]
pub struct ConfigResponse {
    pub config: Config,
    pub contract_version: String,
}

/// How the output of a swap is bounded.
#[derive(Debug, Clone, Copy)]
pub enum SwapQuantityMode {
    MinOutputQuantity(Dec),
    ExactOutputQuantity(Dec),
}

impl SwapQuantityMode {
    /// The output quantity of either mode.
    pub open spec fn quantity(self) -> Dec {
        match self {
            SwapQuantityMode::MinOutputQuantity(q) => q,
            SwapQuantityMode::ExactOutputQuantity(q) => q,
        }
    }
}

/// The estimated execution of one market order.
#[derive(Debug)]
pub struct StepExecutionEstimate {
    pub worst_price: Dec,
    pub result_denom: String,
    pub result_quantity: Dec,
    pub is_buy_order: bool,
    pub fee_estimate: Option<FPCoin>,
}

/// The swap in progress: who asked, through which markets, and what to refund.
#[derive(Debug)]
pub struct CurrentSwapOperation {
    pub sender_address: String,
    pub swap_steps: Vec<MarketId>,
    pub swap_quantity_mode: SwapQuantityMode,
    pub input_funds: Coin,
    pub refund: Coin,
}

/// The step of the swap in progress.
#[derive(Debug)]
pub struct CurrentSwapStep {
    pub step_idx: u16,
    pub current_balance: FPCoin,
    pub step_target_denom: String,
    pub is_buy: bool,
}

/// What one executed market order traded.
#[derive(Debug)]
pub struct SwapResults {
    pub market_id: MarketId,
    pub quantity: Dec,
    pub price: Dec,
    pub fee: Dec,
}

/// The markets through which one denomination is swapped into another.
#[derive(Debug)]
pub struct SwapRoute {
    pub steps: Vec<MarketId>,
    pub source_denom: String,
    pub target_denom: String,
}

impl SwapRoute {
    /// The markets in the order in which a swap starting from `denom` passes them:
    /// as stored when `denom` is the route's source, reversed otherwise.
    pub open spec fn steps_from_spec(self, denom: Seq<char>) -> Seq<MarketId> {
        if self.source_denom@ == denom {
            self.steps@
        } else {
            self.steps@.reverse()
        }
    }

    /// The markets in the order in which a swap starting from `denom` passes them.
    pub fn steps_from(&self, denom: &str) -> (r: Vec<MarketId>)
        ensures
            r@ == self.steps_from_spec(denom@),
    {
        if self.source_denom == denom.to_owned() {
            copy_market_ids(&self.steps)
        } else {
            reversed_market_ids(&self.steps)
        }
    }
}

/// A route is travelled in both directions: from its target denomination the
/// markets are passed in the reverse of the order in which they are passed from
/// its source denomination.
pub proof fn law_route_reversed_from_target(route: SwapRoute)
    requires
        route.source_denom@ != route.target_denom@,
    ensures
        route.steps_from_spec(route.target_denom@) == route.steps_from_spec(route.source_denom@).reverse(),
        route.steps_from_spec(route.source_denom@) == route.steps_from_spec(route.target_denom@).reverse(),
{
    assert(route.steps@.reverse().reverse() =~= route.steps@);
}

/// One step of a swap: a market and the denomination quoted for it.
#[derive(Debug)]
pub struct SwapStep {
    pub market_id: MarketId,
    pub quote_denom: String,
}

/// The estimated result of a whole swap and the fee of each step.
#[derive(Debug)]
pub struct SwapEstimationResult {
    pub result_quantity: Dec,
    pub expected_fees: Vec<FPCoin>,
}

} // verus!
