//! Price-scenario target: price movements, price history, and the position
//! invariants under price manipulation.
use vstd::prelude::*;

pub use crate::targets::views::{MockReflector, PriceData};

verus! {

/// RAY constant (1e9)
pub const RAY: u128 = 1_000_000_000;
/// WAD constant for health factor (1e18)
pub const WAD: u128 = 1_000_000_000_000_000_000;
/// Base price with 14 decimals (1 USD)
pub const BASE_PRICE: u128 = 1_000_000_000_000_000;
/// Smallest price the target sets (very small but non-zero)
pub const MIN_PRICE: u128 = 1_000_000;
/// Largest price the target sets (1 million USD with 14 decimals)
pub const MAX_PRICE: u128 = 1_000_000_000_000_000_000_000;
/// Minimum amount (0.1 tokens)
pub const MIN_AMOUNT: u128 = 1_000_000;
/// Maximum amount (10M tokens)
pub const MAX_AMOUNT: u128 = 100_000_000_000_000;

/// Types of price movements to test.
#[derive(Clone, Copy, Debug, PartialEq, Eq, Structural)]
#[allow(inconsistent_fields)]
pub enum PriceMovement {
    /// Sudden crash (percentage drop, 0-99%)
    FlashCrash { percent: u8 },
    /// Sudden spike (percentage increase, 0-1000%)
    Spike { percent: u16 },
    /// Gradual decline over time
    GradualDecline { steps: u8, percent_per_step: u8 },
    /// Oscillation (alternating up/down)
    Oscillate { amplitude_percent: u8 },
    /// Set to extreme low value
    ExtremeLow,
    /// Set to extreme high value
    ExtremeHigh,
    /// Set to specific basis points (relative to $1)
    Absolute { price_bps: u32 },
}

/// Price manipulation attack patterns.
#[derive(Clone, Copy, Debug, PartialEq, Eq, Structural)]
pub enum PriceAttack {
    /// Simple price manipulation
    SetPrice { movement: PriceMovement },
    /// Sandwich: drop price, liquidate, restore price
    SandwichLiquidation { drop_percent: u8, liquidation_amount: u64 },
    /// Front-run a borrow by dropping collateral price
    FrontRunBorrow { drop_percent: u8, borrow_amount: u64 },
    /// Try to extract value through rapid price changes
    PriceOscillation { cycles: u8, amplitude: u8 },
    /// Advance time to test staleness
    AdvanceTime { seconds: u32 },
    /// User action: supply more collateral
    SupplyCollateral { amount: u64 },
    /// User action: repay debt
    RepayDebt { amount: u64 },
    /// User action: borrow
    Borrow { amount: u64 },
    /// User action: withdraw
    Withdraw { amount: u64 },
    /// Attempt liquidation
    AttemptLiquidation { amount: u64 },
}

/// Fuzz input of the price-scenario target.
#[derive(Clone, Copy, Debug)]
pub struct PriceScenarioInput {
    /// Initial collateral amount
    pub collateral_amount: u64,
    /// Initial borrow percentage (of max LTV)
    pub borrow_percent: u8,
    /// Starting price in basis points (10000 = $1)
    pub initial_price_bps: u16,
    /// Sequence of price attacks/movements
    pub attacks: [Option<PriceAttack>; 10],
}

/// Recorded prices and the times they were recorded.
#[derive(Clone, Debug)]
pub struct PriceHistory {
    pub prices: Vec<u128>,
    pub timestamps: Vec<u64>,
}

/// `|a - b|`.
pub open spec fn dist(a: u128, b: u128) -> int {
    if a > b {
        a - b
    } else {
        b - a
    }
}

/// The largest change between consecutive prices among the first `n`.
pub open spec fn max_step(p: Seq<u128>, n: int) -> int
    decreases n,
{
    if n <= 1 {
        0
    } else {
        let prev = max_step(p, n - 1);
        let d = dist(p[n - 1], p[n - 2]);
        if d > prev {
            d
        } else {
            prev
        }
    }
}

impl PriceHistory {
    /// An empty history.
    pub fn new() -> (h: Self)
        ensures
            h.prices@.len() == 0,
            h.timestamps@.len() == 0,
    {
        PriceHistory { prices: Vec::new(), timestamps: Vec::new() }
    }

    /// Appends one observation.
    pub fn record(&mut self, price: u128, timestamp: u64)
        ensures
            final(self).prices@ == old(self).prices@.push(price),
            final(self).timestamps@ == old(self).timestamps@.push(timestamp),
    {
        self.prices.push(price);
        self.timestamps.push(timestamp);
    }

    /// The largest change between consecutive prices (0 with fewer than two).
    pub fn volatility(&self) -> (v: u128)
        ensures
            v == max_step(self.prices@, self.prices@.len() as int),
    {
        if self.prices.len() < 2 {
            return 0;
        }
        let mut max_change: u128 = 0;
        let mut i: usize = 1;
        while i < self.prices.len()
            invariant
                1 <= i <= self.prices@.len(),
                max_change == max_step(self.prices@, i as int),
            decreases self.prices@.len() - i,
        {
            let change = if self.prices[i] > self.prices[i - 1] {
                self.prices[i] - self.prices[i - 1]
            } else {
                self.prices[i - 1] - self.prices[i]
            };
            if change > max_change {
                max_change = change;
            }
            i = i + 1;
        }
        max_change
    }
}

/// A user's position as seen before or after an attack.
#[derive(Clone, Copy, Debug)]
pub struct PositionSnapshot {
    pub collateral_value: u128,
    pub debt_value: u128,
    pub health_factor: u128,
    pub atoken_balance: i128,
    pub debt_balance: i128,
}

/// The price after one movement.
pub open spec fn moved_price(current_price: u128, movement: PriceMovement) -> int {
    match movement {
        PriceMovement::FlashCrash { percent } => {
            let drop = if percent > 99 { 99 } else { percent as int };
            current_price * (100 - drop) / 100
        },
        PriceMovement::Spike { percent } => {
            let increase = if percent > 10000 { 10000 } else { percent as int };
            current_price * (100 + increase) / 100
        },
        PriceMovement::GradualDecline { percent_per_step, .. } => {
            let drop = if percent_per_step > 50 { 50 } else { percent_per_step as int };
            current_price * (100 - drop) / 100
        },
        PriceMovement::Oscillate { amplitude_percent } => {
            let amp = if amplitude_percent > 50 { 50 } else { amplitude_percent as int };
            if current_price % 2 == 0 {
                current_price * (100 + amp) / 100
            } else {
                current_price * (100 - amp) / 100
            }
        },
        PriceMovement::ExtremeLow => MIN_PRICE as int,
        PriceMovement::ExtremeHigh => MAX_PRICE as int,
        PriceMovement::Absolute { price_bps } => BASE_PRICE * (if price_bps < 1 {
            1
        } else {
            price_bps as int
        }) / 10000,
    }
}

/// The percentage factor a multiplicative movement applies to the price.
pub open spec fn movement_factor(current_price: u128, movement: PriceMovement) -> int {
    match movement {
        PriceMovement::FlashCrash { percent } => 100 - (if percent > 99 {
            99
        } else {
            percent as int
        }),
        PriceMovement::Spike { percent } => 100 + (if percent > 10000 {
            10000
        } else {
            percent as int
        }),
        PriceMovement::GradualDecline { percent_per_step, .. } => 100 - (if percent_per_step
            > 50 {
            50
        } else {
            percent_per_step as int
        }),
        PriceMovement::Oscillate { amplitude_percent } => {
            let amp = if amplitude_percent > 50 {
                50
            } else {
                amplitude_percent as int
            };
            if current_price % 2 == 0 {
                100 + amp
            } else {
                100 - amp
            }
        },
        _ => 0,
    }
}

/// The multiplication a movement performs on the price does not overflow.
pub open spec fn movement_fits(current_price: u128, movement: PriceMovement) -> bool {
    current_price * movement_factor(current_price, movement) <= u128::MAX
}

proof fn lemma_percent_scaling(p: int, f: int, g: int)
    requires
        p >= 0,
        0 <= f,
    ensures
        f <= 100 ==> p * f / 100 <= p,
        f >= 100 ==> p * f / 100 >= p,
        f >= 50 ==> p * f / 100 >= p / 2,
        f <= g ==> p * f / 100 <= p * g / 100,
        f < 100 && p >= 100 ==> p * f / 100 < p,
{
    assert(f <= 100 ==> p * f <= p * 100) by (nonlinear_arith)
        requires
            p >= 0,
    ;
    assert(f >= 100 ==> p * f >= p * 100) by (nonlinear_arith)
        requires
            p >= 0,
    ;
    assert(f >= 50 ==> p * f >= p * 50) by (nonlinear_arith)
        requires
            p >= 0,
    ;
    assert(f <= g ==> p * f <= p * g) by (nonlinear_arith)
        requires
            p >= 0,
    ;
    assert(f < 100 && p >= 100 ==> p * f <= p * 100 - p) by (nonlinear_arith)
        requires
            p >= 0,
    ;
}

/// Which way each movement moves the price: a crash or a gradual decline
/// never raises it (and a decline, capped at 50% a step, keeps at least half
/// of it), a spike never lowers it, and an oscillation raises an even price
/// and lowers an odd one.
pub proof fn lemma_movement_direction(current_price: u128, movement: PriceMovement)
    ensures
        movement is FlashCrash ==> moved_price(current_price, movement) <= current_price,
        movement is GradualDecline ==> moved_price(current_price, movement) <= current_price,
        movement is GradualDecline ==> moved_price(current_price, movement) >= current_price / 2,
        movement is Spike ==> moved_price(current_price, movement) >= current_price,
        movement is Oscillate && current_price % 2 == 0 ==> moved_price(current_price, movement)
            >= current_price,
        movement is Oscillate && current_price % 2 == 1 ==> moved_price(current_price, movement)
            <= current_price,
{
    let p = current_price as int;
    match movement {
        PriceMovement::FlashCrash { percent } => {
            let d = if percent > 99 { 99 } else { percent as int };
            lemma_percent_scaling(p, 100 - d, 100);
        },
        PriceMovement::Spike { percent } => {
            let d = if percent > 10000 { 10000 } else { percent as int };
            lemma_percent_scaling(p, 100 + d, 100);
        },
        PriceMovement::GradualDecline { percent_per_step, .. } => {
            let d = if percent_per_step > 50 { 50 } else { percent_per_step as int };
            lemma_percent_scaling(p, 100 - d, 100);
        },
        PriceMovement::Oscillate { amplitude_percent } => {
            let d = if amplitude_percent > 50 { 50 } else { amplitude_percent as int };
            lemma_percent_scaling(p, 100 + d, 100);
            lemma_percent_scaling(p, 100 - d, 100);
        },
        _ => {},
    }
}

/// How two gradual declines of the same price relate: the number of steps
/// does not change a single move, a steeper step never leaves a higher
/// price, and any step of at least 1% lowers a price of 100 or more.
pub proof fn lemma_gradual_decline_steeper(
    current_price: u128,
    steps_a: u8,
    percent_a: u8,
    steps_b: u8,
    percent_b: u8,
)
    ensures
        percent_a == percent_b ==> moved_price(
            current_price,
            PriceMovement::GradualDecline { steps: steps_a, percent_per_step: percent_a },
        ) == moved_price(current_price, PriceMovement::GradualDecline { steps: steps_b, percent_per_step: percent_b }),
        percent_a <= percent_b ==> moved_price(
            current_price,
            PriceMovement::GradualDecline { steps: steps_b, percent_per_step: percent_b },
        ) <= moved_price(current_price, PriceMovement::GradualDecline { steps: steps_a, percent_per_step: percent_a }),
        percent_a >= 1 && current_price >= 100 ==> moved_price(
            current_price,
            PriceMovement::GradualDecline { steps: steps_a, percent_per_step: percent_a },
        ) < current_price,
{
    let p = current_price as int;
    let da = if percent_a > 50 { 50 } else { percent_a as int };
    let db = if percent_b > 50 { 50 } else { percent_b as int };
    lemma_percent_scaling(p, 100 - db, 100 - da);
    lemma_percent_scaling(p, 100 - da, 100);
}

/// The price after applying one movement to `current_price`.
pub fn apply_price_movement(current_price: u128, movement: &PriceMovement) -> (p: u128)
    requires
        movement_fits(current_price, *movement),
    ensures
        p == moved_price(current_price, *movement),
{
    match movement {
        PriceMovement::FlashCrash { percent } => {
            let drop: u128 = if *percent > 99 {
                99
            } else {
                *percent as u128
            };
            current_price * (100 - drop) / 100
        },
        PriceMovement::Spike { percent } => {
            let increase: u128 = if *percent > 10000 {
                10000
            } else {
                *percent as u128
            };
            current_price * (100 + increase) / 100
        },
        PriceMovement::GradualDecline { steps: _, percent_per_step } => {
            let drop: u128 = if *percent_per_step > 50 {
                50
            } else {
                *percent_per_step as u128
            };
            current_price * (100 - drop) / 100
        },
        PriceMovement::Oscillate { amplitude_percent } => {
            let amp: u128 = if *amplitude_percent > 50 {
                50
            } else {
                *amplitude_percent as u128
            };
            if current_price % 2 == 0 {
                current_price * (100 + amp) / 100
            } else {
                current_price * (100 - amp) / 100
            }
        },
        PriceMovement::ExtremeLow => MIN_PRICE,
        PriceMovement::ExtremeHigh => MAX_PRICE,
        PriceMovement::Absolute { price_bps } => {
            let bps: u128 = if *price_bps < 1 {
                1
            } else {
                *price_bps as u128
            };
            BASE_PRICE * bps / 10000
        },
    }
}

/// The price the oracle is given: `price` clamped into `MIN_PRICE..=MAX_PRICE`.
pub fn clamp_price(price: u128) -> (p: u128)
    ensures
        p == (if price < MIN_PRICE {
            MIN_PRICE
        } else if price > MAX_PRICE {
            MAX_PRICE
        } else {
            price
        }),
        MIN_PRICE <= p <= MAX_PRICE,
{
    if price < MIN_PRICE {
        MIN_PRICE
    } else if price > MAX_PRICE {
        MAX_PRICE
    } else {
        price
    }
}

/// The tracked price lies within the target's bounds, and the oracle (when
/// it answers) reports a positive price.
pub fn check_price_invariants(current_price: u128, oracle_price: Option<u128>) -> (ok: bool)
    ensures
        ok == (MIN_PRICE <= current_price <= MAX_PRICE && (oracle_price matches Some(p) ==> p
            > 0)),
{
    let mut ok = current_price >= MIN_PRICE && current_price <= MAX_PRICE;
    if let Some(p) = oracle_price {
        ok = ok && p > 0;
    }
    ok
}

/// With debt the health factor is positive; with unchanged balances a price
/// increase does not lower the health factor by more than 0.1%.
pub fn check_health_factor_invariants(
    position_before: &PositionSnapshot,
    position_after: &PositionSnapshot,
    price_increased: bool,
) -> (ok: bool)
    requires
        position_after.health_factor + position_before.health_factor / 1000 <= u128::MAX,
    ensures
        ok == ((position_after.debt_balance > 0 ==> position_after.health_factor > 0) && (
        position_after.debt_balance > 0 && position_before.debt_balance > 0
            && position_after.debt_balance == position_before.debt_balance
            && position_after.atoken_balance == position_before.atoken_balance && price_increased
            ==> position_after.health_factor + position_before.health_factor / 1000
            >= position_before.health_factor)),
        position_after.debt_balance <= 0 ==> ok,
        position_after.debt_balance > 0 && position_after.health_factor == 0 ==> !ok,
{
    let mut ok = true;
    if position_after.debt_balance > 0 {
        ok = ok && position_after.health_factor > 0;
    }
    if position_after.debt_balance > 0 && position_before.debt_balance > 0 {
        if position_after.debt_balance == position_before.debt_balance
            && position_after.atoken_balance == position_before.atoken_balance {
            if price_increased {
                let tolerance = position_before.health_factor / 1000;
                ok = ok && position_after.health_factor + tolerance
                    >= position_before.health_factor;
            }
        }
    }
    ok
}

/// A successful liquidation does not raise the debt; a failed one changes
/// neither debt nor collateral.
pub fn check_liquidation_invariants(
    position_before: &PositionSnapshot,
    position_after: &PositionSnapshot,
    liquidation_attempted: bool,
    liquidation_succeeded: bool,
) -> (ok: bool)
    ensures
        ok == (liquidation_attempted ==> (if liquidation_succeeded {
            position_after.debt_balance <= position_before.debt_balance
        } else {
            position_after.debt_balance == position_before.debt_balance
                && position_after.atoken_balance == position_before.atoken_balance
        })),
        !liquidation_attempted ==> ok,
        liquidation_attempted && liquidation_succeeded && position_after.debt_balance
            > position_before.debt_balance ==> !ok,
        liquidation_attempted && !liquidation_succeeded && position_after.debt_balance
            != position_before.debt_balance ==> !ok,
{
    if liquidation_attempted {
        if liquidation_succeeded {
            position_after.debt_balance <= position_before.debt_balance
        } else {
            position_after.debt_balance == position_before.debt_balance
                && position_after.atoken_balance == position_before.atoken_balance
        }
    } else {
        true
    }
}

/// Without a change of the user's position, the attacker's profit is at most
/// 1000 units (rounding).
pub fn check_no_profit_extraction(
    user_position_start: &PositionSnapshot,
    user_position_end: &PositionSnapshot,
    attacker_profit: i128,
) -> (ok: bool)
    ensures
        ok == (user_position_start.atoken_balance == user_position_end.atoken_balance
            && user_position_start.debt_balance == user_position_end.debt_balance
            ==> attacker_profit <= 1000),
        attacker_profit <= 1000 ==> ok,
        user_position_start.atoken_balance == user_position_end.atoken_balance
            && user_position_start.debt_balance == user_position_end.debt_balance && attacker_profit
            > 1000 ==> !ok,
{
    if user_position_start.atoken_balance == user_position_end.atoken_balance
        && user_position_start.debt_balance == user_position_end.debt_balance {
        let max_allowed_profit: i128 = 1000;
        attacker_profit <= max_allowed_profit
    } else {
        true
    }
}

/// Solvency after extreme price movements: non-negative pool balance and
/// aToken supply, indices at least RAY.
pub fn check_protocol_solvency(
    underlying_balance: i128,
    liquidity_index: u128,
    variable_borrow_index: u128,
    atoken_supply: i128,
) -> (ok: bool)
    ensures
        ok == (underlying_balance >= 0 && liquidity_index >= RAY && variable_borrow_index >= RAY
            && atoken_supply >= 0),
        underlying_balance < 0 || atoken_supply < 0 ==> !ok,
        liquidity_index < RAY || variable_borrow_index < RAY ==> !ok,
{
    underlying_balance >= 0 && liquidity_index >= RAY && variable_borrow_index >= RAY
        && atoken_supply >= 0
}

} // verus!
