//! Signal fusion: three signals are blended into one number, and the number
//! is compared with two thresholds.
//!
//! Signals, weights and thresholds are amounts in millionths. The blended
//! total is a sum of products of two amounts, so it is counted in
//! millionths of a millionth ([`TOTAL_SCALE`] to the unit) and is exact.

use crate::config::TradingConfig;
use crate::decimal::{Decimal, LIMIT, SCALE};
use crate::model::Action;
use vstd::prelude::*;
use vstd::string::*;

verus! {

/// How many counts of a blended total make one unit.
pub const TOTAL_SCALE: i128 = 1_000_000_000_000;

/// The highest confidence, 2.0, in millionths.
pub const FULL_CONFIDENCE: i64 = 2_000_000;

/// A decision with the signals it was made from.
#[derive(Debug)]
pub struct TradingSignal {
    /// Seconds since the epoch at which the signal was made.
    pub timestamp: i64,
    pub temperature_signal: Decimal,
    pub inventory_signal: Decimal,
    pub storm_signal: Decimal,
    /// The blended total, in counts of [`TOTAL_SCALE`] to the unit.
    pub total_signal: i128,
    pub action: Action,
    /// The symbol to buy; empty when the action is to hold.
    pub symbol: String,
    pub confidence: Decimal,
}

/// Which of the two symbols a total speaks for.
#[derive(Clone, Copy, Debug, PartialEq, Eq, Structural)]
pub enum Leaning {
    /// Buy the symbol.
    Bullish,
    /// Buy the inverse symbol.
    Bearish,
    /// Between the thresholds: hold.
    Neutral,
}

/// The sum of each signal times its weight.
pub open spec fn weighted_total(
    config: TradingConfig,
    temperature: Decimal,
    inventory: Decimal,
    storm: Decimal,
) -> int {
    temperature@ * config.temperature_weight@ + inventory@ * config.inventory_weight@ + storm@
        * config.storm_weight@
}

/// A threshold in the counts of a blended total.
pub open spec fn threshold_in_total(threshold: Decimal) -> int {
    threshold@ * SCALE
}

/// Above the buy threshold a total is bullish; otherwise, below the sell
/// threshold it is bearish; otherwise it is neutral.
pub open spec fn leaning_of(config: TradingConfig, total: int) -> Leaning {
    if total > threshold_in_total(config.buy_threshold) {
        Leaning::Bullish
    } else if total < threshold_in_total(config.sell_threshold) {
        Leaning::Bearish
    } else {
        Leaning::Neutral
    }
}

/// The size of a total relative to the size of a threshold, in millionths and
/// rounded down, but no more than 2.0. A threshold of zero gives 2.0.
pub open spec fn confidence_of(total: int, threshold: Decimal) -> int {
    let size = if total < 0 {
        -total
    } else {
        total
    };
    let bar = if threshold@ < 0 {
        -threshold@
    } else {
        threshold@
    };
    if bar == 0 || size / bar > FULL_CONFIDENCE {
        FULL_CONFIDENCE as int
    } else {
        size / bar
    }
}

/// The action, the symbol and the confidence that follow from a total.
pub open spec fn decided(config: TradingConfig, total: int, action: Action, symbol: String, confidence: Decimal) -> bool {
    match leaning_of(config, total) {
        Leaning::Bullish => {
            &&& action == Action::Buy
            &&& symbol == config.symbol
            &&& confidence@ == confidence_of(total, config.buy_threshold)
        },
        Leaning::Bearish => {
            &&& action == Action::Buy
            &&& symbol == config.inverse_symbol
            &&& confidence@ == confidence_of(total, config.sell_threshold)
        },
        Leaning::Neutral => {
            &&& action == Action::Hold
            &&& symbol@.len() == 0
            &&& confidence@ == 0
        },
    }
}

/// With a sell threshold that is not above the buy threshold, the three
/// leanings are told apart by the thresholds alone: bullish exactly above
/// the buy threshold, bearish exactly below the sell threshold, neutral
/// exactly in between.
pub proof fn lemma_thresholds_decide(config: TradingConfig, total: int)
    requires
        config.sell_threshold@ <= config.buy_threshold@,
    ensures
        leaning_of(config, total) == Leaning::Bullish <==> total > threshold_in_total(
            config.buy_threshold,
        ),
        leaning_of(config, total) == Leaning::Bearish <==> total < threshold_in_total(
            config.sell_threshold,
        ),
        leaning_of(config, total) == Leaning::Neutral <==> threshold_in_total(
            config.sell_threshold,
        ) <= total <= threshold_in_total(config.buy_threshold),
{
    assert(config.sell_threshold@ * SCALE <= config.buy_threshold@ * SCALE) by (nonlinear_arith)
        requires
            config.sell_threshold@ <= config.buy_threshold@,
    ;
}

/// A signal that could not be fetched is neutral, and a neutral signal adds
/// nothing: with a signal of zero the total is the weighted sum of the other
/// two.
pub proof fn lemma_neutral_signal_adds_nothing(
    config: TradingConfig,
    temperature: Decimal,
    inventory: Decimal,
    storm: Decimal,
)
    ensures
        temperature@ == 0 ==> weighted_total(config, temperature, inventory, storm) == inventory@
            * config.inventory_weight@ + storm@ * config.storm_weight@,
        inventory@ == 0 ==> weighted_total(config, temperature, inventory, storm) == temperature@
            * config.temperature_weight@ + storm@ * config.storm_weight@,
        storm@ == 0 ==> weighted_total(config, temperature, inventory, storm) == temperature@
            * config.temperature_weight@ + inventory@ * config.inventory_weight@,
{
}

proof fn lemma_product_bound(a: int, b: int)
    requires
        -LIMIT <= a <= LIMIT,
        -LIMIT <= b <= LIMIT,
    ensures
        -(LIMIT * LIMIT) <= a * b <= LIMIT * LIMIT,
{
    assert(-(LIMIT * LIMIT) <= a * b <= LIMIT * LIMIT) by (nonlinear_arith)
        requires
            -LIMIT <= a <= LIMIT,
            -LIMIT <= b <= LIMIT,
    ;
}

fn product(a: Decimal, b: Decimal) -> (r: i128)
    ensures
        r == a@ * b@,
        -1_000_000_000_000_000_000_000_000_000_000_000_000 <= r
            <= 1_000_000_000_000_000_000_000_000_000_000_000_000,
{
    let x: i128 = a.micros() as i128;
    let y: i128 = b.micros() as i128;
    proof {
        lemma_product_bound(x as int, y as int);
    }
    x * y
}

fn magnitude(x: i128) -> (r: u128)
    ensures
        r == if x < 0 {
            -x
        } else {
            x as int
        },
{
    if x == i128::MIN {
        170_141_183_460_469_231_731_687_303_715_884_105_728
    } else if x < 0 {
        (-x) as u128
    } else {
        x as u128
    }
}

fn confidence(total: i128, threshold: Decimal) -> (r: Decimal)
    ensures
        r@ == confidence_of(total as int, threshold),
{
    let size = magnitude(total);
    let bar = magnitude(threshold.micros() as i128);
    let level: i64 = if bar == 0 {
        FULL_CONFIDENCE
    } else {
        let ratio = size / bar;
        if ratio > 2_000_000 {
            FULL_CONFIDENCE
        } else {
            ratio as i64
        }
    };
    match Decimal::from_micros(level) {
        Some(d) => d,
        None => Decimal::zero(),
    }
}

/// Blends signals and decides by the thresholds of its configuration.
pub struct SignalProcessor {
    config: TradingConfig,
}

impl SignalProcessor {
    /// The configuration that the processor decides by.
    pub closed spec fn config(&self) -> TradingConfig {
        self.config
    }

    /// A processor that decides by `config`.
    pub fn new(config: TradingConfig) -> (r: Self)
        ensures
            r.config() == config,
    {
        Self { config }
    }

    /// Blends the three signals: each is multiplied by its weight and the
    /// products are added, without rounding.
    pub fn calculate_total_signal(
        &self,
        temp_signal: Decimal,
        inventory_signal: Decimal,
        storm_signal: Decimal,
    ) -> (total: i128)
        ensures
            total == weighted_total(self.config(), temp_signal, inventory_signal, storm_signal),
    {
        let t = product(temp_signal, self.config.temperature_weight);
        let i = product(inventory_signal, self.config.inventory_weight);
        let s = product(storm_signal, self.config.storm_weight);
        t + i + s
    }

    /// The leaning of a total.
    pub fn leaning(&self, total_signal: i128) -> (r: Leaning)
        ensures
            r == leaning_of(self.config(), total_signal as int),
    {
        let buy: i128 = self.config.buy_threshold.micros() as i128 * 1_000_000;
        let sell: i128 = self.config.sell_threshold.micros() as i128 * 1_000_000;
        if total_signal > buy {
            Leaning::Bullish
        } else if total_signal < sell {
            Leaning::Bearish
        } else {
            Leaning::Neutral
        }
    }

    /// Decides what to do on a total: buy the symbol above the buy
    /// threshold, buy the inverse symbol below the sell threshold, hold in
    /// between.
    pub fn determine_action(&self, total_signal: i128) -> (r: (Action, String, Decimal))
        ensures
            decided(self.config(), total_signal as int, r.0, r.1, r.2),
    {
        match self.leaning(total_signal) {
            Leaning::Bullish => (
                Action::Buy,
                self.config.symbol.clone(),
                confidence(total_signal, self.config.buy_threshold),
            ),
            Leaning::Bearish => (
                Action::Buy,
                self.config.inverse_symbol.clone(),
                confidence(total_signal, self.config.sell_threshold),
            ),
            Leaning::Neutral => (Action::Hold, String::new(), Decimal::zero()),
        }
    }

    /// Blends the signals, decides, and records both with the time given.
    pub fn create_trading_signal(
        &self,
        temp_signal: Decimal,
        inventory_signal: Decimal,
        storm_signal: Decimal,
        timestamp: i64,
    ) -> (signal: TradingSignal)
        ensures
            signal.timestamp == timestamp,
            signal.temperature_signal == temp_signal,
            signal.inventory_signal == inventory_signal,
            signal.storm_signal == storm_signal,
            signal.total_signal == weighted_total(
                self.config(),
                temp_signal,
                inventory_signal,
                storm_signal,
            ),
            decided(
                self.config(),
                signal.total_signal as int,
                signal.action,
                signal.symbol,
                signal.confidence,
            ),
    {
        let total_signal = self.calculate_total_signal(
            temp_signal,
            inventory_signal,
            storm_signal,
        );
        let (action, symbol, confidence) = self.determine_action(total_signal);
        TradingSignal {
            timestamp,
            temperature_signal: temp_signal,
            inventory_signal,
            storm_signal,
            total_signal,
            action,
            symbol,
            confidence,
        }
    }
}

} // verus!
