//! Trading configuration.
//!
//! The configuration is an explicit value: nothing in the library reads the
//! process environment. The caller collects the settings it found into an
//! [`Environment`] and [`TradingConfig::from_env`] fills in the defaults.

use crate::decimal::{decimal_micros, Decimal};
use crate::text::bytes_of;
use vstd::prelude::*;
use vstd::string::*;

verus! {

/// The settings that were found, each under the name of its variable.
/// `None` stands for a variable that is not set.
#[derive(Debug)]
pub struct Environment {
    pub alpaca_api_key: Option<String>,
    pub alpaca_secret_key: Option<String>,
    pub alpaca_base_url: Option<String>,
    pub symbol: Option<String>,
    pub inverse_symbol: Option<String>,
    pub position_size: Option<String>,
    pub buy_threshold: Option<String>,
    pub sell_threshold: Option<String>,
    pub temperature_weight: Option<String>,
    pub inventory_weight: Option<String>,
    pub storm_weight: Option<String>,
    pub eia_api_key: Option<String>,
    pub log_level: Option<String>,
    pub log_file: Option<String>,
}

/// All that the trading engine is configured by.
#[derive(Debug)]
pub struct TradingConfig {
    pub alpaca_api_key: String,
    pub alpaca_secret_key: String,
    pub alpaca_base_url: String,
    pub symbol: String,
    pub inverse_symbol: String,
    pub position_size: Decimal,
    pub buy_threshold: Decimal,
    pub sell_threshold: Decimal,
    pub temperature_weight: Decimal,
    pub inventory_weight: Decimal,
    pub storm_weight: Decimal,
    pub weather_api_url: String,
    pub weather_regions: Vec<String>,
    pub eia_api_key: String,
    pub eia_api_url: String,
    pub noaa_api_url: String,
    pub log_level: String,
    pub log_file: String,
}

/// The setting's text, or `fallback` where it is not set.
pub open spec fn text_or(setting: Option<String>, fallback: Seq<char>) -> Seq<char> {
    match setting {
        Some(s) => s@,
        None => fallback,
    }
}

/// The amount that the setting writes, in millionths, or `fallback` where it
/// is not set or writes no amount.
pub open spec fn amount_or(setting: Option<String>, fallback: int) -> int {
    match setting {
        Some(s) => match decimal_micros(bytes_of(s@)) {
            Some(m) => m,
            None => fallback,
        },
        None => fallback,
    }
}

/// The regions whose forecasts are averaged, as "latitude,longitude".
pub open spec fn default_regions() -> Seq<Seq<char>> {
    seq![
        "40.7128,-74.0060"@,
        "41.8781,-87.6298"@,
        "42.3601,-71.0589"@,
        "39.9526,-75.1652"@,
        "42.3314,-83.0458"@,
    ]
}

/// The message of a configuration without credentials.
pub open spec fn missing_credentials() -> Seq<char> {
    "Alpaca API credentials not found! Please set ALPACA_API_KEY and ALPACA_SECRET_KEY environment variables"@
}

fn text_setting(setting: &Option<String>, fallback: &str) -> (r: String)
    ensures
        r@ == text_or(*setting, fallback@),
{
    match setting {
        Some(s) => s.clone(),
        None => fallback.to_owned(),
    }
}

fn amount_setting(setting: &Option<String>, fallback: Decimal) -> (r: Decimal)
    ensures
        r@ == amount_or(*setting, fallback@),
{
    match setting {
        Some(s) => match Decimal::parse(s.as_str()) {
            Some(d) => d,
            None => fallback,
        },
        None => fallback,
    }
}

fn amount(micros: i64) -> (r: Decimal)
    requires
        -1_000_000_000 <= micros <= 1_000_000_000,
    ensures
        r@ == micros,
{
    match Decimal::from_micros(micros) {
        Some(d) => d,
        None => Decimal::zero(),
    }
}

impl Environment {
    /// The environment in which nothing is set.
    pub open spec fn unset() -> Environment {
        Environment {
            alpaca_api_key: None,
            alpaca_secret_key: None,
            alpaca_base_url: None,
            symbol: None,
            inverse_symbol: None,
            position_size: None,
            buy_threshold: None,
            sell_threshold: None,
            temperature_weight: None,
            inventory_weight: None,
            storm_weight: None,
            eia_api_key: None,
            log_level: None,
            log_file: None,
        }
    }

    /// The environment in which nothing is set.
    #[verifier::when_used_as_spec(unset)]
    pub fn empty() -> (r: Environment)
        ensures
            r == Environment::unset(),
    {
        Environment {
            alpaca_api_key: None,
            alpaca_secret_key: None,
            alpaca_base_url: None,
            symbol: None,
            inverse_symbol: None,
            position_size: None,
            buy_threshold: None,
            sell_threshold: None,
            temperature_weight: None,
            inventory_weight: None,
            storm_weight: None,
            eia_api_key: None,
            log_level: None,
            log_file: None,
        }
    }
}

impl TradingConfig {
    /// What the configuration made from `env` holds: every setting that is
    /// there is taken, every other one has its default. An amount that
    /// cannot be read counts as not set.
    pub open spec fn reflects(&self, env: Environment) -> bool {
        &&& self.alpaca_api_key@ == text_or(env.alpaca_api_key, Seq::<char>::empty())
        &&& self.alpaca_secret_key@ == text_or(env.alpaca_secret_key, Seq::<char>::empty())
        &&& self.alpaca_base_url@ == text_or(
            env.alpaca_base_url,
            "https://paper-api.alpaca.markets"@,
        )
        &&& self.symbol@ == text_or(env.symbol, "BOIL"@)
        &&& self.inverse_symbol@ == text_or(env.inverse_symbol, "KOLD"@)
        &&& self.position_size@ == amount_or(env.position_size, 1_000_000_000)
        &&& self.buy_threshold@ == amount_or(env.buy_threshold, 300_000)
        &&& self.sell_threshold@ == amount_or(env.sell_threshold, -300_000)
        &&& self.temperature_weight@ == amount_or(env.temperature_weight, 500_000)
        &&& self.inventory_weight@ == amount_or(env.inventory_weight, 400_000)
        &&& self.storm_weight@ == amount_or(env.storm_weight, 100_000)
        &&& self.weather_api_url@ == "https://api.open-meteo.com/v1/forecast"@
        &&& self.weather_regions@.len() == default_regions().len()
        &&& forall|i: int|
            0 <= i < default_regions().len() ==> (#[trigger] self.weather_regions@[i])@
                == default_regions()[i]
        &&& self.eia_api_key@ == text_or(env.eia_api_key, Seq::<char>::empty())
        &&& self.eia_api_url@ == "https://api.eia.gov/v2/natural-gas/stor/wkly/data/"@
        &&& self.noaa_api_url@ == "https://api.weather.gov/alerts"@
        &&& self.log_level@ == text_or(env.log_level, "INFO"@)
        &&& self.log_file@ == text_or(env.log_file, "trading_bot.log"@)
    }

    /// Builds the configuration from the settings that were found.
    pub fn from_env(env: &Environment) -> (r: TradingConfig)
        ensures
            r.reflects(*env),
    {
        let mut regions: Vec<String> = Vec::new();
        regions.push("40.7128,-74.0060".to_owned());
        regions.push("41.8781,-87.6298".to_owned());
        regions.push("42.3601,-71.0589".to_owned());
        regions.push("39.9526,-75.1652".to_owned());
        regions.push("42.3314,-83.0458".to_owned());
        proof {
            reveal_strlit("");
            assert(""@ =~= Seq::<char>::empty());
        }
        TradingConfig {
            alpaca_api_key: text_setting(&env.alpaca_api_key, ""),
            alpaca_secret_key: text_setting(&env.alpaca_secret_key, ""),
            alpaca_base_url: text_setting(&env.alpaca_base_url, "https://paper-api.alpaca.markets"),
            symbol: text_setting(&env.symbol, "BOIL"),
            inverse_symbol: text_setting(&env.inverse_symbol, "KOLD"),
            position_size: amount_setting(&env.position_size, amount(1_000_000_000)),
            buy_threshold: amount_setting(&env.buy_threshold, amount(300_000)),
            sell_threshold: amount_setting(&env.sell_threshold, amount(-300_000)),
            temperature_weight: amount_setting(&env.temperature_weight, amount(500_000)),
            inventory_weight: amount_setting(&env.inventory_weight, amount(400_000)),
            storm_weight: amount_setting(&env.storm_weight, amount(100_000)),
            weather_api_url: "https://api.open-meteo.com/v1/forecast".to_owned(),
            weather_regions: regions,
            eia_api_key: text_setting(&env.eia_api_key, ""),
            eia_api_url: "https://api.eia.gov/v2/natural-gas/stor/wkly/data/".to_owned(),
            noaa_api_url: "https://api.weather.gov/alerts".to_owned(),
            log_level: text_setting(&env.log_level, "INFO"),
            log_file: text_setting(&env.log_file, "trading_bot.log"),
        }
    }

    /// Whether both credentials are there.
    pub open spec fn has_credentials(&self) -> bool {
        self.alpaca_api_key@.len() > 0 && self.alpaca_secret_key@.len() > 0
    }

    /// Accepts a configuration that holds both credentials and rejects any
    /// other with the message [`missing_credentials`].
    pub fn validate(&self) -> (r: Result<(), String>)
        ensures
            r is Ok <==> self.has_credentials(),
            r matches Err(message) ==> message@ == missing_credentials(),
    {
        if self.alpaca_api_key.as_str().is_empty() || self.alpaca_secret_key.as_str().is_empty() {
            return Err(
                "Alpaca API credentials not found! Please set ALPACA_API_KEY and ALPACA_SECRET_KEY environment variables".to_owned(),
            );
        }
        Ok(())
    }
}

impl Clone for TradingConfig {
    fn clone(&self) -> (r: Self)
        ensures
            r.alpaca_api_key == self.alpaca_api_key,
            r.alpaca_secret_key == self.alpaca_secret_key,
            r.alpaca_base_url == self.alpaca_base_url,
            r.symbol == self.symbol,
            r.inverse_symbol == self.inverse_symbol,
            r.position_size == self.position_size,
            r.buy_threshold == self.buy_threshold,
            r.sell_threshold == self.sell_threshold,
            r.temperature_weight == self.temperature_weight,
            r.inventory_weight == self.inventory_weight,
            r.storm_weight == self.storm_weight,
            r.weather_api_url == self.weather_api_url,
            r.weather_regions@ == self.weather_regions@,
            r.eia_api_key == self.eia_api_key,
            r.eia_api_url == self.eia_api_url,
            r.noaa_api_url == self.noaa_api_url,
            r.log_level == self.log_level,
            r.log_file == self.log_file,
    {
        let mut regions: Vec<String> = Vec::new();
        let mut i: usize = 0;
        while i < self.weather_regions.len()
            invariant
                i <= self.weather_regions.len(),
                regions@ == self.weather_regions@.take(i as int),
            decreases self.weather_regions.len() - i,
        {
            regions.push(self.weather_regions[i].clone());
            proof {
                assert(self.weather_regions@.take(i + 1) =~= self.weather_regions@.take(
                    i as int,
                ).push(self.weather_regions@[i as int]));
            }
            i = i + 1;
        }
        proof {
            assert(self.weather_regions@.take(i as int) =~= self.weather_regions@);
        }
        TradingConfig {
            alpaca_api_key: self.alpaca_api_key.clone(),
            alpaca_secret_key: self.alpaca_secret_key.clone(),
            alpaca_base_url: self.alpaca_base_url.clone(),
            symbol: self.symbol.clone(),
            inverse_symbol: self.inverse_symbol.clone(),
            position_size: self.position_size,
            buy_threshold: self.buy_threshold,
            sell_threshold: self.sell_threshold,
            temperature_weight: self.temperature_weight,
            inventory_weight: self.inventory_weight,
            storm_weight: self.storm_weight,
            weather_api_url: self.weather_api_url.clone(),
            weather_regions: regions,
            eia_api_key: self.eia_api_key.clone(),
            eia_api_url: self.eia_api_url.clone(),
            noaa_api_url: self.noaa_api_url.clone(),
            log_level: self.log_level.clone(),
            log_file: self.log_file.clone(),
        }
    }
}

impl Default for TradingConfig {
    /// The configuration of an environment in which nothing is set.
    fn default() -> (r: Self)
        ensures
            r.reflects(Environment::empty()),
    {
        let env = Environment::empty();
        TradingConfig::from_env(&env)
    }
}

} // verus!
