use algotrade::config::{Environment, TradingConfig};

fn unset() -> Environment {
    Environment::empty()
}

#[test]
fn nothing_is_set_in_the_empty_environment() {
    let env = Environment::empty();
    assert!(env.alpaca_api_key.is_none());
    assert!(env.alpaca_secret_key.is_none());
    assert!(env.alpaca_base_url.is_none());
    assert!(env.symbol.is_none());
    assert!(env.inverse_symbol.is_none());
    assert!(env.position_size.is_none());
    assert!(env.buy_threshold.is_none());
    assert!(env.sell_threshold.is_none());
    assert!(env.temperature_weight.is_none());
    assert!(env.inventory_weight.is_none());
    assert!(env.storm_weight.is_none());
    assert!(env.eia_api_key.is_none());
    assert!(env.log_level.is_none());
    assert!(env.log_file.is_none());
}

#[test]
fn defaults_fill_an_empty_environment() {
    let c = TradingConfig::from_env(&unset());
    assert_eq!(c.alpaca_api_key, "");
    assert_eq!(c.alpaca_secret_key, "");
    assert_eq!(c.alpaca_base_url, "https://paper-api.alpaca.markets");
    assert_eq!(c.symbol, "BOIL");
    assert_eq!(c.inverse_symbol, "KOLD");
    assert_eq!(c.position_size.micros(), 1_000_000_000);
    assert_eq!(c.buy_threshold.micros(), 300_000);
    assert_eq!(c.sell_threshold.micros(), -300_000);
    assert_eq!(c.temperature_weight.micros(), 500_000);
    assert_eq!(c.inventory_weight.micros(), 400_000);
    assert_eq!(c.storm_weight.micros(), 100_000);
    assert_eq!(c.weather_api_url, "https://api.open-meteo.com/v1/forecast");
    assert_eq!(
        c.weather_regions,
        vec![
            "40.7128,-74.0060".to_string(),
            "41.8781,-87.6298".to_string(),
            "42.3601,-71.0589".to_string(),
            "39.9526,-75.1652".to_string(),
            "42.3314,-83.0458".to_string(),
        ]
    );
    assert_eq!(c.eia_api_key, "");
    assert_eq!(c.eia_api_url, "https://api.eia.gov/v2/natural-gas/stor/wkly/data/");
    assert_eq!(c.noaa_api_url, "https://api.weather.gov/alerts");
    assert_eq!(c.log_level, "INFO");
    assert_eq!(c.log_file, "trading_bot.log");
}

#[test]
fn the_default_configuration_is_that_of_an_empty_environment() {
    let c = TradingConfig::default();
    assert_eq!(c.symbol, "BOIL");
    assert_eq!(c.inverse_symbol, "KOLD");
    assert_eq!(c.position_size.micros(), 1_000_000_000);
    assert_eq!(c.alpaca_api_key, "");
}

#[test]
fn settings_override_defaults() {
    let mut env = unset();
    env.alpaca_api_key = Some("key".to_string());
    env.alpaca_secret_key = Some("secret".to_string());
    env.alpaca_base_url = Some("http://localhost:9".to_string());
    env.symbol = Some("UNG".to_string());
    env.inverse_symbol = Some("KOLD2".to_string());
    env.position_size = Some("2500.75".to_string());
    env.buy_threshold = Some("0.25".to_string());
    env.sell_threshold = Some("-0.35".to_string());
    env.temperature_weight = Some("0.6".to_string());
    env.inventory_weight = Some("0.3".to_string());
    env.storm_weight = Some("0.05".to_string());
    env.eia_api_key = Some("eia".to_string());
    env.log_level = Some("DEBUG".to_string());
    env.log_file = Some("bot.log".to_string());
    let c = TradingConfig::from_env(&env);
    assert_eq!(c.alpaca_api_key, "key");
    assert_eq!(c.alpaca_secret_key, "secret");
    assert_eq!(c.alpaca_base_url, "http://localhost:9");
    assert_eq!(c.symbol, "UNG");
    assert_eq!(c.inverse_symbol, "KOLD2");
    assert_eq!(c.position_size.micros(), 2_500_750_000);
    assert_eq!(c.buy_threshold.micros(), 250_000);
    assert_eq!(c.sell_threshold.micros(), -350_000);
    assert_eq!(c.temperature_weight.micros(), 600_000);
    assert_eq!(c.inventory_weight.micros(), 300_000);
    assert_eq!(c.storm_weight.micros(), 50_000);
    assert_eq!(c.eia_api_key, "eia");
    assert_eq!(c.log_level, "DEBUG");
    assert_eq!(c.log_file, "bot.log");
    assert_eq!(c.weather_regions.len(), 5);
}

#[test]
fn an_amount_that_cannot_be_read_counts_as_not_set() {
    let mut env = unset();
    env.position_size = Some("a lot".to_string());
    env.buy_threshold = Some("".to_string());
    let c = TradingConfig::from_env(&env);
    assert_eq!(c.position_size.micros(), 1_000_000_000);
    assert_eq!(c.buy_threshold.micros(), 300_000);
}

#[test]
fn validate_accepts_both_credentials() {
    let mut env = unset();
    env.alpaca_api_key = Some("key".to_string());
    env.alpaca_secret_key = Some("secret".to_string());
    assert_eq!(TradingConfig::from_env(&env).validate(), Ok(()));
}

#[test]
fn validate_rejects_a_missing_credential() {
    let message = "Alpaca API credentials not found! Please set ALPACA_API_KEY and ALPACA_SECRET_KEY environment variables";
    assert_eq!(TradingConfig::from_env(&unset()).validate(), Err(message.to_string()));
    let mut env = unset();
    env.alpaca_api_key = Some("key".to_string());
    assert_eq!(TradingConfig::from_env(&env).validate(), Err(message.to_string()));
    let mut env = unset();
    env.alpaca_secret_key = Some("secret".to_string());
    assert_eq!(TradingConfig::from_env(&env).validate(), Err(message.to_string()));
    let mut env = unset();
    env.alpaca_api_key = Some("".to_string());
    env.alpaca_secret_key = Some("secret".to_string());
    assert_eq!(TradingConfig::from_env(&env).validate(), Err(message.to_string()));
}

#[test]
fn a_clone_holds_the_same_settings() {
    let mut env = unset();
    env.symbol = Some("UNG".to_string());
    env.position_size = Some("12".to_string());
    let c = TradingConfig::from_env(&env);
    let d = c.clone();
    assert_eq!(d.symbol, "UNG");
    assert_eq!(d.inverse_symbol, c.inverse_symbol);
    assert_eq!(d.position_size, c.position_size);
    assert_eq!(d.weather_regions, c.weather_regions);
    assert_eq!(d.noaa_api_url, c.noaa_api_url);
}
