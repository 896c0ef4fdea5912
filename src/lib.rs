//! Configurable parameters of the gas adjuster: the interval at which the
//! maximum gas price is renewed, and the factor by which it is scaled.
//!
//! Values are read from a [`ConfigurationSource`] on every call and never
//! cached, so a change to the live settings is seen by the next read.

pub mod decimal;
pub mod settings;
pub mod parameters;

pub use decimal::parse_u64;
pub use parameters::{
    get_max_price_interval, get_max_price_scale_text, interval_from_text, ConfigurationSource,
    Misconfiguration, RenewalInterval, FIXED_SCALE_FACTOR,
};
pub use settings::{SettingStore, RENEWAL_INTERVAL_SETTING, SCALE_FACTOR_SETTING};
