//! The live settings that the gas adjuster's parameters are read from.
use vstd::prelude::*;

verus! {

/// Name of the setting that holds the renewal interval of the maximum gas
/// price, in whole seconds.
pub const RENEWAL_INTERVAL_SETTING: &'static str = "ETH_MAX_GAS_PRICE_RENEWAL_INTERVAL";

/// Name of the setting that holds the scaling factor of the maximum gas price.
pub const SCALE_FACTOR_SETTING: &'static str = "ETH_MAX_GAS_PRICE_SCALE_FACTOR";

/// What the two settings hold: the raw text of each, or nothing when unset.
pub struct SettingsView {
    pub renewal_interval: Option<Seq<char>>,
    pub scale_factor: Option<Seq<char>>,
}

impl SettingsView {
    /// The same settings with the renewal interval set to `text`.
    pub open spec fn with_renewal_interval(self, text: Seq<char>) -> SettingsView {
        SettingsView { renewal_interval: Some(text), ..self }
    }

    /// The same settings with the scaling factor set to `text`.
    pub open spec fn with_scale_factor(self, text: Seq<char>) -> SettingsView {
        SettingsView { scale_factor: Some(text), ..self }
    }
}

/// The text of an optional string.
pub open spec fn text_of(s: Option<String>) -> Option<Seq<char>> {
    match s {
        Some(s) => Some(s@),
        None => None,
    }
}

/// Storage of the settings as an administrator last left them. It may change
/// while the process runs; readers never keep a copy of what it held.
pub struct SettingStore {
    renewal_interval: Option<String>,
    scale_factor: Option<String>,
}

impl View for SettingStore {
    type V = SettingsView;

    closed spec fn view(&self) -> SettingsView {
        SettingsView {
            renewal_interval: text_of(self.renewal_interval),
            scale_factor: text_of(self.scale_factor),
        }
    }
}

impl SettingStore {
    /// A store in which neither setting is present.
    pub fn new() -> (r: SettingStore)
        ensures
            r@.renewal_interval is None,
            r@.scale_factor is None,
    {
        SettingStore { renewal_interval: None, scale_factor: None }
    }

    /// The raw text of the renewal interval setting, if it is present.
    pub fn renewal_interval(&self) -> (r: Option<&str>)
        ensures
            match r {
                Some(s) => self@.renewal_interval == Some(s@),
                None => self@.renewal_interval is None,
            },
    {
        match &self.renewal_interval {
            Some(s) => Some(s.as_str()),
            None => None,
        }
    }

    /// The raw text of the scaling factor setting, if it is present.
    pub fn scale_factor(&self) -> (r: Option<&str>)
        ensures
            match r {
                Some(s) => self@.scale_factor == Some(s@),
                None => self@.scale_factor is None,
            },
    {
        match &self.scale_factor {
            Some(s) => Some(s.as_str()),
            None => None,
        }
    }

    /// Sets the renewal interval setting to `text`.
    pub fn set_renewal_interval(&mut self, text: String)
        ensures
            final(self)@ == old(self)@.with_renewal_interval(text@),
    {
        self.renewal_interval = Some(text);
    }

    /// Sets the scaling factor setting to `text`.
    pub fn set_scale_factor(&mut self, text: String)
        ensures
            final(self)@ == old(self)@.with_scale_factor(text@),
    {
        self.scale_factor = Some(text);
    }

    /// Removes the renewal interval setting.
    pub fn clear_renewal_interval(&mut self)
        ensures
            final(self)@ == (SettingsView { renewal_interval: None, ..old(self)@ }),
    {
        self.renewal_interval = None;
    }

    /// Removes the scaling factor setting.
    pub fn clear_scale_factor(&mut self)
        ensures
            final(self)@ == (SettingsView { scale_factor: None, ..old(self)@ }),
    {
        self.scale_factor = None;
    }
}

} // verus!
