//! The gas adjuster's parameters: the renewal interval of the maximum gas
//! price and its scaling factor, read afresh from a configuration source on
//! every call.
use vstd::prelude::*;
use crate::decimal::{parse_u64, parsed_u64, is_digit_string, unsigned_part};
use crate::settings::{SettingStore, SettingsView};

verus! {

/// Text of the scaling factor that the fixed source supplies.
pub const FIXED_SCALE_FACTOR: &'static str = "1.5";

/// How often the upper limit of the gas price is recomputed, in whole seconds.
#[derive(Clone, Copy, Debug, PartialEq, Eq, Structural)]
pub struct RenewalInterval {
    pub secs: u64,
}

/// A required setting is missing or cannot be read as its type. This is
/// fatal: the caller must not go on without a limit on the gas price.
#[derive(Clone, Copy, Debug, PartialEq, Eq, Structural)]
pub enum Misconfiguration {
    /// The setting is not present.
    Absent,
    /// The setting is present, but its text is not a value of the expected type.
    Malformed,
}

/// Where the parameters come from. One source is chosen for the whole life of
/// a process.
pub enum ConfigurationSource {
    /// The live settings, read at the time of each call.
    Live(SettingStore),
    /// Constant values, for running dependent logic deterministically: a zero
    /// interval and a scaling factor of [`FIXED_SCALE_FACTOR`].
    Fixed,
}

/// What a configuration source holds.
pub enum SourceView {
    Live(SettingsView),
    Fixed,
}

impl View for ConfigurationSource {
    type V = SourceView;

    open spec fn view(&self) -> SourceView {
        match self {
            ConfigurationSource::Live(store) => SourceView::Live(store@),
            ConfigurationSource::Fixed => SourceView::Fixed,
        }
    }
}

/// The renewal interval that a setting with the given text denotes.
pub open spec fn interval_from_setting(text: Option<Seq<char>>) -> Result<
    RenewalInterval,
    Misconfiguration,
> {
    match text {
        None => Err(Misconfiguration::Absent),
        Some(t) => match parsed_u64(t) {
            Some(secs) => Ok(RenewalInterval { secs }),
            None => Err(Misconfiguration::Malformed),
        },
    }
}

/// The text of the scaling factor that a setting holds.
pub open spec fn scale_text_from_setting(text: Option<Seq<char>>) -> Result<
    Seq<char>,
    Misconfiguration,
> {
    match text {
        None => Err(Misconfiguration::Absent),
        Some(t) => Ok(t),
    }
}

/// The renewal interval that a source gives.
pub open spec fn interval_of(source: SourceView) -> Result<RenewalInterval, Misconfiguration> {
    match source {
        SourceView::Live(settings) => interval_from_setting(settings.renewal_interval),
        SourceView::Fixed => Ok(RenewalInterval { secs: 0 }),
    }
}

/// The text of the scaling factor that a source gives.
pub open spec fn scale_text_of(source: SourceView) -> Result<Seq<char>, Misconfiguration> {
    match source {
        SourceView::Live(settings) => scale_text_from_setting(settings.scale_factor),
        SourceView::Fixed => Ok(FIXED_SCALE_FACTOR@),
    }
}

/// Reads a renewal interval from the raw text of its setting.
pub fn interval_from_text(text: Option<&str>) -> (r: Result<RenewalInterval, Misconfiguration>)
    ensures
        r == interval_from_setting(
            match text {
                Some(t) => Some(t@),
                None => None,
            },
        ),
{
    match text {
        None => Err(Misconfiguration::Absent),
        Some(t) => match parse_u64(t) {
            Some(secs) => Ok(RenewalInterval { secs }),
            None => Err(Misconfiguration::Malformed),
        },
    }
}

/// Obtains the interval for renewing the maximum gas price.
///
/// The value is not cached: an administrator may change the live setting of a
/// running process, and the next call sees the change.
pub fn get_max_price_interval(source: &ConfigurationSource) -> (r: Result<
    RenewalInterval,
    Misconfiguration,
>)
    ensures
        r == interval_of(source@),
{
    match source {
        ConfigurationSource::Live(store) => interval_from_text(store.renewal_interval()),
        ConfigurationSource::Fixed => Ok(RenewalInterval { secs: 0 }),
    }
}

/// Obtains the text of the scaling factor for the maximum gas price, which
/// the caller reads as a floating-point number.
///
/// The value is not cached, as for [`get_max_price_interval`].
pub fn get_max_price_scale_text(source: &ConfigurationSource) -> (r: Result<
    String,
    Misconfiguration,
>)
    ensures
        match r {
            Ok(s) => scale_text_of(source@) == Ok::<Seq<char>, Misconfiguration>(s@),
            Err(e) => scale_text_of(source@) == Err::<Seq<char>, Misconfiguration>(e),
        },
{
    match source {
        ConfigurationSource::Live(store) => match store.scale_factor() {
            Some(t) => Ok(t.to_owned()),
            None => Err(Misconfiguration::Absent),
        },
        ConfigurationSource::Fixed => Ok(FIXED_SCALE_FACTOR.to_owned()),
    }
}

/// The fixed source gives a zero renewal interval and the fixed scaling factor.
pub proof fn lemma_fixed_source_values()
    ensures
        interval_of(SourceView::Fixed) == Ok::<RenewalInterval, Misconfiguration>(
            RenewalInterval { secs: 0 },
        ),
        scale_text_of(SourceView::Fixed) == Ok::<Seq<char>, Misconfiguration>(
            FIXED_SCALE_FACTOR@,
        ),
{
}

/// Two reads from sources that hold the same settings give the same values:
/// reading does not depend on anything but what the source holds now.
pub proof fn lemma_reads_agree(a: SourceView, b: SourceView)
    requires
        a == b,
    ensures
        interval_of(a) == interval_of(b),
        scale_text_of(a) == scale_text_of(b),
{
}

/// After a live setting changes, a read gives what the new text denotes,
/// whatever the setting held before.
pub proof fn lemma_reads_follow_updates(settings: SettingsView, text: Seq<char>)
    ensures
        interval_of(SourceView::Live(settings.with_renewal_interval(text)))
            == interval_from_setting(Some(text)),
        scale_text_of(SourceView::Live(settings.with_scale_factor(text))) == Ok::<
            Seq<char>,
            Misconfiguration,
        >(text),
        interval_of(SourceView::Live(settings.with_scale_factor(text))) == interval_of(
            SourceView::Live(settings),
        ),
        scale_text_of(SourceView::Live(settings.with_renewal_interval(text))) == scale_text_of(
            SourceView::Live(settings),
        ),
{
}

/// A live setting that is absent makes its read fail, never default.
pub proof fn lemma_absent_setting_fails(settings: SettingsView)
    ensures
        settings.renewal_interval is None ==> interval_of(SourceView::Live(settings)) == Err::<
            RenewalInterval,
            Misconfiguration,
        >(Misconfiguration::Absent),
        settings.scale_factor is None ==> scale_text_of(SourceView::Live(settings)) == Err::<
            Seq<char>,
            Misconfiguration,
        >(Misconfiguration::Absent),
{
}

/// A renewal interval whose text is not an optionally signed run of decimal
/// digits makes the read fail, never fall back to a default.
pub proof fn lemma_malformed_interval_fails(settings: SettingsView, text: Seq<char>)
    requires
        settings.renewal_interval == Some(text),
        !is_digit_string(unsigned_part(text)),
    ensures
        interval_of(SourceView::Live(settings)) == Err::<RenewalInterval, Misconfiguration>(
            Misconfiguration::Malformed,
        ),
{
}

} // verus!
