use gas_parameters::{
    get_max_price_interval, get_max_price_scale_text, interval_from_text, parse_u64,
    ConfigurationSource, Misconfiguration, RenewalInterval, SettingStore,
};

fn live(interval: Option<&str>, scale: Option<&str>) -> ConfigurationSource {
    let mut store = SettingStore::new();
    if let Some(t) = interval {
        store.set_renewal_interval(t.to_string());
    }
    if let Some(t) = scale {
        store.set_scale_factor(t.to_string());
    }
    ConfigurationSource::Live(store)
}

fn scale_value(source: &ConfigurationSource) -> Result<f64, Misconfiguration> {
    let text = get_max_price_scale_text(source)?;
    text.parse::<f64>().map_err(|_| Misconfiguration::Malformed)
}

#[test]
fn fixed_source_gives_zero_interval() {
    let source = ConfigurationSource::Fixed;
    assert_eq!(get_max_price_interval(&source), Ok(RenewalInterval { secs: 0 }));
}

#[test]
fn fixed_source_gives_fixed_scale() {
    let source = ConfigurationSource::Fixed;
    assert_eq!(get_max_price_scale_text(&source).unwrap(), "1.5");
    assert_eq!(scale_value(&source), Ok(1.5));
}

#[test]
fn repeated_reads_agree() {
    let source = live(Some("12"), Some("1.25"));
    let a = get_max_price_interval(&source);
    let b = get_max_price_interval(&source);
    assert_eq!(a, b);
    assert_eq!(a, Ok(RenewalInterval { secs: 12 }));
    assert_eq!(get_max_price_scale_text(&source), get_max_price_scale_text(&source));
    let fixed = ConfigurationSource::Fixed;
    assert_eq!(get_max_price_interval(&fixed), get_max_price_interval(&fixed));
}

#[test]
fn reads_follow_updates() {
    let mut source = live(Some("30"), Some("2.0"));
    assert_eq!(get_max_price_interval(&source), Ok(RenewalInterval { secs: 30 }));
    if let ConfigurationSource::Live(store) = &mut source {
        store.set_renewal_interval("45".to_string());
        store.set_scale_factor("3.5".to_string());
    }
    assert_eq!(get_max_price_interval(&source), Ok(RenewalInterval { secs: 45 }));
    assert_eq!(scale_value(&source), Ok(3.5));
    if let ConfigurationSource::Live(store) = &mut source {
        store.clear_renewal_interval();
        store.clear_scale_factor();
    }
    assert_eq!(get_max_price_interval(&source), Err(Misconfiguration::Absent));
    assert_eq!(get_max_price_scale_text(&source), Err(Misconfiguration::Absent));
}

#[test]
fn absent_settings_fail() {
    let source = live(None, None);
    assert_eq!(get_max_price_interval(&source), Err(Misconfiguration::Absent));
    assert_eq!(get_max_price_scale_text(&source), Err(Misconfiguration::Absent));
    assert_eq!(interval_from_text(None), Err(Misconfiguration::Absent));
}

#[test]
fn malformed_settings_fail() {
    let source = live(Some("abc"), Some("abc"));
    assert_eq!(get_max_price_interval(&source), Err(Misconfiguration::Malformed));
    assert_eq!(scale_value(&source), Err(Misconfiguration::Malformed));
    assert_eq!(interval_from_text(Some("1.5")), Err(Misconfiguration::Malformed));
    assert_eq!(interval_from_text(Some("")), Err(Misconfiguration::Malformed));
}

#[test]
fn configured_values_are_returned() {
    let source = live(Some("30"), Some("2.0"));
    assert_eq!(get_max_price_interval(&source), Ok(RenewalInterval { secs: 30 }));
    assert_eq!(scale_value(&source), Ok(2.0));
}

#[test]
fn parse_accepts_digits_with_optional_plus() {
    assert_eq!(parse_u64("0"), Some(0));
    assert_eq!(parse_u64("+0"), Some(0));
    assert_eq!(parse_u64("007"), Some(7));
    assert_eq!(parse_u64("+30"), Some(30));
    assert_eq!(parse_u64("1234567890"), Some(1234567890));
}

#[test]
fn parse_rejects_other_text() {
    for text in ["", "+", "-", "-1", " 30", "30 ", "1_000", "++1", "3x", "\u{ff13}", "٣"] {
        assert_eq!(parse_u64(text), None, "{:?}", text);
    }
}

#[test]
fn parse_handles_the_largest_value() {
    assert_eq!(parse_u64("18446744073709551615"), Some(u64::MAX));
    assert_eq!(parse_u64("18446744073709551616"), None);
    assert_eq!(parse_u64("99999999999999999999"), None);
    assert_eq!(parse_u64("000018446744073709551615"), Some(u64::MAX));
}

#[test]
fn parse_agrees_with_std() {
    for text in ["0", "+7", "-7", "42", "18446744073709551615", "18446744073709551616", "x", ""] {
        assert_eq!(parse_u64(text), text.parse::<u64>().ok(), "{:?}", text);
    }
}

#[test]
fn store_reports_its_settings() {
    let mut store = SettingStore::new();
    assert_eq!(store.renewal_interval(), None);
    assert_eq!(store.scale_factor(), None);
    store.set_renewal_interval("5".to_string());
    store.set_scale_factor("1.1".to_string());
    assert_eq!(store.renewal_interval(), Some("5"));
    assert_eq!(store.scale_factor(), Some("1.1"));
}
