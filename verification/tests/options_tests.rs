use geocode::options::{merge, Options, OptionsOpt, OutFormat};

#[test]
fn resolve_empty_overrides_yields_defaults() {
    let r = merge(OptionsOpt { format: None, results: None });
    assert_eq!(r, Options { format: OutFormat::Json, results: 10 });
}

#[test]
fn resolve_results_override_keeps_default_format() {
    let r = merge(OptionsOpt { format: None, results: Some(3) });
    assert_eq!(r, Options { format: OutFormat::Json, results: 3 });
}

#[test]
fn resolve_format_override_keeps_default_results() {
    let r = merge(OptionsOpt { format: Some(OutFormat::Csv), results: None });
    assert_eq!(r, Options { format: OutFormat::Csv, results: 10 });
}

#[test]
fn resolve_both_overrides() {
    let r = merge(OptionsOpt { format: Some(OutFormat::Csv), results: Some(1) });
    assert_eq!(r, Options { format: OutFormat::Csv, results: 1 });
}

#[test]
fn default_options() {
    let d = Options::default();
    assert_eq!(d, Options { format: OutFormat::Json, results: 10 });
}
