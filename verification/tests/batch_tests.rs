use geocode::batch::{run_batch, LookupOutcome};
use geocode::record::GeocodeOutput;

fn rec(rating: i32) -> GeocodeOutput {
    GeocodeOutput {
        rating: Some(rating),
        lon: None,
        lat: None,
        stno: None,
        street: None,
        styp: None,
        city: None,
        state: None,
        zip: None,
    }
}

#[test]
fn middle_failure_keeps_input_order() {
    let addresses = vec!["A".to_string(), "B".to_string(), "C".to_string()];
    let outcomes: Vec<LookupOutcome> = vec![
        Ok(vec![rec(1), rec(2)]),
        Err("boom".to_string()),
        Ok(vec![rec(3)]),
    ];
    let r = run_batch(addresses, outcomes);
    assert_eq!(r.errors, vec![("B".to_string(), "boom".to_string())]);
    let got: Vec<(&str, i32)> = r
        .successes
        .iter()
        .map(|it| (it.address.as_str(), it.output.rating.unwrap()))
        .collect();
    assert_eq!(got, vec![("A", 1), ("A", 2), ("C", 3)]);
}

#[test]
fn empty_address_failure_scenario() {
    let addresses = vec!["1 Main St".to_string(), "".to_string(), "2 Oak Ave".to_string()];
    let outcomes: Vec<LookupOutcome> = vec![
        Ok(vec![rec(1)]),
        Err("address did not resolve".to_string()),
        Ok(vec![rec(2)]),
    ];
    let r = run_batch(addresses, outcomes);
    let got: Vec<&str> = r.successes.iter().map(|it| it.address.as_str()).collect();
    assert_eq!(got, vec!["1 Main St", "2 Oak Ave"]);
    assert_eq!(r.errors.len(), 1);
    assert_eq!(r.errors[0].0, "");
    assert_eq!(r.errors[0].1, "address did not resolve");
}

#[test]
fn zero_candidate_success_is_dropped_from_both_sides() {
    let addresses = vec![
        "A".to_string(),
        "B".to_string(),
        "C".to_string(),
        "D".to_string(),
    ];
    let outcomes: Vec<LookupOutcome> = vec![
        Ok(vec![rec(1)]),
        Err("no route".to_string()),
        Ok(vec![]),
        Ok(vec![rec(2), rec(3)]),
    ];
    let r = run_batch(addresses, outcomes);
    // Addresses that contributed records, counted once each, plus the
    // failures, make the input count minus the record-less successes.
    let mut sources: Vec<&str> = r.successes.iter().map(|it| it.address.as_str()).collect();
    sources.dedup();
    assert_eq!(sources, vec!["A", "D"]);
    assert_eq!(sources.len() + r.errors.len(), 4 - 1);
    // The record-less address appears on neither side.
    assert!(r.successes.iter().all(|it| it.address != "C"));
    assert!(r.errors.iter().all(|e| e.0 != "C"));
}

#[test]
fn all_failures_yield_empty_successes() {
    let addresses = vec!["x".to_string(), "y".to_string()];
    let outcomes: Vec<LookupOutcome> =
        vec![Err("one".to_string()), Err("two".to_string())];
    let r = run_batch(addresses, outcomes);
    assert!(r.successes.is_empty());
    assert_eq!(
        r.errors,
        vec![
            ("x".to_string(), "one".to_string()),
            ("y".to_string(), "two".to_string())
        ]
    );
}

#[test]
fn empty_batch_yields_empty_result() {
    let r = run_batch(Vec::new(), Vec::new());
    assert!(r.successes.is_empty());
    assert!(r.errors.is_empty());
}

#[test]
fn record_fields_carry_through() {
    let addresses = vec!["5 Elm St".to_string()];
    let full = GeocodeOutput {
        rating: Some(0),
        lon: Some("-71.05".to_string()),
        lat: Some("42.36".to_string()),
        stno: Some(5),
        street: Some("Elm".to_string()),
        styp: Some("St".to_string()),
        city: Some("Boston".to_string()),
        state: Some("MA".to_string()),
        zip: Some("02108".to_string()),
    };
    let outcomes: Vec<LookupOutcome> = vec![Ok(vec![full])];
    let r = run_batch(addresses, outcomes);
    assert_eq!(r.successes.len(), 1);
    let it = &r.successes[0];
    assert_eq!(it.address, "5 Elm St");
    assert_eq!(it.output.lon.as_deref(), Some("-71.05"));
    assert_eq!(it.output.zip.as_deref(), Some("02108"));
}
