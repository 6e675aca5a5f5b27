use geocode::batch::{GeocodeBatchOutput, GeocodeBatchResults};
use geocode::encode::{run_single, GeocodeError};
use geocode::options::OutFormat;
use geocode::record::GeocodeOutput;

fn empty_rec() -> GeocodeOutput {
    GeocodeOutput {
        rating: None,
        lon: None,
        lat: None,
        stno: None,
        street: None,
        styp: None,
        city: None,
        state: None,
        zip: None,
    }
}

fn full_rec() -> GeocodeOutput {
    GeocodeOutput {
        rating: Some(5),
        lon: Some("-71.05".to_string()),
        lat: Some("42.36".to_string()),
        stno: Some(1),
        street: Some("Main".to_string()),
        styp: Some("St".to_string()),
        city: Some("Boston".to_string()),
        state: Some("MA".to_string()),
        zip: Some("02108".to_string()),
    }
}

const FULL_JSON: &str = "{\"rating\":5,\"lon\":-71.05,\"lat\":42.36,\"stno\":1,\
\"street\":\"Main\",\"styp\":\"St\",\"city\":\"Boston\",\"state\":\"MA\",\"zip\":\"02108\"}";

const EMPTY_JSON: &str = "{\"rating\":null,\"lon\":null,\"lat\":null,\"stno\":null,\
\"street\":null,\"styp\":null,\"city\":null,\"state\":null,\"zip\":null}";

#[test]
fn json_records_exact_text() {
    let out = OutFormat::Json.print_records(&vec![full_rec(), empty_rec()]).unwrap();
    assert_eq!(out, format!("[{},{}]", FULL_JSON, EMPTY_JSON));
}

#[test]
fn json_empty_record_list_is_empty_array() {
    let out = OutFormat::Json.print_records(&Vec::new()).unwrap();
    assert_eq!(out, "[]");
}

#[test]
fn json_negative_numbers() {
    let mut r = empty_rec();
    r.rating = Some(-7);
    r.stno = Some(i32::MIN);
    let out = OutFormat::Json.print_records(&vec![r]).unwrap();
    assert_eq!(
        out,
        "[{\"rating\":-7,\"lon\":null,\"lat\":null,\"stno\":-2147483648,\
\"street\":null,\"styp\":null,\"city\":null,\"state\":null,\"zip\":null}]"
    );
}

#[test]
fn json_escapes_quotes_in_strings() {
    let mut r = empty_rec();
    r.street = Some("Main \"X\"".to_string());
    let out = OutFormat::Json.print_records(&vec![r]).unwrap();
    assert_eq!(
        out,
        "[{\"rating\":null,\"lon\":null,\"lat\":null,\"stno\":null,\
\"street\":\"Main \\\"X\\\"\",\"styp\":null,\"city\":null,\"state\":null,\"zip\":null}]"
    );
}

#[test]
fn json_rejects_coordinate_that_is_not_a_number() {
    let mut r = empty_rec();
    r.lon = Some("12.3.4".to_string());
    let got = OutFormat::Json.print_records(&vec![r]);
    assert_eq!(got, Err(GeocodeError::BadCoordinate));
    let mut r2 = empty_rec();
    r2.lat = Some("NaN".to_string());
    assert_eq!(
        OutFormat::Json.print_records(&vec![r2]),
        Err(GeocodeError::BadCoordinate)
    );
}

#[test]
fn csv_accepts_what_json_refuses() {
    let mut r = empty_rec();
    r.lon = Some("not-a-number".to_string());
    let out = OutFormat::Csv.print_records(&vec![r]).unwrap();
    assert_eq!(
        out,
        "rating,lon,lat,stno,street,styp,city,state,zip\n,not-a-number,,,,,,,\n"
    );
}

#[test]
fn csv_records_exact_text() {
    let out = OutFormat::Csv.print_records(&vec![full_rec(), empty_rec()]).unwrap();
    assert_eq!(
        out,
        "rating,lon,lat,stno,street,styp,city,state,zip\n\
5,-71.05,42.36,1,Main,St,Boston,MA,02108\n\
,,,,,,,,\n"
    );
}

#[test]
fn csv_quotes_fields_that_need_it() {
    let mut r = empty_rec();
    r.city = Some("a,b".to_string());
    r.street = Some("say \"hi\"".to_string());
    let out = OutFormat::Csv.print_records(&vec![r]).unwrap();
    assert_eq!(
        out,
        "rating,lon,lat,stno,street,styp,city,state,zip\n\
,,,,\"say \"\"hi\"\"\",,\"a,b\",,\n"
    );
}

#[test]
fn json_batch_keeps_both_sides() {
    let b = GeocodeBatchResults {
        successes: vec![GeocodeBatchOutput {
            address: "1 Main St".to_string(),
            output: full_rec(),
        }],
        errors: vec![("".to_string(), "bad address".to_string())],
    };
    let out = OutFormat::Json.print_batch(&b).unwrap();
    assert_eq!(
        out,
        format!(
            "{{\"successes\":[{{\"address\":\"1 Main St\",{}],\"errors\":[[\"\",\"bad address\"]]}}",
            &FULL_JSON[1..]
        )
    );
}

#[test]
fn json_empty_batch_has_both_keys() {
    let b = GeocodeBatchResults { successes: Vec::new(), errors: Vec::new() };
    let out = OutFormat::Json.print_batch(&b).unwrap();
    assert_eq!(out, "{\"successes\":[],\"errors\":[]}");
}

#[test]
fn csv_batch_never_includes_failure_rows() {
    let b = GeocodeBatchResults {
        successes: vec![GeocodeBatchOutput {
            address: "1 Main St".to_string(),
            output: full_rec(),
        }],
        errors: vec![("broken".to_string(), "boom".to_string())],
    };
    let out = OutFormat::Csv.print_batch(&b).unwrap();
    assert_eq!(
        out,
        "address,rating,lon,lat,stno,street,styp,city,state,zip\n\
1 Main St,5,-71.05,42.36,1,Main,St,Boston,MA,02108\n"
    );
    assert!(!out.contains("boom"));
    assert!(!out.contains("broken"));
}

#[test]
fn csv_batch_with_no_successes_is_header_only() {
    let b = GeocodeBatchResults {
        successes: Vec::new(),
        errors: vec![("x".to_string(), "y".to_string())],
    };
    let out = OutFormat::Csv.print_batch(&b).unwrap();
    assert_eq!(out, "address,rating,lon,lat,stno,street,styp,city,state,zip\n");
}

#[test]
fn encoding_twice_yields_identical_bytes() {
    let b = GeocodeBatchResults {
        successes: vec![GeocodeBatchOutput {
            address: "A".to_string(),
            output: full_rec(),
        }],
        errors: vec![("B".to_string(), "boom".to_string())],
    };
    let one = OutFormat::Json.print_batch(&b).unwrap();
    let two = OutFormat::Json.print_batch(&b).unwrap();
    assert_eq!(one, two);
    let three = OutFormat::Csv.print_batch(&b).unwrap();
    let four = OutFormat::Csv.print_batch(&b).unwrap();
    assert_eq!(three, four);
    let recs = vec![full_rec(), empty_rec()];
    assert_eq!(
        OutFormat::Json.print_records(&recs).unwrap(),
        OutFormat::Json.print_records(&recs).unwrap()
    );
}

#[test]
fn single_mode_rejects_empty_results() {
    let got = run_single(OutFormat::Json, Vec::new());
    assert_eq!(got, Err(GeocodeError::NoResults));
}

#[test]
fn single_mode_renders_nonempty_results() {
    let got = run_single(OutFormat::Json, vec![full_rec()]).unwrap();
    assert_eq!(got, format!("[{}]", FULL_JSON));
}
