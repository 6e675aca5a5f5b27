//! Rendering a list of records, or a partitioned batch result, as structured
//! (JSON) or tabular (CSV) text.
//!
//! Structured output keeps the full shape: a batch renders as an object with
//! a `successes` and an `errors` key, each an array, so a caller can tell
//! partial failures apart. Tabular output is one header row and one row per
//! record; failures have no place in the flat schema and are dropped.
//!
//! JSON string escaping and CSV row quoting are the work of outside crates;
//! everything around them — field order, the object and array framing, the
//! header, which rows appear — is this module's verified logic.

use vstd::prelude::*;
use vstd::string::StringExecFns;
use crate::batch::{BatchV, GeocodeBatchOutput, GeocodeBatchResults, ItemV};
use crate::numeral::{dec_int, is_number_str, push_dec_i32};
use crate::options::OutFormat;
use crate::record::{opt_int_view, opt_str_view, record_wf, GeocodeOutput, RecordV};

verus! {

/// Why a request cannot be answered: the single-mode lookup matched nothing,
/// or a coordinate field of a record to be rendered is not decimal number
/// text.
#[derive(Clone, Copy, Debug, PartialEq, Eq, Structural)]
pub enum GeocodeError {
    NoResults,
    BadCoordinate,
}

/// The JSON string literal (quotes and escapes included) that serde_json
/// writes for a string with these characters.
pub uninterp spec fn json_string_of(s: Seq<char>) -> Seq<char>;

/// Relies on serde_json::to_string on a string slice: it returns the escaped
/// JSON string literal, a function of the characters alone, and on a string
/// it cannot fail.
#[verifier::external_body]
fn json_quote(s: &str) -> (r: String)
    ensures
        r@ == json_string_of(s@),
{
    serde_json::to_string(s).unwrap()
}

/// The CSV line (fields joined by commas, quoted as needed, newline
/// terminated) that the csv crate writes for one record of these fields
/// under its default configuration.
pub uninterp spec fn csv_row_of(fields: Seq<Seq<char>>) -> Seq<char>;

/// Relies on csv::Writer::write_record with the default configuration: the
/// line it writes is a function of the fields alone. One record written to an
/// in-memory buffer cannot fail, and its bytes are valid UTF-8 when the
/// fields are.
#[verifier::external_body]
fn csv_row(fields: &Vec<String>) -> (r: String)
    ensures
        r@ == csv_row_of(fields.deep_view()),
{
    let mut w = csv::Writer::from_writer(Vec::new());
    w.write_record(fields).unwrap();
    String::from_utf8(w.into_inner().unwrap()).unwrap()
}

// ---------------------------------------------------------------------------
// Structured (JSON) text, as spec functions.
// ---------------------------------------------------------------------------
/// An optional integer field: its decimal text, or `null`.
pub open spec fn json_opt_int(v: Option<int>) -> Seq<char> {
    match v {
        Some(n) => dec_int(n),
        None => "null"@,
    }
}

/// An optional number-text field, emitted bare: coordinates are already
/// decimal text and stand as JSON numbers.
pub open spec fn json_opt_raw(v: Option<Seq<char>>) -> Seq<char> {
    match v {
        Some(s) => s,
        None => "null"@,
    }
}

/// An optional string field: a JSON string literal, or `null`.
pub open spec fn json_opt_string(v: Option<Seq<char>>) -> Seq<char> {
    match v {
        Some(s) => json_string_of(s),
        None => "null"@,
    }
}

/// The members of one record's JSON object, in declaration order.
pub open spec fn json_record_fields(r: RecordV) -> Seq<char> {
    "\"rating\":"@ + json_opt_int(r.rating) + ",\"lon\":"@ + json_opt_raw(r.lon) + ",\"lat\":"@
        + json_opt_raw(r.lat) + ",\"stno\":"@ + json_opt_int(r.stno) + ",\"street\":"@
        + json_opt_string(r.street) + ",\"styp\":"@ + json_opt_string(r.styp) + ",\"city\":"@
        + json_opt_string(r.city) + ",\"state\":"@ + json_opt_string(r.state) + ",\"zip\":"@
        + json_opt_string(r.zip)
}

/// One record as a JSON object.
pub open spec fn json_record(r: RecordV) -> Seq<char> {
    "{"@ + json_record_fields(r) + "}"@
}

/// One success entry as a JSON object: the address member first, then the
/// record's members, flattened into the same object.
pub open spec fn json_item(it: ItemV) -> Seq<char> {
    "{\"address\":"@ + json_string_of(it.address) + ","@ + json_record_fields(it.output) + "}"@
}

/// One failure as a two-element JSON array: address, then message.
pub open spec fn json_error(e: (Seq<char>, Seq<char>)) -> Seq<char> {
    "["@ + json_string_of(e.0) + ","@ + json_string_of(e.1) + "]"@
}

/// The first `n` records, rendered and joined by commas.
pub open spec fn json_records_body(rs: Seq<RecordV>, n: int) -> Seq<char>
    decreases n,
{
    if n <= 0 {
        Seq::empty()
    } else if n == 1 {
        json_record(rs[0])
    } else {
        json_records_body(rs, n - 1) + ","@ + json_record(rs[n - 1])
    }
}

/// The first `n` success entries, rendered and joined by commas.
pub open spec fn json_items_body(its: Seq<ItemV>, n: int) -> Seq<char>
    decreases n,
{
    if n <= 0 {
        Seq::empty()
    } else if n == 1 {
        json_item(its[0])
    } else {
        json_items_body(its, n - 1) + ","@ + json_item(its[n - 1])
    }
}

/// The first `n` failures, rendered and joined by commas.
pub open spec fn json_errors_body(es: Seq<(Seq<char>, Seq<char>)>, n: int) -> Seq<char>
    decreases n,
{
    if n <= 0 {
        Seq::empty()
    } else if n == 1 {
        json_error(es[0])
    } else {
        json_errors_body(es, n - 1) + ","@ + json_error(es[n - 1])
    }
}

/// A bare list of records as a JSON array.
pub open spec fn json_records(rs: Seq<RecordV>) -> Seq<char> {
    "["@ + json_records_body(rs, rs.len() as int) + "]"@
}

/// The success entries as a JSON array.
pub open spec fn json_items_arr(its: Seq<ItemV>) -> Seq<char> {
    "["@ + json_items_body(its, its.len() as int) + "]"@
}

/// The failures as a JSON array.
pub open spec fn json_errors_arr(es: Seq<(Seq<char>, Seq<char>)>) -> Seq<char> {
    "["@ + json_errors_body(es, es.len() as int) + "]"@
}

/// A batch result as a JSON object with both sides, successes first.
pub open spec fn json_batch(b: BatchV) -> Seq<char> {
    "{\"successes\":"@ + json_items_arr(b.successes) + ",\"errors\":"@ + json_errors_arr(b.errors)
        + "}"@
}

// ---------------------------------------------------------------------------
// Tabular (CSV) text, as spec functions.
// ---------------------------------------------------------------------------
/// An optional integer as a CSV field: decimal text, or an empty cell.
pub open spec fn csv_opt_int(v: Option<int>) -> Seq<char> {
    match v {
        Some(n) => dec_int(n),
        None => Seq::empty(),
    }
}

/// An optional text value as a CSV field: the text, or an empty cell.
pub open spec fn csv_opt_text(v: Option<Seq<char>>) -> Seq<char> {
    match v {
        Some(s) => s,
        None => Seq::empty(),
    }
}

/// One record's CSV fields, in declaration order.
pub open spec fn record_fields(r: RecordV) -> Seq<Seq<char>> {
    seq![
        csv_opt_int(r.rating),
        csv_opt_text(r.lon),
        csv_opt_text(r.lat),
        csv_opt_int(r.stno),
        csv_opt_text(r.street),
        csv_opt_text(r.styp),
        csv_opt_text(r.city),
        csv_opt_text(r.state),
        csv_opt_text(r.zip),
    ]
}

/// The header fields for a bare record list: the record's field names.
pub open spec fn csv_records_header() -> Seq<Seq<char>> {
    seq!["rating"@, "lon"@, "lat"@, "stno"@, "street"@, "styp"@, "city"@, "state"@, "zip"@]
}

/// The header fields for a batch: the address column, then the record's.
pub open spec fn csv_batch_header() -> Seq<Seq<char>> {
    seq!["address"@] + csv_records_header()
}

/// The rows of the first `n` records.
pub open spec fn csv_records_body(rs: Seq<RecordV>, n: int) -> Seq<char>
    decreases n,
{
    if n <= 0 {
        Seq::empty()
    } else {
        csv_records_body(rs, n - 1) + csv_row_of(record_fields(rs[n - 1]))
    }
}

/// The rows of the first `n` success entries: the address cell, then the
/// record's cells.
pub open spec fn csv_items_body(its: Seq<ItemV>, n: int) -> Seq<char>
    decreases n,
{
    if n <= 0 {
        Seq::empty()
    } else {
        csv_items_body(its, n - 1) + csv_row_of(seq![its[n - 1].address] + record_fields(
            its[n - 1].output,
        ))
    }
}

/// A bare list of records as CSV text: header row, then one row per record.
pub open spec fn csv_records(rs: Seq<RecordV>) -> Seq<char> {
    csv_row_of(csv_records_header()) + csv_records_body(rs, rs.len() as int)
}

/// A batch result as CSV text: header row, then one row per success entry.
/// The failures appear nowhere: the flat schema cannot carry them.
pub open spec fn csv_batch(b: BatchV) -> Seq<char> {
    csv_row_of(csv_batch_header()) + csv_items_body(b.successes, b.successes.len() as int)
}

// ---------------------------------------------------------------------------
// What rendering returns.
// ---------------------------------------------------------------------------
pub open spec fn records_wf(rs: Seq<RecordV>) -> bool {
    forall|i: int| 0 <= i < rs.len() ==> record_wf(#[trigger] rs[i])
}

pub open spec fn items_wf(its: Seq<ItemV>) -> bool {
    forall|i: int| 0 <= i < its.len() ==> record_wf(#[trigger] its[i].output)
}

/// The text a record list renders to: CSV always succeeds; JSON requires
/// every coordinate to be decimal number text, and otherwise refuses the
/// payload.
pub open spec fn rendered_records(f: OutFormat, rs: Seq<RecordV>) -> Result<Seq<char>, GeocodeError> {
    match f {
        OutFormat::Json => if records_wf(rs) {
            Ok(json_records(rs))
        } else {
            Err(GeocodeError::BadCoordinate)
        },
        OutFormat::Csv => Ok(csv_records(rs)),
    }
}

/// The text a batch result renders to, by the same rule.
pub open spec fn rendered_batch(f: OutFormat, b: BatchV) -> Result<Seq<char>, GeocodeError> {
    match f {
        OutFormat::Json => if items_wf(b.successes) {
            Ok(json_batch(b))
        } else {
            Err(GeocodeError::BadCoordinate)
        },
        OutFormat::Csv => Ok(csv_batch(b)),
    }
}

/// A rendering outcome with the text taken as its characters.
pub open spec fn res_text(r: Result<String, GeocodeError>) -> Result<Seq<char>, GeocodeError> {
    match r {
        Ok(s) => Ok(s@),
        Err(e) => Err(e),
    }
}

// ---------------------------------------------------------------------------
// Executable rendering.
// ---------------------------------------------------------------------------
fn record_ok(rec: &GeocodeOutput) -> (b: bool)
    ensures
        b == record_wf(rec@),
{
    let lon_ok = match &rec.lon {
        Some(s) => is_number_str(s.as_str()),
        None => true,
    };
    let lat_ok = match &rec.lat {
        Some(s) => is_number_str(s.as_str()),
        None => true,
    };
    lon_ok && lat_ok
}

fn push_json_opt_int(v: &Option<i32>, out: &mut String)
    ensures
        final(out)@ == old(out)@ + json_opt_int(opt_int_view(*v)),
{
    match v {
        Some(n) => push_dec_i32(*n, out),
        None => out.append("null"),
    }
}

fn push_json_opt_raw(v: &Option<String>, out: &mut String)
    ensures
        final(out)@ == old(out)@ + json_opt_raw(opt_str_view(*v)),
{
    match v {
        Some(s) => out.append(s.as_str()),
        None => out.append("null"),
    }
}

fn push_json_opt_string(v: &Option<String>, out: &mut String)
    ensures
        final(out)@ == old(out)@ + json_opt_string(opt_str_view(*v)),
{
    match v {
        Some(s) => {
            let q = json_quote(s.as_str());
            out.append(q.as_str());
        },
        None => out.append("null"),
    }
}

proof fn lemma_shift_two(o: Seq<char>, p: Seq<char>, a: Seq<char>, b: Seq<char>)
    ensures
        o + p + a + b == o + (p + a + b),
{
    assert(o + p + a + b =~= o + (p + a + b));
}

fn push_json_record_fields(rec: &GeocodeOutput, out: &mut String)
    ensures
        final(out)@ == old(out)@ + json_record_fields(rec@),
{
    let ghost o = old(out)@;
    let ghost r = rec@;
    out.append("\"rating\":");
    push_json_opt_int(&rec.rating, out);
    proof {
        assert(o + "\"rating\":"@ + json_opt_int(r.rating) =~= o + ("\"rating\":"@ + json_opt_int(
            r.rating,
        )));
    }
    let ghost p1 = "\"rating\":"@ + json_opt_int(r.rating);
    out.append(",\"lon\":");
    push_json_opt_raw(&rec.lon, out);
    proof {
        lemma_shift_two(o, p1, ",\"lon\":"@, json_opt_raw(r.lon));
    }
    let ghost p2 = p1 + ",\"lon\":"@ + json_opt_raw(r.lon);
    out.append(",\"lat\":");
    push_json_opt_raw(&rec.lat, out);
    proof {
        lemma_shift_two(o, p2, ",\"lat\":"@, json_opt_raw(r.lat));
    }
    let ghost p3 = p2 + ",\"lat\":"@ + json_opt_raw(r.lat);
    out.append(",\"stno\":");
    push_json_opt_int(&rec.stno, out);
    proof {
        lemma_shift_two(o, p3, ",\"stno\":"@, json_opt_int(r.stno));
    }
    let ghost p4 = p3 + ",\"stno\":"@ + json_opt_int(r.stno);
    out.append(",\"street\":");
    push_json_opt_string(&rec.street, out);
    proof {
        lemma_shift_two(o, p4, ",\"street\":"@, json_opt_string(r.street));
    }
    let ghost p5 = p4 + ",\"street\":"@ + json_opt_string(r.street);
    out.append(",\"styp\":");
    push_json_opt_string(&rec.styp, out);
    proof {
        lemma_shift_two(o, p5, ",\"styp\":"@, json_opt_string(r.styp));
    }
    let ghost p6 = p5 + ",\"styp\":"@ + json_opt_string(r.styp);
    out.append(",\"city\":");
    push_json_opt_string(&rec.city, out);
    proof {
        lemma_shift_two(o, p6, ",\"city\":"@, json_opt_string(r.city));
    }
    let ghost p7 = p6 + ",\"city\":"@ + json_opt_string(r.city);
    out.append(",\"state\":");
    push_json_opt_string(&rec.state, out);
    proof {
        lemma_shift_two(o, p7, ",\"state\":"@, json_opt_string(r.state));
    }
    let ghost p8 = p7 + ",\"state\":"@ + json_opt_string(r.state);
    out.append(",\"zip\":");
    push_json_opt_string(&rec.zip, out);
    proof {
        lemma_shift_two(o, p8, ",\"zip\":"@, json_opt_string(r.zip));
        assert(json_record_fields(r) == p8 + ",\"zip\":"@ + json_opt_string(r.zip));
    }
}

fn push_json_record(rec: &GeocodeOutput, out: &mut String)
    ensures
        final(out)@ == old(out)@ + json_record(rec@),
{
    out.append("{");
    push_json_record_fields(rec, out);
    out.append("}");
    proof {
        assert(out@ =~= old(out)@ + json_record(rec@));
    }
}

fn push_json_item(it: &GeocodeBatchOutput, out: &mut String)
    ensures
        final(out)@ == old(out)@ + json_item(it@),
{
    out.append("{\"address\":");
    let q = json_quote(it.address.as_str());
    out.append(q.as_str());
    out.append(",");
    push_json_record_fields(&it.output, out);
    out.append("}");
    proof {
        assert(out@ =~= old(out)@ + json_item(it@));
    }
}

fn push_json_error(e: &(String, String), out: &mut String)
    ensures
        final(out)@ == old(out)@ + json_error(e.deep_view()),
{
    out.append("[");
    let q0 = json_quote(e.0.as_str());
    out.append(q0.as_str());
    out.append(",");
    let q1 = json_quote(e.1.as_str());
    out.append(q1.as_str());
    out.append("]");
    proof {
        assert(out@ =~= old(out)@ + json_error(e.deep_view()));
    }
}

fn json_of_records(rs: &Vec<GeocodeOutput>) -> (r: String)
    ensures
        r@ == json_records(rs.deep_view()),
{
    let ghost dv = rs.deep_view();
    let mut out = String::new();
    out.append("[");
    let mut i: usize = 0;
    while i < rs.len()
        invariant
            dv == rs.deep_view(),
            dv.len() == rs@.len(),
            0 <= i <= rs@.len(),
            out@ == "["@ + json_records_body(dv, i as int),
        decreases rs@.len() - i,
    {
        let ghost before = out@;
        if i > 0 {
            out.append(",");
        }
        push_json_record(&rs[i], &mut out);
        proof {
            assert(dv[i as int] == rs@[i as int]@);
            if i == 0 {
                assert(out@ =~= "["@ + json_records_body(dv, 1));
            } else {
                assert(out@ =~= "["@ + (json_records_body(dv, i as int) + ","@ + json_record(
                    dv[i as int],
                )));
            }
        }
        i += 1;
    }
    out.append("]");
    proof {
        assert(out@ =~= json_records(dv));
    }
    out
}

fn json_of_batch(b: &GeocodeBatchResults) -> (r: String)
    ensures
        r@ == json_batch(b@),
{
    let ghost sv = b.successes.deep_view();
    let ghost ev = b.errors.deep_view();
    let mut out = String::new();
    out.append("{\"successes\":");
    proof {
        assert(out@ =~= "{\"successes\":"@);
    }
    out.append("[");
    let ghost g1 = "{\"successes\":"@ + "["@;
    let mut i: usize = 0;
    while i < b.successes.len()
        invariant
            sv == b.successes.deep_view(),
            sv.len() == b.successes@.len(),
            0 <= i <= b.successes@.len(),
            out@ == g1 + json_items_body(sv, i as int),
        decreases b.successes@.len() - i,
    {
        if i > 0 {
            out.append(",");
        }
        push_json_item(&b.successes[i], &mut out);
        proof {
            assert(sv[i as int] == b.successes@[i as int]@);
            if i == 0 {
                assert(out@ =~= g1 + json_items_body(sv, 1));
            } else {
                assert(out@ =~= g1 + (json_items_body(sv, i as int) + ","@ + json_item(
                    sv[i as int],
                )));
            }
        }
        i += 1;
    }
    out.append("]");
    proof {
        assert(out@ =~= "{\"successes\":"@ + json_items_arr(sv));
    }
    let ghost g2 = "{\"successes\":"@ + json_items_arr(sv);
    out.append(",\"errors\":");
    out.append("[");
    let ghost g3 = g2 + ",\"errors\":"@ + "["@;
    proof {
        assert(out@ =~= g3);
    }
    let mut j: usize = 0;
    while j < b.errors.len()
        invariant
            ev == b.errors.deep_view(),
            ev.len() == b.errors@.len(),
            0 <= j <= b.errors@.len(),
            out@ == g3 + json_errors_body(ev, j as int),
        decreases b.errors@.len() - j,
    {
        if j > 0 {
            out.append(",");
        }
        push_json_error(&b.errors[j], &mut out);
        proof {
            assert(ev[j as int] == b.errors@[j as int].deep_view());
            if j == 0 {
                assert(out@ =~= g3 + json_errors_body(ev, 1));
            } else {
                assert(out@ =~= g3 + (json_errors_body(ev, j as int) + ","@ + json_error(
                    ev[j as int],
                )));
            }
        }
        j += 1;
    }
    out.append("]");
    proof {
        assert(out@ =~= g2 + ",\"errors\":"@ + json_errors_arr(ev));
    }
    out.append("}");
    proof {
        assert(out@ =~= json_batch(b@));
    }
    out
}

fn csv_int_field(v: &Option<i32>) -> (r: String)
    ensures
        r@ == csv_opt_int(opt_int_view(*v)),
{
    match v {
        Some(n) => {
            let mut s = String::new();
            push_dec_i32(*n, &mut s);
            proof {
                assert(Seq::empty() + dec_int(*n as int) =~= dec_int(*n as int));
            }
            s
        },
        None => String::new(),
    }
}

fn csv_text_field(v: &Option<String>) -> (r: String)
    ensures
        r@ == csv_opt_text(opt_str_view(*v)),
{
    match v {
        Some(s) => s.clone(),
        None => String::new(),
    }
}

fn push_csv_record_fields(rec: &GeocodeOutput, fields: &mut Vec<String>)
    ensures
        final(fields).deep_view() == old(fields).deep_view() + record_fields(rec@),
{
    fields.push(csv_int_field(&rec.rating));
    fields.push(csv_text_field(&rec.lon));
    fields.push(csv_text_field(&rec.lat));
    fields.push(csv_int_field(&rec.stno));
    fields.push(csv_text_field(&rec.street));
    fields.push(csv_text_field(&rec.styp));
    fields.push(csv_text_field(&rec.city));
    fields.push(csv_text_field(&rec.state));
    fields.push(csv_text_field(&rec.zip));
    proof {
        assert(fields.deep_view() =~= old(fields).deep_view() + record_fields(rec@));
    }
}

fn push_csv_header(fields: &mut Vec<String>)
    ensures
        final(fields).deep_view() == old(fields).deep_view() + csv_records_header(),
{
    fields.push(String::from_str("rating"));
    fields.push(String::from_str("lon"));
    fields.push(String::from_str("lat"));
    fields.push(String::from_str("stno"));
    fields.push(String::from_str("street"));
    fields.push(String::from_str("styp"));
    fields.push(String::from_str("city"));
    fields.push(String::from_str("state"));
    fields.push(String::from_str("zip"));
    proof {
        assert(fields.deep_view() =~= old(fields).deep_view() + csv_records_header());
    }
}

fn csv_of_records(rs: &Vec<GeocodeOutput>) -> (r: String)
    ensures
        r@ == csv_records(rs.deep_view()),
{
    let ghost dv = rs.deep_view();
    let mut hf: Vec<String> = Vec::new();
    push_csv_header(&mut hf);
    proof {
        assert(hf.deep_view() =~= csv_records_header());
    }
    let mut out = csv_row(&hf);
    let mut i: usize = 0;
    while i < rs.len()
        invariant
            dv == rs.deep_view(),
            dv.len() == rs@.len(),
            0 <= i <= rs@.len(),
            out@ == csv_row_of(csv_records_header()) + csv_records_body(dv, i as int),
        decreases rs@.len() - i,
    {
        let mut f: Vec<String> = Vec::new();
        push_csv_record_fields(&rs[i], &mut f);
        proof {
            assert(dv[i as int] == rs@[i as int]@);
            assert(f.deep_view() =~= record_fields(dv[i as int]));
        }
        let row = csv_row(&f);
        out.append(row.as_str());
        proof {
            assert(csv_row_of(csv_records_header()) + csv_records_body(dv, i as int) + csv_row_of(
                record_fields(dv[i as int]),
            ) =~= csv_row_of(csv_records_header()) + (csv_records_body(dv, i as int) + csv_row_of(
                record_fields(dv[i as int]),
            )));
        }
        i += 1;
    }
    proof {
        assert(out@ == csv_records(dv));
    }
    out
}

fn csv_of_batch(b: &GeocodeBatchResults) -> (r: String)
    ensures
        r@ == csv_batch(b@),
{
    let ghost sv = b.successes.deep_view();
    let mut hf: Vec<String> = Vec::new();
    hf.push(String::from_str("address"));
    push_csv_header(&mut hf);
    proof {
        assert(hf.deep_view() =~= csv_batch_header());
    }
    let mut out = csv_row(&hf);
    let mut i: usize = 0;
    while i < b.successes.len()
        invariant
            sv == b.successes.deep_view(),
            sv.len() == b.successes@.len(),
            0 <= i <= b.successes@.len(),
            out@ == csv_row_of(csv_batch_header()) + csv_items_body(sv, i as int),
        decreases b.successes@.len() - i,
    {
        let it = &b.successes[i];
        let mut f: Vec<String> = Vec::new();
        f.push(it.address.clone());
        push_csv_record_fields(&it.output, &mut f);
        proof {
            assert(sv[i as int] == b.successes@[i as int]@);
            assert(f.deep_view() =~= seq![sv[i as int].address] + record_fields(
                sv[i as int].output,
            ));
        }
        let row = csv_row(&f);
        out.append(row.as_str());
        proof {
            assert(csv_row_of(csv_batch_header()) + csv_items_body(sv, i as int) + csv_row_of(
                seq![sv[i as int].address] + record_fields(sv[i as int].output),
            ) =~= csv_row_of(csv_batch_header()) + (csv_items_body(sv, i as int) + csv_row_of(
                seq![sv[i as int].address] + record_fields(sv[i as int].output),
            )));
        }
        i += 1;
    }
    proof {
        assert(out@ == csv_batch(b@));
    }
    out
}

impl OutFormat {
    /// Renders a bare list of records in this format: a JSON array, or CSV
    /// with a header row and one row per record. Succeeds for every payload
    /// in tabular form; in structured form exactly when every coordinate
    /// carried is decimal number text, and refuses the payload otherwise.
    pub fn print_records(&self, out: &Vec<GeocodeOutput>) -> (r: Result<String, GeocodeError>)
        ensures
            res_text(r) == rendered_records(*self, out.deep_view()),
    {
        match *self {
            OutFormat::Json => {
                let ghost dv = out.deep_view();
                let mut i: usize = 0;
                while i < out.len()
                    invariant
                        *self == OutFormat::Json,
                        dv == out.deep_view(),
                        dv.len() == out@.len(),
                        0 <= i <= out@.len(),
                        forall|m: int| 0 <= m < i ==> record_wf(#[trigger] dv[m]),
                    decreases out@.len() - i,
                {
                    if !record_ok(&out[i]) {
                        proof {
                            assert(dv[i as int] == out@[i as int]@);
                            assert(!record_wf(dv[i as int]));
                            assert(records_wf(dv) ==> record_wf(dv[i as int]));
                            assert(!records_wf(dv));
                        }
                        return Err(GeocodeError::BadCoordinate);
                    }
                    i += 1;
                }
                Ok(json_of_records(out))
            },
            OutFormat::Csv => Ok(csv_of_records(out)),
        }
    }

    /// Renders a batch result in this format. Structured text keeps both
    /// sides; tabular text holds the successes only, since the flat schema
    /// cannot carry the failures. Success and refusal follow the same rule as
    /// for a bare record list, applied to the success entries.
    pub fn print_batch(&self, out: &GeocodeBatchResults) -> (r: Result<String, GeocodeError>)
        ensures
            res_text(r) == rendered_batch(*self, out@),
    {
        match *self {
            OutFormat::Json => {
                let ghost sv = out.successes.deep_view();
                let mut i: usize = 0;
                while i < out.successes.len()
                    invariant
                        *self == OutFormat::Json,
                        sv == out.successes.deep_view(),
                        sv.len() == out.successes@.len(),
                        0 <= i <= out.successes@.len(),
                        forall|m: int| 0 <= m < i ==> record_wf(#[trigger] sv[m].output),
                    decreases out.successes@.len() - i,
                {
                    if !record_ok(&out.successes[i].output) {
                        proof {
                            assert(sv[i as int] == out.successes@[i as int]@);
                            assert(!record_wf(sv[i as int].output));
                            assert(items_wf(sv) ==> record_wf(sv[i as int].output));
                            assert(!items_wf(sv));
                        }
                        return Err(GeocodeError::BadCoordinate);
                    }
                    i += 1;
                }
                Ok(json_of_batch(out))
            },
            OutFormat::Csv => Ok(csv_of_batch(out)),
        }
    }
}

/// Single mode: renders the records one lookup returned, refusing an empty
/// list as a distinct "no results" failure rather than rendering an empty
/// payload.
pub fn run_single(format: OutFormat, records: Vec<GeocodeOutput>) -> (r: Result<
    String,
    GeocodeError,
>)
    ensures
        records@.len() == 0 ==> r == Err::<String, GeocodeError>(GeocodeError::NoResults),
        records@.len() > 0 ==> res_text(r) == rendered_records(format, records.deep_view()),
{
    if records.len() == 0 {
        return Err(GeocodeError::NoResults);
    }
    format.print_records(&records)
}

// ---------------------------------------------------------------------------
// Laws.
// ---------------------------------------------------------------------------
/// Rendering is a function of format and payload alone: two renderings of the
/// same batch in the same format are the same outcome, byte for byte.
pub proof fn lemma_batch_render_deterministic(
    f: OutFormat,
    b: BatchV,
    r1: Result<Seq<char>, GeocodeError>,
    r2: Result<Seq<char>, GeocodeError>,
)
    requires
        r1 == rendered_batch(f, b),
        r2 == rendered_batch(f, b),
    ensures
        r1 == r2,
{
}

/// Rendering is a function of format and payload alone, for bare record
/// lists as well.
pub proof fn lemma_records_render_deterministic(
    f: OutFormat,
    rs: Seq<RecordV>,
    r1: Result<Seq<char>, GeocodeError>,
    r2: Result<Seq<char>, GeocodeError>,
)
    requires
        r1 == rendered_records(f, rs),
        r2 == rendered_records(f, rs),
    ensures
        r1 == r2,
{
}

/// Tabular text reads nothing but the successes: two batches that agree on
/// their successes render to the same CSV, whatever their failures hold.
pub proof fn lemma_tabular_drops_failures(b1: BatchV, b2: BatchV)
    requires
        b1.successes == b2.successes,
    ensures
        rendered_batch(OutFormat::Csv, b1) == rendered_batch(OutFormat::Csv, b2),
{
}

/// Structured text of a batch always carries both the `successes` and the
/// `errors` key, each with its array — `[]` when that side is empty.
pub proof fn lemma_structured_keeps_both_sides(b: BatchV)
    ensures
        json_batch(b) == "{\"successes\":"@ + json_items_arr(b.successes) + ",\"errors\":"@
            + json_errors_arr(b.errors) + "}"@,
        b.successes.len() == 0 ==> json_items_arr(b.successes) == "[]"@,
        b.errors.len() == 0 ==> json_errors_arr(b.errors) == "[]"@,
{
    reveal_strlit("[");
    reveal_strlit("]");
    reveal_strlit("[]");
    if b.successes.len() == 0 {
        assert("["@ + json_items_body(b.successes, 0) + "]"@ =~= "[]"@);
    }
    if b.errors.len() == 0 {
        assert("["@ + json_errors_body(b.errors, 0) + "]"@ =~= "[]"@);
    }
}

} // verus!
