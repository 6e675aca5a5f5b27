//! Batch assembly: the outcomes of one lookup per input address, already
//! gathered by the caller, are folded into an order-preserving partition of
//! successes and failures.
//!
//! The lookups themselves are the external resolver's work and may finish in
//! any order; this module consumes one outcome per input index, strictly in
//! input order, so the assembled result is deterministic and independent of
//! completion timing. A failed lookup contributes one `(address, message)`
//! failure; a successful one contributes one success entry per returned
//! record, in the resolver's ranking order, each carrying its source address.
//! A lookup that succeeds with zero records contributes nothing to either
//! side.

use vstd::prelude::*;
use crate::record::{GeocodeOutput, RecordV};

verus! {

/// One success entry: an input address paired with one of its records.
#[derive(Debug)]
pub struct GeocodeBatchOutput {
    pub address: String,
    pub output: GeocodeOutput,
}

/// The assembled outcome of a batch: successes and failures, each in input
/// order.
#[derive(Debug)]
pub struct GeocodeBatchResults {
    pub successes: Vec<GeocodeBatchOutput>,
    pub errors: Vec<(String, String)>,
}

/// The mathematical value of one success entry.
pub ghost struct ItemV {
    pub address: Seq<char>,
    pub output: RecordV,
}

/// The mathematical value of a batch outcome.
pub ghost struct BatchV {
    pub successes: Seq<ItemV>,
    pub errors: Seq<(Seq<char>, Seq<char>)>,
}

impl View for GeocodeBatchOutput {
    type V = ItemV;

    open spec fn view(&self) -> ItemV {
        ItemV { address: self.address@, output: self.output@ }
    }
}

impl DeepView for GeocodeBatchOutput {
    type V = ItemV;

    open spec fn deep_view(&self) -> ItemV {
        self.view()
    }
}

impl View for GeocodeBatchResults {
    type V = BatchV;

    open spec fn view(&self) -> BatchV {
        BatchV { successes: self.successes.deep_view(), errors: self.errors.deep_view() }
    }
}

/// What one lookup against the resolver came to: its records, or the message
/// of its failure.
pub type LookupOutcome = Result<Vec<GeocodeOutput>, String>;

/// The mathematical value of one lookup outcome.
pub open spec fn outcome_view(o: LookupOutcome) -> Result<Seq<RecordV>, Seq<char>> {
    match o {
        Ok(recs) => Ok(recs.deep_view()),
        Err(m) => Err(m@),
    }
}

pub open spec fn outcome_views(os: Seq<LookupOutcome>) -> Seq<Result<Seq<RecordV>, Seq<char>>> {
    os.map(|i: int, o: LookupOutcome| outcome_view(o))
}

/// One address's records, each paired with that address, in record order.
pub open spec fn items_of(address: Seq<char>, recs: Seq<RecordV>) -> Seq<ItemV> {
    recs.map(|j: int, rec: RecordV| ItemV { address: address, output: rec })
}

/// The success side of a batch: for each successful index, in input order,
/// its records in their returned order, each paired with its source address.
pub open spec fn batch_successes(
    addrs: Seq<Seq<char>>,
    outs: Seq<Result<Seq<RecordV>, Seq<char>>>,
) -> Seq<ItemV>
    decreases outs.len(),
{
    if outs.len() == 0 {
        Seq::empty()
    } else {
        batch_successes(addrs.drop_last(), outs.drop_last()) + (match outs.last() {
            Ok(recs) => items_of(addrs.last(), recs),
            Err(_) => Seq::empty(),
        })
    }
}

/// The failure side of a batch: one `(address, message)` pair per failed
/// index, in input order.
pub open spec fn batch_errors(
    addrs: Seq<Seq<char>>,
    outs: Seq<Result<Seq<RecordV>, Seq<char>>>,
) -> Seq<(Seq<char>, Seq<char>)>
    decreases outs.len(),
{
    if outs.len() == 0 {
        Seq::empty()
    } else {
        batch_errors(addrs.drop_last(), outs.drop_last()) + (match outs.last() {
            Ok(_) => Seq::empty(),
            Err(m) => seq![(addrs.last(), m)],
        })
    }
}

/// Assembles a batch result from one lookup outcome per input address.
///
/// Never fails: a failed lookup is captured as a failure entry, not
/// propagated. Successes keep the input order of their source addresses, with
/// all records of one address contiguous and in returned order; failures keep
/// input order.
pub fn run_batch(addresses: Vec<String>, outcomes: Vec<LookupOutcome>) -> (r: GeocodeBatchResults)
    requires
        addresses@.len() == outcomes@.len(),
    ensures
        r@.successes == batch_successes(addresses.deep_view(), outcome_views(outcomes@)),
        r@.errors == batch_errors(addresses.deep_view(), outcome_views(outcomes@)),
{
    let ghost av = addresses.deep_view();
    let ghost ov = outcome_views(outcomes@);
    let n = addresses.len();
    let mut successes: Vec<GeocodeBatchOutput> = Vec::new();
    let mut errors: Vec<(String, String)> = Vec::new();
    let mut i: usize = 0;
    while i < n
        invariant
            n == addresses@.len(),
            addresses@.len() == outcomes@.len(),
            av == addresses.deep_view(),
            ov == outcome_views(outcomes@),
            0 <= i <= n,
            successes.deep_view() == batch_successes(av.take(i as int), ov.take(i as int)),
            errors.deep_view() == batch_errors(av.take(i as int), ov.take(i as int)),
        decreases n - i,
    {
        let ghost pre_s = successes.deep_view();
        let ghost pre_e = errors.deep_view();
        match &outcomes[i] {
            Ok(recs) => {
                let ghost rv = recs.deep_view();
                let mut j: usize = 0;
                while j < recs.len()
                    invariant
                        n == addresses@.len(),
                        i < n,
                        rv == recs.deep_view(),
                        recs@.len() == rv.len(),
                        0 <= j <= recs@.len(),
                        av == addresses.deep_view(),
                        av.len() == n,
                        successes.deep_view() == pre_s + items_of(av[i as int], rv).take(j as int),
                    decreases recs@.len() - j,
                {
                    let ghost before = successes.deep_view();
                    let rec = recs[j].clone();
                    successes.push(GeocodeBatchOutput { address: addresses[i].clone(), output: rec });
                    proof {
                        assert(successes.deep_view() =~= before.push(
                            ItemV { address: av[i as int], output: rv[j as int] },
                        ));
                        assert(items_of(av[i as int], rv).take(j + 1) =~= items_of(
                            av[i as int],
                            rv,
                        ).take(j as int).push(ItemV { address: av[i as int], output: rv[j as int] }));
                        assert(successes.deep_view() =~= pre_s + items_of(av[i as int], rv).take(
                            j + 1,
                        ));
                    }
                    j += 1;
                }
                proof {
                    assert(items_of(av[i as int], rv).take(rv.len() as int) =~= items_of(
                        av[i as int],
                        rv,
                    ));
                    assert(av.take(i + 1).drop_last() =~= av.take(i as int));
                    assert(ov.take(i + 1).drop_last() =~= ov.take(i as int));
                    assert(ov.take(i + 1).last() == ov[i as int]);
                    assert(av.take(i + 1).last() == av[i as int]);
                    assert(ov[i as int] == Ok::<Seq<RecordV>, Seq<char>>(rv));
                    assert(successes.deep_view() == batch_successes(av.take(i + 1), ov.take(i + 1)));
                    assert(pre_e + Seq::<(Seq<char>, Seq<char>)>::empty() =~= pre_e);
                    assert(errors.deep_view() == batch_errors(av.take(i + 1), ov.take(i + 1)));
                }
            },
            Err(m) => {
                errors.push((addresses[i].clone(), m.clone()));
                proof {
                    assert(errors.deep_view() =~= pre_e.push((av[i as int], m@)));
                    assert(av.take(i + 1).drop_last() =~= av.take(i as int));
                    assert(ov.take(i + 1).drop_last() =~= ov.take(i as int));
                    assert(ov.take(i + 1).last() == ov[i as int]);
                    assert(av.take(i + 1).last() == av[i as int]);
                    assert(ov[i as int] == Err::<Seq<RecordV>, Seq<char>>(m@));
                    assert(pre_e + seq![(av[i as int], m@)] =~= pre_e.push((av[i as int], m@)));
                    assert(errors.deep_view() == batch_errors(av.take(i + 1), ov.take(i + 1)));
                    assert(pre_s + Seq::<ItemV>::empty() =~= pre_s);
                    assert(successes.deep_view() == batch_successes(av.take(i + 1), ov.take(i + 1)));
                }
            },
        }
        i += 1;
    }
    proof {
        assert(av.take(n as int) =~= av);
        assert(ov.take(n as int) =~= ov);
    }
    GeocodeBatchResults { successes, errors }
}

/// How many lookups failed.
pub open spec fn count_failed(outs: Seq<Result<Seq<RecordV>, Seq<char>>>) -> nat
    decreases outs.len(),
{
    if outs.len() == 0 {
        0
    } else {
        count_failed(outs.drop_last()) + (match outs.last() {
            Ok(_) => 0nat,
            Err(_) => 1nat,
        })
    }
}

/// How many lookups succeeded with at least one record.
pub open spec fn count_matched(outs: Seq<Result<Seq<RecordV>, Seq<char>>>) -> nat
    decreases outs.len(),
{
    if outs.len() == 0 {
        0
    } else {
        count_matched(outs.drop_last()) + (match outs.last() {
            Ok(recs) => if recs.len() > 0 {
                1nat
            } else {
                0nat
            },
            Err(_) => 0nat,
        })
    }
}

/// How many lookups succeeded with no record at all.
pub open spec fn count_unmatched(outs: Seq<Result<Seq<RecordV>, Seq<char>>>) -> nat
    decreases outs.len(),
{
    if outs.len() == 0 {
        0
    } else {
        count_unmatched(outs.drop_last()) + (match outs.last() {
            Ok(recs) => if recs.len() == 0 {
                1nat
            } else {
                0nat
            },
            Err(_) => 0nat,
        })
    }
}

/// How many records all successful lookups returned together.
pub open spec fn count_records(outs: Seq<Result<Seq<RecordV>, Seq<char>>>) -> nat
    decreases outs.len(),
{
    if outs.len() == 0 {
        0
    } else {
        count_records(outs.drop_last()) + (match outs.last() {
            Ok(recs) => recs.len(),
            Err(_) => 0nat,
        })
    }
}

/// Every input address lands on exactly one side of the partition, except
/// those whose lookup succeeded with zero records, which land on neither:
/// the failure entries together with the addresses that contributed records
/// number the inputs minus the record-less successes. The success side holds
/// exactly one entry per returned record.
pub proof fn lemma_batch_partition(addrs: Seq<Seq<char>>, outs: Seq<Result<Seq<RecordV>, Seq<char>>>)
    requires
        addrs.len() == outs.len(),
    ensures
        batch_errors(addrs, outs).len() == count_failed(outs),
        batch_successes(addrs, outs).len() == count_records(outs),
        count_matched(outs) + batch_errors(addrs, outs).len() == outs.len() - count_unmatched(outs),
    decreases outs.len(),
{
    if outs.len() > 0 {
        lemma_batch_partition(addrs.drop_last(), outs.drop_last());
    }
}

/// For three addresses whose middle lookup fails, the failures hold exactly
/// the middle address with its message, and the successes hold all of the
/// first address's records followed by all of the third's — whatever order
/// the lookups themselves finished in, since assembly goes by input index.
pub proof fn lemma_three_ordering(
    a: Seq<char>,
    b: Seq<char>,
    c: Seq<char>,
    ra: Seq<RecordV>,
    rc: Seq<RecordV>,
    msg: Seq<char>,
)
    ensures
        batch_errors(seq![a, b, c], seq![Ok(ra), Err(msg), Ok(rc)]) == seq![(b, msg)],
        batch_successes(seq![a, b, c], seq![Ok(ra), Err(msg), Ok(rc)]) == items_of(a, ra)
            + items_of(c, rc),
{
    let addrs = seq![a, b, c];
    let outs = seq![Ok::<Seq<RecordV>, Seq<char>>(ra), Err::<Seq<RecordV>, Seq<char>>(msg), Ok::<
        Seq<RecordV>,
        Seq<char>,
    >(rc)];
    let addrs2 = seq![a, b];
    let outs2 = seq![Ok::<Seq<RecordV>, Seq<char>>(ra), Err::<Seq<RecordV>, Seq<char>>(msg)];
    let addrs1 = seq![a];
    let outs1 = seq![Ok::<Seq<RecordV>, Seq<char>>(ra)];
    let addrs0 = Seq::<Seq<char>>::empty();
    let outs0 = Seq::<Result<Seq<RecordV>, Seq<char>>>::empty();
    assert(addrs.drop_last() =~= addrs2);
    assert(outs.drop_last() =~= outs2);
    assert(addrs2.drop_last() =~= addrs1);
    assert(outs2.drop_last() =~= outs1);
    assert(addrs1.drop_last() =~= addrs0);
    assert(outs1.drop_last() =~= outs0);
    assert(batch_errors(addrs0, outs0) == Seq::<(Seq<char>, Seq<char>)>::empty());
    assert(batch_successes(addrs0, outs0) == Seq::<ItemV>::empty());
    assert(outs1.last() == Ok::<Seq<RecordV>, Seq<char>>(ra) && addrs1.last() == a);
    assert(batch_errors(addrs1, outs1) =~= Seq::<(Seq<char>, Seq<char>)>::empty());
    assert(batch_successes(addrs1, outs1) =~= items_of(a, ra));
    assert(outs2.last() == Err::<Seq<RecordV>, Seq<char>>(msg) && addrs2.last() == b);
    assert(batch_errors(addrs2, outs2) =~= seq![(b, msg)]);
    assert(batch_successes(addrs2, outs2) =~= items_of(a, ra));
    assert(outs.last() == Ok::<Seq<RecordV>, Seq<char>>(rc) && addrs.last() == c);
    assert(batch_errors(addrs, outs) =~= seq![(b, msg)]);
    assert(batch_successes(addrs, outs) =~= items_of(a, ra) + items_of(c, rc));
}

} // verus!
