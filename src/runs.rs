//! Each strategy run over an input already held in memory.
use vstd::prelude::*;
use crate::models::VehicleRecord;
use crate::pipeline::{
    BatchedRun, ParallelRun, SequentialRun, eligible_for, rejected, rejected_count, selected,
    valid_records,
};

verus! {

broadcast use Seq::lemma_filter_push;

proof fn lemma_prefix_step(rows: Seq<Option<VehicleRecord>>, i: int)
    requires
        0 <= i < rows.len(),
    ensures
        rows.take(i + 1).drop_last() == rows.take(i),
        rows.take(i + 1).last() == rows[i],
        rows.take(i + 1).len() == i + 1,
{
    assert(rows.take(i + 1).drop_last() =~= rows.take(i));
}

/// Every row is either a valid record or rejected.
pub proof fn lemma_rows_split(rows: Seq<Option<VehicleRecord>>)
    ensures
        valid_records(rows).len() + rejected_count(rows) == rows.len(),
    decreases rows.len(),
{
    if rows.len() > 0 {
        lemma_rows_split(rows.drop_last());
    }
}

fn copy_row(row: &Option<VehicleRecord>) -> (r: Option<VehicleRecord>)
    ensures
        r == *row,
{
    match row {
        Some(rec) => Some(rec.duplicate()),
        None => None,
    }
}

/// Runs the sequential strategy over `rows` and returns what it writes, with
/// its counters.
pub fn run_sequential(rows: &Vec<Option<VehicleRecord>>, min_range: u16) -> (r: (
    Vec<VehicleRecord>,
    SequentialRun,
))
    requires
        rows@.len() < u64::MAX,
    ensures
        r.0@ == selected(rows@, min_range),
        r.1.min_range == min_range,
        r.1.processed == rows@.len(),
        r.1.eligible == selected(rows@, min_range).len(),
        r.1.invalid == rejected_count(rows@),
{
    let mut out: Vec<VehicleRecord> = Vec::new();
    let mut run = SequentialRun::new(min_range);
    let mut i: usize = 0;
    while i < rows.len()
        invariant
            i <= rows@.len() < u64::MAX,
            run.wf(),
            run.min_range == min_range,
            run.processed == i,
            out@ == selected(rows@.take(i as int), min_range),
            run.eligible == out@.len(),
            run.invalid == rejected_count(rows@.take(i as int)),
        decreases rows@.len() - i,
    {
        proof {
            lemma_prefix_step(rows@, i as int);
        }
        let row = copy_row(&rows[i]);
        let written = run.step(row);
        match written {
            Some(rec) => {
                out.push(rec);
            },
            None => {},
        }
        i = i + 1;
    }
    assert(rows@.take(i as int) =~= rows@);
    (out, run)
}

/// Runs the whole-input parallel strategy over `rows`: returns what it writes,
/// the number of valid records and the number of rejected rows.
pub fn run_parallel(rows: &Vec<Option<VehicleRecord>>, min_range: u16) -> (r: (
    Vec<VehicleRecord>,
    u64,
    u64,
))
    requires
        rows@.len() < u64::MAX,
    ensures
        r.0@ == valid_records(rows@).filter(eligible_for(min_range)),
        r.1 == valid_records(rows@).len(),
        r.2 == rejected_count(rows@),
{
    let mut run = ParallelRun::new(min_range);
    let mut i: usize = 0;
    while i < rows.len()
        invariant
            i <= rows@.len() < u64::MAX,
            run.min_range == min_range,
            run.valid_records@ == valid_records(rows@.take(i as int)),
            run.invalid == rejected_count(rows@.take(i as int)),
        decreases rows@.len() - i,
    {
        proof {
            lemma_prefix_step(rows@, i as int);
            lemma_rows_split(rows@.take(i as int));
        }
        let row = copy_row(&rows[i]);
        run.add(row);
        i = i + 1;
    }
    assert(rows@.take(i as int) =~= rows@);
    proof {
        lemma_rows_split(rows@);
    }
    let valid = run.valid_records.len() as u64;
    let invalid = run.invalid;
    let out = run.filter_eligible();
    (out, valid, invalid)
}

/// Runs the batched strategy over `rows`; `None` when `batch_size` is zero.
/// Returns what it writes, with its final state.
pub fn run_batched(rows: &Vec<Option<VehicleRecord>>, min_range: u16, batch_size: usize) -> (r:
    Option<(Vec<VehicleRecord>, BatchedRun)>)
    requires
        rows@.len() < u64::MAX,
    ensures
        r.is_none() <==> batch_size == 0,
        r matches Some(res) ==> {
            &&& res.0@ == valid_records(rows@).filter(eligible_for(min_range))
            &&& res.1.batch_size == batch_size
            &&& res.1.batch@.len() == 0
            &&& res.1.total_processed == valid_records(rows@).len()
            &&& res.1.total_eligible == res.0@.len()
            &&& res.1.invalid == rejected_count(rows@)
        },
{
    let mut run = match BatchedRun::new(min_range, batch_size) {
        Some(run) => run,
        None => {
            return None;
        },
    };
    let mut out: Vec<VehicleRecord> = Vec::new();
    let mut i: usize = 0;
    while i < rows.len()
        invariant
            i <= rows@.len() < u64::MAX,
            run.wf(),
            run.min_range == min_range,
            run.batch_size == batch_size,
            out@ + run.batch@.filter(eligible_for(min_range)) == valid_records(
                rows@.take(i as int),
            ).filter(eligible_for(min_range)),
            run.total_processed + run.batch@.len() == valid_records(rows@.take(i as int)).len(),
            run.total_eligible == out@.len(),
            run.invalid == rejected_count(rows@.take(i as int)),
        decreases rows@.len() - i,
    {
        proof {
            lemma_prefix_step(rows@, i as int);
            lemma_rows_split(rows@.take(i as int));
            lemma_rows_split(rows@.take(i as int + 1));
        }
        let row = copy_row(&rows[i]);
        let ghost before = out@;
        let ghost old_batch = run.batch@;
        let flushed = run.push(row);
        match flushed {
            Some(mut v) => {
                out.append(&mut v);
            },
            None => {},
        }
        proof {
            let ef = eligible_for(min_range);
            if !rejected(rows@[i as int]) {
                let rec = rows@[i as int]->0;
                assert(before + old_batch.push(rec).filter(ef) =~= (before + old_batch.filter(
                    ef,
                )) + seq![rec].filter(ef)) by {
                    reveal_with_fuel(Seq::filter, 2);
                }
                assert(valid_records(rows@.take(i as int)).push(rec).filter(ef) =~= valid_records(
                    rows@.take(i as int),
                ).filter(ef) + seq![rec].filter(ef)) by {
                    reveal_with_fuel(Seq::filter, 2);
                }
            }
            assert(out@ + run.batch@.filter(ef) =~= valid_records(rows@.take(i as int + 1)).filter(
                ef,
            ));
        }
        i = i + 1;
    }
    assert(rows@.take(i as int) =~= rows@);
    proof {
        lemma_rows_split(rows@);
    }
    let ghost before = out@;
    let rest = run.finish();
    match rest {
        Some(mut v) => {
            out.append(&mut v);
        },
        None => {},
    }
    proof {
        assert(out@ =~= valid_records(rows@).filter(eligible_for(min_range)));
    }
    Some((out, run))
}

} // verus!
