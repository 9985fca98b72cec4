use vstd::prelude::*;
use rayon::iter::{IntoParallelIterator, ParallelIterator};
use crate::models::{VehicleRecord, eligible, valid};

verus! {

/// How often, in records filtered by the batched strategy, progress is reported.
pub const PROGRESS_INTERVAL: u64 = 100000;

/// The eligibility test at a given threshold, as a predicate.
pub open spec fn eligible_for(min_range: u16) -> spec_fn(VehicleRecord) -> bool {
    |r: VehicleRecord| eligible(r, min_range)
}

/// A row goes to the output when it decoded, is valid and is eligible.
pub open spec fn kept(row: Option<VehicleRecord>, min_range: u16) -> bool {
    match row {
        Some(r) => valid(r) && eligible(r, min_range),
        None => false,
    }
}

/// A row is counted as invalid or skipped when it did not decode or is not valid.
pub open spec fn rejected(row: Option<VehicleRecord>) -> bool {
    match row {
        Some(r) => !valid(r),
        None => true,
    }
}

/// The records that every strategy writes, in input order.
pub open spec fn selected(rows: Seq<Option<VehicleRecord>>, min_range: u16) -> Seq<VehicleRecord>
    decreases rows.len(),
{
    if rows.len() == 0 {
        Seq::empty()
    } else {
        let prev = selected(rows.drop_last(), min_range);
        if kept(rows.last(), min_range) {
            prev.push(rows.last()->0)
        } else {
            prev
        }
    }
}

/// The decoded, valid records of the input, in input order.
pub open spec fn valid_records(rows: Seq<Option<VehicleRecord>>) -> Seq<VehicleRecord>
    decreases rows.len(),
{
    if rows.len() == 0 {
        Seq::empty()
    } else {
        let prev = valid_records(rows.drop_last());
        if rejected(rows.last()) {
            prev
        } else {
            prev.push(rows.last()->0)
        }
    }
}

/// How many rows of the input are invalid or malformed.
pub open spec fn rejected_count(rows: Seq<Option<VehicleRecord>>) -> nat
    decreases rows.len(),
{
    if rows.len() == 0 {
        0
    } else {
        rejected_count(rows.drop_last()) + if rejected(rows.last()) {
            1nat
        } else {
            0nat
        }
    }
}

/// Relies on rayon's `into_par_iter().filter(..).collect()` into a `Vec`: the
/// items for which the predicate holds, in the order they had (the collect
/// appends the partial results left before right).
#[verifier::external_body]
fn par_filter_eligible(records: Vec<VehicleRecord>, min_range: u16) -> (r: Vec<VehicleRecord>)
    ensures
        r@ == records@.filter(eligible_for(min_range)),
{
    records.into_par_iter().filter(|rec| rec.is_eligible(min_range)).collect()
}

/// Counters of the sequential strategy, which decides row by row.
pub struct SequentialRun {
    pub min_range: u16,
    /// Rows seen, malformed ones included.
    pub processed: u64,
    /// Rows written.
    pub eligible: u64,
    /// Rows that were malformed or not valid.
    pub invalid: u64,
}

impl SequentialRun {
    pub open spec fn wf(&self) -> bool {
        self.eligible + self.invalid <= self.processed
    }

    pub fn new(min_range: u16) -> (r: SequentialRun)
        ensures
            r.wf(),
            r.min_range == min_range,
            r.processed == 0,
            r.eligible == 0,
            r.invalid == 0,
    {
        SequentialRun { min_range, processed: 0, eligible: 0, invalid: 0 }
    }

    /// Takes one row and returns the record to write, if any.
    pub fn step(&mut self, row: Option<VehicleRecord>) -> (out: Option<VehicleRecord>)
        requires
            old(self).wf(),
            old(self).processed < u64::MAX,
        ensures
            final(self).wf(),
            final(self).min_range == old(self).min_range,
            final(self).processed == old(self).processed + 1,
            out == (if kept(row, old(self).min_range) {
                row
            } else {
                None
            }),
            final(self).eligible == old(self).eligible + if kept(row, old(self).min_range) {
                1int
            } else {
                0int
            },
            final(self).invalid == old(self).invalid + if rejected(row) {
                1int
            } else {
                0int
            },
    {
        self.processed = self.processed + 1;
        match row {
            Some(rec) => {
                if !rec.has_valid_data() {
                    self.invalid = self.invalid + 1;
                    None
                } else if rec.is_eligible(self.min_range) {
                    self.eligible = self.eligible + 1;
                    Some(rec)
                } else {
                    None
                }
            },
            None => {
                self.invalid = self.invalid + 1;
                None
            },
        }
    }
}

/// State of the whole-input parallel strategy: the valid records gathered so
/// far, in input order, and the count of rows turned away.
pub struct ParallelRun {
    pub min_range: u16,
    pub valid_records: Vec<VehicleRecord>,
    pub invalid: u64,
}

impl ParallelRun {
    pub fn new(min_range: u16) -> (r: ParallelRun)
        ensures
            r.min_range == min_range,
            r.valid_records@ == Seq::<VehicleRecord>::empty(),
            r.invalid == 0,
    {
        ParallelRun { min_range, valid_records: Vec::new(), invalid: 0 }
    }

    /// Keeps a valid record; counts a malformed row or an invalid record.
    pub fn add(&mut self, row: Option<VehicleRecord>)
        requires
            old(self).invalid < u64::MAX,
        ensures
            final(self).min_range == old(self).min_range,
            final(self).valid_records@ == (if rejected(row) {
                old(self).valid_records@
            } else {
                old(self).valid_records@.push(row->0)
            }),
            final(self).invalid == old(self).invalid + if rejected(row) {
                1int
            } else {
                0int
            },
    {
        match row {
            Some(rec) => {
                if rec.has_valid_data() {
                    self.valid_records.push(rec);
                } else {
                    self.invalid = self.invalid + 1;
                }
            },
            None => {
                self.invalid = self.invalid + 1;
            },
        }
    }

    /// Filters all gathered records in parallel; the survivors keep their order.
    pub fn filter_eligible(self) -> (r: Vec<VehicleRecord>)
        ensures
            r@ == self.valid_records@.filter(eligible_for(self.min_range)),
    {
        par_filter_eligible(self.valid_records, self.min_range)
    }
}

/// State of the batched strategy: valid records wait in a batch that holds
/// fewer than `batch_size` of them; a batch that fills is filtered in parallel
/// and handed out at once.
pub struct BatchedRun {
    pub min_range: u16,
    pub batch_size: usize,
    pub batch: Vec<VehicleRecord>,
    /// Valid records that went through the filter.
    pub total_processed: u64,
    /// Records that the filter kept.
    pub total_eligible: u64,
    /// Rows that were malformed or not valid.
    pub invalid: u64,
}

impl BatchedRun {
    pub open spec fn wf(&self) -> bool {
        &&& self.batch_size > 0
        &&& self.batch@.len() < self.batch_size
        &&& self.total_eligible <= self.total_processed
    }

    /// A batch size of zero is refused.
    pub fn new(min_range: u16, batch_size: usize) -> (r: Option<BatchedRun>)
        ensures
            r.is_none() <==> batch_size == 0,
            r matches Some(run) ==> {
                &&& run.wf()
                &&& run.min_range == min_range
                &&& run.batch_size == batch_size
                &&& run.batch@ == Seq::<VehicleRecord>::empty()
                &&& run.total_processed == 0
                &&& run.total_eligible == 0
                &&& run.invalid == 0
            },
    {
        if batch_size == 0 {
            None
        } else {
            Some(
                BatchedRun {
                    min_range,
                    batch_size,
                    batch: Vec::new(),
                    total_processed: 0,
                    total_eligible: 0,
                    invalid: 0,
                },
            )
        }
    }

    fn flush(&mut self) -> (out: Vec<VehicleRecord>)
        requires
            old(self).total_eligible <= old(self).total_processed,
            old(self).total_processed + old(self).batch@.len() <= u64::MAX,
        ensures
            out@ == old(self).batch@.filter(eligible_for(old(self).min_range)),
            final(self).batch@ == Seq::<VehicleRecord>::empty(),
            final(self).min_range == old(self).min_range,
            final(self).batch_size == old(self).batch_size,
            final(self).invalid == old(self).invalid,
            final(self).total_processed == old(self).total_processed + old(self).batch@.len(),
            final(self).total_eligible == old(self).total_eligible + out@.len(),
            final(self).total_eligible <= final(self).total_processed,
    {
        let mut full: Vec<VehicleRecord> = Vec::new();
        std::mem::swap(&mut self.batch, &mut full);
        let n = full.len();
        let out = par_filter_eligible(full, self.min_range);
        proof {
            broadcast use Seq::lemma_filter_len;
        }
        self.total_processed = self.total_processed + n as u64;
        self.total_eligible = self.total_eligible + out.len() as u64;
        out
    }

    /// Takes one row. When the batch fills, returns its eligible records in
    /// batch order and starts an empty batch.
    pub fn push(&mut self, row: Option<VehicleRecord>) -> (out: Option<Vec<VehicleRecord>>)
        requires
            old(self).wf(),
            old(self).total_processed + old(self).batch@.len() < u64::MAX,
            old(self).invalid < u64::MAX,
        ensures
            final(self).wf(),
            final(self).min_range == old(self).min_range,
            final(self).batch_size == old(self).batch_size,
            final(self).invalid == old(self).invalid + if rejected(row) {
                1int
            } else {
                0int
            },
            ({
                let grown = if rejected(row) {
                    old(self).batch@
                } else {
                    old(self).batch@.push(row->0)
                };
                if grown.len() == old(self).batch_size {
                    &&& out matches Some(v)
                    &&& v@ == grown.filter(eligible_for(old(self).min_range))
                    &&& final(self).batch@ == Seq::<VehicleRecord>::empty()
                    &&& final(self).total_processed == old(self).total_processed + grown.len()
                    &&& final(self).total_eligible == old(self).total_eligible + v@.len()
                } else {
                    &&& out is None
                    &&& final(self).batch@ == grown
                    &&& final(self).total_processed == old(self).total_processed
                    &&& final(self).total_eligible == old(self).total_eligible
                }
            }),
    {
        match row {
            Some(rec) => {
                if rec.has_valid_data() {
                    self.batch.push(rec);
                } else {
                    self.invalid = self.invalid + 1;
                }
            },
            None => {
                self.invalid = self.invalid + 1;
            },
        }
        if self.batch.len() >= self.batch_size {
            Some(self.flush())
        } else {
            None
        }
    }

    /// Ends the input: filters what is left in the batch, if anything.
    pub fn finish(&mut self) -> (out: Option<Vec<VehicleRecord>>)
        requires
            old(self).wf(),
            old(self).total_processed + old(self).batch@.len() <= u64::MAX,
        ensures
            final(self).wf(),
            final(self).min_range == old(self).min_range,
            final(self).batch_size == old(self).batch_size,
            final(self).invalid == old(self).invalid,
            final(self).batch@ == Seq::<VehicleRecord>::empty(),
            final(self).total_processed == old(self).total_processed + old(self).batch@.len(),
            old(self).batch@.len() == 0 ==> out is None && final(self).total_eligible
                == old(self).total_eligible,
            old(self).batch@.len() > 0 ==> (out matches Some(v) && v@ == old(self).batch@.filter(
                eligible_for(old(self).min_range),
            ) && final(self).total_eligible == old(self).total_eligible + v@.len()),
    {
        if self.batch.len() == 0 {
            None
        } else {
            Some(self.flush())
        }
    }

    /// Whether the running total of filtered records sits on a progress mark.
    pub fn progress_due(&self) -> (r: bool)
        ensures
            r == (self.total_processed % PROGRESS_INTERVAL == 0),
    {
        self.total_processed % PROGRESS_INTERVAL == 0
    }
}

} // verus!
