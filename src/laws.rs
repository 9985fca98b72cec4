//! Properties that relate the strategies to one another and to the input.
use vstd::prelude::*;
use crate::models::VehicleRecord;
use crate::pipeline::{eligible_for, kept, rejected_count, selected, valid_records};

verus! {

broadcast use Seq::lemma_filter_push;

/// The three strategies write the same records in the same order: filtering the
/// valid records for eligibility, as the parallel and batched strategies do,
/// gives exactly what the sequential strategy writes row by row.
pub proof fn lemma_strategies_agree(rows: Seq<Option<VehicleRecord>>, min_range: u16)
    ensures
        valid_records(rows).filter(eligible_for(min_range)) == selected(rows, min_range),
    decreases rows.len(),
{
    if rows.len() > 0 {
        lemma_strategies_agree(rows.drop_last(), min_range);
    }
}

/// What is written is the input's kept rows, in input order: no survivor is
/// moved, dropped or added.
pub proof fn lemma_output_keeps_input_order(rows: Seq<Option<VehicleRecord>>, min_range: u16)
    ensures
        selected(rows, min_range) == rows.filter(|o: Option<VehicleRecord>| kept(o, min_range)).map_values(
            |o: Option<VehicleRecord>| o->0,
        ),
    decreases rows.len(),
{
    let p = |o: Option<VehicleRecord>| kept(o, min_range);
    let f = |o: Option<VehicleRecord>| o->0;
    if rows.len() > 0 {
        lemma_output_keeps_input_order(rows.drop_last(), min_range);
        assert(rows =~= rows.drop_last().push(rows.last()));
        if p(rows.last()) {
            assert(rows.drop_last().filter(p).push(rows.last()).map_values(f) =~= rows.drop_last().filter(
                p,
            ).map_values(f).push(rows.last()->0));
        }
    } else {
        assert(rows.filter(p) =~= Seq::<Option<VehicleRecord>>::empty()) by {
            reveal(Seq::filter);
        }
        assert(rows.filter(p).map_values(f) =~= Seq::<VehicleRecord>::empty());
    }
}

/// Running a strategy twice on the same rows and threshold gives the same
/// records and the same counts: the result depends on the input alone.
pub proof fn lemma_runs_repeatable(
    rows: Seq<Option<VehicleRecord>>,
    again: Seq<Option<VehicleRecord>>,
    min_range: u16,
)
    requires
        rows == again,
    ensures
        selected(rows, min_range) == selected(again, min_range),
        valid_records(rows).filter(eligible_for(min_range)) == valid_records(again).filter(
            eligible_for(min_range),
        ),
        rejected_count(rows) == rejected_count(again),
{
}

} // verus!
