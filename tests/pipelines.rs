use ev_etl::cli::{Args, Mode};
use ev_etl::models::VehicleRecord;
use ev_etl::pipeline::{BatchedRun, ParallelRun, SequentialRun};
use ev_etl::runs::{run_batched, run_parallel, run_sequential};

fn record(id: Option<u64>, year: Option<u16>, range: Option<u16>) -> VehicleRecord {
    VehicleRecord {
        vin: format!("VIN{}", id.unwrap_or(0)),
        county: "King".to_string(),
        city: "Seattle".to_string(),
        state: "WA".to_string(),
        postal_code: "98101".to_string(),
        model_year: year,
        make: "TESLA".to_string(),
        model: "MODEL 3".to_string(),
        electric_vehicle_type: "Battery Electric Vehicle (BEV)".to_string(),
        cafv_eligibility: "Clean Alternative Fuel Vehicle Eligible".to_string(),
        electric_range: range,
        base_msrp: Some(0),
        legislative_district: Some(43),
        dol_vehicle_id: id,
        vehicle_location: "POINT (-122.3 47.6)".to_string(),
        electric_utility: "CITY OF SEATTLE".to_string(),
        census_tract: "53033000100".to_string(),
    }
}

fn valid_row(id: u64, range: u16) -> Option<VehicleRecord> {
    Some(record(Some(id), Some(2020), Some(range)))
}

fn ids(records: &[VehicleRecord]) -> Vec<u64> {
    records.iter().map(|r| r.dol_vehicle_id.unwrap()).collect()
}

fn mixed_rows() -> Vec<Option<VehicleRecord>> {
    vec![
        valid_row(1, 250),
        valid_row(2, 150),
        None,
        Some(record(None, Some(2021), Some(300))),
        valid_row(5, 200),
        Some(record(Some(6), None, Some(260))),
        valid_row(7, 199),
        valid_row(8, 330),
        Some(record(Some(9), Some(2019), None)),
        valid_row(10, 201),
    ]
}

#[test]
fn eligible_at_and_above_threshold() {
    assert!(record(Some(1), Some(2020), Some(200)).is_eligible(200));
    assert!(record(Some(1), Some(2020), Some(250)).is_eligible(200));
    assert!(!record(Some(1), Some(2020), Some(199)).is_eligible(200));
}

#[test]
fn absent_range_counts_as_zero() {
    let r = record(Some(1), Some(2020), None);
    assert!(r.is_eligible(0));
    assert!(!r.is_eligible(1));
}

#[test]
fn eligibility_monotonic_in_threshold() {
    let r = record(Some(1), Some(2020), Some(220));
    for t in 0..=220u16 {
        assert!(r.is_eligible(t));
    }
    assert!(!r.is_eligible(221));
}

#[test]
fn validity_needs_all_three_fields() {
    assert!(record(Some(1), Some(2020), Some(0)).has_valid_data());
    assert!(!record(None, Some(2020), Some(100)).has_valid_data());
    assert!(!record(Some(1), None, Some(100)).has_valid_data());
    assert!(!record(Some(1), Some(2020), None).has_valid_data());
    assert!(!record(None, None, None).has_valid_data());
}

#[test]
fn validity_ignores_other_fields() {
    let mut r = record(Some(1), Some(2020), Some(5));
    r.vin = String::new();
    r.make = String::new();
    r.base_msrp = None;
    r.legislative_district = None;
    assert!(r.has_valid_data());
}

#[test]
fn duplicate_keeps_every_field() {
    let r = record(Some(42), Some(2022), Some(310));
    let d = r.duplicate();
    assert_eq!(d.vin, r.vin);
    assert_eq!(d.census_tract, r.census_tract);
    assert_eq!(d.dol_vehicle_id, Some(42));
    assert_eq!(d.model_year, Some(2022));
    assert_eq!(d.electric_range, Some(310));
}

#[test]
fn scenario_eligible_row_is_written() {
    let rows = vec![valid_row(1, 250)];
    let (seq_out, run) = run_sequential(&rows, 200);
    assert_eq!(ids(&seq_out), vec![1]);
    assert_eq!((run.processed, run.eligible, run.invalid), (1, 1, 0));
    let (par_out, valid, invalid) = run_parallel(&rows, 200);
    assert_eq!(ids(&par_out), vec![1]);
    assert_eq!((valid, invalid), (1, 0));
    let (bat_out, brun) = run_batched(&rows, 200, 10).unwrap();
    assert_eq!(ids(&bat_out), vec![1]);
    assert_eq!(brun.total_eligible, 1);
}

#[test]
fn scenario_short_range_row_is_dropped() {
    let rows = vec![valid_row(1, 150)];
    let (seq_out, run) = run_sequential(&rows, 200);
    assert!(seq_out.is_empty());
    assert_eq!(run.invalid, 0);
    assert_eq!(run.eligible, 0);
    assert_eq!(run.processed, 1);
    assert!(run_parallel(&rows, 200).0.is_empty());
    assert!(run_batched(&rows, 200, 3).unwrap().0.is_empty());
}

#[test]
fn scenario_missing_vehicle_id_is_invalid() {
    let rows = vec![Some(record(None, Some(2020), Some(400)))];
    let (seq_out, run) = run_sequential(&rows, 200);
    assert!(seq_out.is_empty());
    assert_eq!(run.invalid, 1);
    let (par_out, valid, invalid) = run_parallel(&rows, 200);
    assert!(par_out.is_empty());
    assert_eq!((valid, invalid), (0, 1));
    let (bat_out, brun) = run_batched(&rows, 200, 2).unwrap();
    assert!(bat_out.is_empty());
    assert_eq!(brun.invalid, 1);
    assert_eq!(brun.total_processed, 0);
}

#[test]
fn scenario_batches_of_ten_thousand() {
    let mut run = BatchedRun::new(200, 10_000).unwrap();
    let mut flushes: Vec<usize> = Vec::new();
    let mut out: Vec<VehicleRecord> = Vec::new();
    for i in 0..25_000u64 {
        if let Some(v) = run.push(valid_row(i, 250)) {
            flushes.push(v.len());
            out.extend(v);
        }
    }
    if let Some(v) = run.finish() {
        flushes.push(v.len());
        out.extend(v);
    }
    assert_eq!(flushes, vec![10_000, 10_000, 5_000]);
    assert_eq!(run.total_eligible, 25_000);
    assert_eq!(run.total_processed, 25_000);
    assert_eq!(ids(&out), (0..25_000u64).collect::<Vec<u64>>());
}

#[test]
fn scenario_batched_run_over_all_rows() {
    let rows: Vec<Option<VehicleRecord>> = (0..25_000u64).map(|i| valid_row(i, 250)).collect();
    let (out, run) = run_batched(&rows, 200, 10_000).unwrap();
    assert_eq!(run.total_eligible, 25_000);
    assert_eq!(ids(&out), (0..25_000u64).collect::<Vec<u64>>());
}

#[test]
fn scenario_malformed_row_does_not_stop_the_run() {
    let rows = vec![valid_row(1, 300), None, valid_row(3, 300), valid_row(4, 100)];
    let (seq_out, run) = run_sequential(&rows, 200);
    assert_eq!(ids(&seq_out), vec![1, 3]);
    assert_eq!((run.processed, run.eligible, run.invalid), (4, 2, 1));
    let (par_out, valid, invalid) = run_parallel(&rows, 200);
    assert_eq!(ids(&par_out), vec![1, 3]);
    assert_eq!((valid, invalid), (3, 1));
    let (bat_out, brun) = run_batched(&rows, 200, 2).unwrap();
    assert_eq!(ids(&bat_out), vec![1, 3]);
    assert_eq!(brun.invalid, 1);
}

#[test]
fn strategies_write_the_same_records_in_input_order() {
    let rows = mixed_rows();
    let expected = vec![1, 5, 8, 10];
    assert_eq!(ids(&run_sequential(&rows, 200).0), expected);
    assert_eq!(ids(&run_parallel(&rows, 200).0), expected);
    for size in 1..12usize {
        assert_eq!(ids(&run_batched(&rows, 200, size).unwrap().0), expected);
    }
}

#[test]
fn counters_on_mixed_input() {
    let rows = mixed_rows();
    let (_, run) = run_sequential(&rows, 200);
    assert_eq!((run.processed, run.eligible, run.invalid), (10, 4, 4));
    let (_, valid, invalid) = run_parallel(&rows, 200);
    assert_eq!((valid, invalid), (6, 4));
    let (_, brun) = run_batched(&rows, 200, 4).unwrap();
    assert_eq!((brun.total_processed, brun.total_eligible, brun.invalid), (6, 4, 4));
}

#[test]
fn repeated_runs_agree() {
    let rows = mixed_rows();
    let first = run_parallel(&rows, 180).0;
    let second = run_parallel(&rows, 180).0;
    assert_eq!(ids(&first), ids(&second));
    assert_eq!(ids(&first), vec![1, 5, 7, 8, 10]);
    assert_eq!(ids(&run_sequential(&rows, 180).0), ids(&run_sequential(&rows, 180).0));
}

#[test]
fn empty_input_writes_nothing() {
    let rows: Vec<Option<VehicleRecord>> = Vec::new();
    let (out, run) = run_sequential(&rows, 0);
    assert!(out.is_empty());
    assert_eq!(run.processed, 0);
    assert!(run_parallel(&rows, 0).0.is_empty());
    let (bout, mut brun) = run_batched(&rows, 0, 5).unwrap();
    assert!(bout.is_empty());
    assert!(brun.finish().is_none());
}

#[test]
fn zero_batch_size_is_refused() {
    assert!(BatchedRun::new(200, 0).is_none());
    assert!(run_batched(&mixed_rows(), 200, 0).is_none());
}

#[test]
fn sequential_step_by_step() {
    let mut run = SequentialRun::new(200);
    assert_eq!(run.step(valid_row(1, 210)).unwrap().dol_vehicle_id, Some(1));
    assert!(run.step(None).is_none());
    assert!(run.step(valid_row(3, 10)).is_none());
    assert!(run.step(Some(record(Some(4), None, Some(500)))).is_none());
    assert_eq!((run.processed, run.eligible, run.invalid), (4, 1, 2));
}

#[test]
fn parallel_filter_drops_short_ranges() {
    let mut run = ParallelRun::new(200);
    run.add(valid_row(1, 100));
    run.add(valid_row(2, 300));
    run.add(None);
    run.add(valid_row(3, 50));
    run.add(valid_row(4, 200));
    assert_eq!(run.invalid, 1);
    assert_eq!(run.valid_records.len(), 4);
    assert_eq!(ids(&run.filter_eligible()), vec![2, 4]);
}

#[test]
fn batch_fill_and_progress_mark() {
    let mut run = BatchedRun::new(100, 2).unwrap();
    assert!(run.progress_due());
    assert!(run.push(valid_row(1, 50)).is_none());
    assert!(run.push(Some(record(None, None, None))).is_none());
    let v = run.push(valid_row(2, 150)).unwrap();
    assert_eq!(ids(&v), vec![2]);
    assert_eq!((run.total_processed, run.total_eligible, run.invalid), (2, 1, 1));
    assert!(!run.progress_due());
    assert!(run.batch.is_empty());
}

#[test]
fn progress_mark_every_hundred_thousand() {
    let mut run = BatchedRun::new(0, 50_000).unwrap();
    for i in 0..100_000u64 {
        run.push(valid_row(i, 1));
        if i == 49_999 {
            assert!(!run.progress_due());
        }
    }
    assert_eq!(run.total_processed, 100_000);
    assert!(run.progress_due());
}

#[test]
fn mode_names() {
    assert_eq!(Mode::from_name(&"sequential".to_string()), Some(Mode::Sequential));
    assert_eq!(Mode::from_name(&"parallel".to_string()), Some(Mode::Parallel));
    assert_eq!(Mode::from_name(&"batched".to_string()), Some(Mode::Batched));
    assert_eq!(Mode::from_name(&"Batched".to_string()), None);
    assert_eq!(Mode::from_name(&String::new()), None);
}

#[test]
fn args_select_mode() {
    let args = Args {
        input: "in.csv".to_string(),
        output: "out.csv".to_string(),
        min_range: 200,
        skip_invalid: true,
        mode: "parallel".to_string(),
        batch_size: 10_000,
    };
    assert_eq!(args.selected_mode(), Some(Mode::Parallel));
}
