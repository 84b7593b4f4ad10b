use invoice_seeder::columns::InvoiceColumns;
use invoice_seeder::gen::new_entropy;
use invoice_seeder::invoice::DateWindow;
use invoice_seeder::orchestrator::Orchestrator;

fn window() -> DateWindow {
    DateWindow::new(0, 1262).unwrap()
}

fn column_len(c: &InvoiceColumns) -> usize {
    let n = c.customer_ids.len();
    // Every flush hands out seven arrays of equal length.
    assert_eq!(c.customer_names.len(), n);
    assert_eq!(c.invoice_dates.len(), n);
    assert_eq!(c.due_dates.len(), n);
    assert_eq!(c.total_amounts.len(), n);
    assert_eq!(c.tax_amounts.len(), n);
    assert_eq!(c.statuses.len(), n);
    n
}

/// Drives a run to completion, accepting every flush, and returns the
/// flush sizes seen.
fn run_accepting_all(total: usize, capacity: usize) -> (Vec<usize>, usize) {
    let mut rng = new_entropy();
    let mut orch = Orchestrator::new(total, capacity, window());
    let mut sizes = Vec::new();
    while orch.is_ready() {
        let cols = orch.fill_batch(&mut rng).expect("generation failed");
        sizes.push(column_len(&cols));
        orch.flush_succeeded();
    }
    assert!(orch.is_done());
    let summary = orch.summary();
    assert_eq!(summary.flushes, sizes.len());
    (sizes, summary.inserted)
}

#[test]
fn zero_records_zero_flushes_zero_inserted() {
    let orch = Orchestrator::new(0, 10000, window());
    assert!(orch.is_done());
    let summary = orch.summary();
    assert_eq!(summary.inserted, 0);
    assert_eq!(summary.flushes, 0);
}

#[test]
fn reference_scenario_end_to_end() {
    // 25,000 records at capacity 10,000: exactly three flushes of
    // 10,000/10,000/5,000, and all 25,000 inserted on success.
    let (sizes, inserted) = run_accepting_all(25000, 10000);
    assert_eq!(sizes, vec![10000, 10000, 5000]);
    assert_eq!(inserted, 25000);
}

#[test]
fn small_runs_have_expected_shape() {
    assert_eq!(run_accepting_all(25, 10), (vec![10, 10, 5], 25));
    assert_eq!(run_accepting_all(10, 10), (vec![10], 10));
    assert_eq!(run_accepting_all(3, 10), (vec![3], 3));
    assert_eq!(run_accepting_all(4, 1), (vec![1, 1, 1, 1], 4));
}

#[test]
fn rejected_flush_halts_with_prior_count() {
    let mut rng = new_entropy();
    let mut orch = Orchestrator::new(25, 10, window());

    // First batch accepted.
    let cols = orch.fill_batch(&mut rng).expect("generation failed");
    assert_eq!(column_len(&cols), 10);
    orch.flush_succeeded();
    assert_eq!(orch.inserted_count(), 10);

    // Second batch rejected by the store: the run halts, and only the
    // records of prior successful flushes count.
    let cols = orch.fill_batch(&mut rng).expect("generation failed");
    assert_eq!(column_len(&cols), 10);
    orch.flush_failed();
    assert!(orch.is_failed());
    assert!(!orch.is_ready());
    assert_eq!(orch.inserted_count(), 10);
    assert_eq!(orch.flush_count(), 1);
}

#[test]
fn first_flush_rejected_inserts_nothing() {
    let mut rng = new_entropy();
    let mut orch = Orchestrator::new(7, 10, window());
    let cols = orch.fill_batch(&mut rng).expect("generation failed");
    assert_eq!(column_len(&cols), 7);
    orch.flush_failed();
    assert!(orch.is_failed());
    assert_eq!(orch.inserted_count(), 0);
    assert_eq!(orch.flush_count(), 0);
}
