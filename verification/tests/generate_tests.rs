use invoice_seeder::gen::{build_invoice, generate_invoice, new_entropy, GenError};
use invoice_seeder::invoice::{DateWindow, Status};

fn window() -> DateWindow {
    // The historical window the seeding tool uses: 2021-01-01 through
    // 2024-06-16, as day numbers relative to its start.
    let start = chrono::NaiveDate::from_ymd_opt(2021, 1, 1).unwrap();
    let end = chrono::NaiveDate::from_ymd_opt(2024, 6, 16).unwrap();
    DateWindow::new(0, (end - start).num_days()).unwrap()
}

#[test]
fn window_spans_expected_days() {
    let w = window();
    assert_eq!(w.start_day, 0);
    assert_eq!(w.end_day, 1262);
}

#[test]
fn empty_or_inverted_window_is_rejected() {
    assert!(DateWindow::new(5, 4).is_none());
    assert!(DateWindow::new(0, i64::MAX).is_none());
    assert!(DateWindow::new(3, 3).is_some());
}

#[test]
fn generated_invoices_satisfy_invariants() {
    let w = window();
    let mut rng = new_entropy();
    for _ in 0..300 {
        let inv = generate_invoice(&mut rng, w).expect("generation failed");
        assert!(w.start_day <= inv.invoice_date && inv.invoice_date <= w.end_day);
        assert!(inv.invoice_date <= inv.due_date);
        assert!(inv.due_date <= inv.invoice_date + 90);
        assert!((10000..1000000).contains(&inv.total_cents));
        assert!((1000..100000).contains(&inv.tax_cents));
        assert!((1..10000).contains(&inv.customer_id));
        assert!(!inv.customer_name.is_empty());
        let status = inv.status.text();
        assert!(status == "Paid" || status == "Pending" || status == "Overdue");
        let total = inv.total_text();
        let tax = inv.tax_text();
        for s in [&total, &tax] {
            let dot = s.find('.').unwrap();
            assert_eq!(dot, s.len() - 3);
            assert_eq!(s.matches('.').count(), 1);
        }
    }
}

#[test]
fn build_rejects_empty_name() {
    let w = window();
    let r = build_invoice(w, 10, 30, 42, String::new(), 50000, 5000, Status::Pending);
    assert_eq!(r.unwrap_err(), GenError::EmptyName);
}

#[test]
fn build_keeps_given_fields() {
    let w = window();
    let inv = build_invoice(w, 10, 30, 42, "Ada Lovelace".to_string(), 50000, 5000, Status::Paid)
        .expect("build failed");
    assert_eq!(inv.customer_id, 42);
    assert_eq!(inv.customer_name, "Ada Lovelace");
    assert_eq!(inv.invoice_date, 10);
    assert_eq!(inv.due_date, 40);
    assert_eq!(inv.total_cents, 50000);
    assert_eq!(inv.tax_cents, 5000);
    assert_eq!(inv.status, Status::Paid);
}

#[test]
fn status_texts_are_the_three_literals() {
    assert_eq!(Status::Paid.text(), "Paid");
    assert_eq!(Status::Pending.text(), "Pending");
    assert_eq!(Status::Overdue.text(), "Overdue");
}
