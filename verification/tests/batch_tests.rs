use invoice_seeder::batch::BatchAccumulator;
use invoice_seeder::gen::build_invoice;
use invoice_seeder::invoice::{DateWindow, Invoice, Status};

fn sample(id: i32) -> Invoice {
    let w = DateWindow::new(0, 100).unwrap();
    build_invoice(w, 5, 10, id, format!("Customer {id}"), 20000, 2000, Status::Pending)
        .expect("build failed")
}

#[test]
fn fills_to_capacity() {
    let mut b = BatchAccumulator::new(3);
    assert!(b.is_empty());
    assert!(!b.is_full());
    b.push(sample(1));
    b.push(sample(2));
    assert!(!b.is_full());
    assert_eq!(b.len(), 2);
    b.push(sample(3));
    assert!(b.is_full());
    assert_eq!(b.len(), 3);
}

#[test]
fn drain_returns_insertion_order_and_empties() {
    let mut b = BatchAccumulator::new(10);
    b.push(sample(7));
    b.push(sample(8));
    b.push(sample(9));
    let out = b.drain();
    assert_eq!(
        out.iter().map(|i| i.customer_id).collect::<Vec<_>>(),
        vec![7, 8, 9]
    );
    assert!(b.is_empty());
    // Capacity survives a drain: the buffer can fill again.
    for id in 0..10 {
        b.push(sample(id + 1));
    }
    assert!(b.is_full());
}

#[test]
fn clear_empties_and_keeps_capacity() {
    let mut b = BatchAccumulator::new(2);
    b.push(sample(1));
    b.push(sample(2));
    b.clear();
    assert!(b.is_empty());
    b.push(sample(3));
    b.push(sample(4));
    assert!(b.is_full());
}
