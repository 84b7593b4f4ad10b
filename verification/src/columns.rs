//! Column-oriented marshalling of a batch for the set-based bulk insert.
//!
//! A batch of invoices becomes seven index-aligned arrays, one per field;
//! the storage statement expands them into one row per index position.
//! Alignment is the correctness property: the i-th element of every array
//! must come from the i-th record of the batch.

use vstd::prelude::*;
use crate::amount::amount_seq;
use crate::invoice::{Invoice, status_seq};

verus! {

/// The seven column arrays of one batch, index-aligned.  Dates are day
/// numbers and amounts are rendered decimal text, ready for the storage
/// layer to bind.
pub struct InvoiceColumns {
    /// Customer identifiers.
    pub customer_ids: Vec<i32>,
    /// Customer display names.
    pub customer_names: Vec<String>,
    /// Invoice dates, as day numbers.
    pub invoice_dates: Vec<i64>,
    /// Due dates, as day numbers.
    pub due_dates: Vec<i64>,
    /// Invoice totals, as decimal text with two fractional digits.
    pub total_amounts: Vec<String>,
    /// Tax amounts, as decimal text with two fractional digits.
    pub tax_amounts: Vec<String>,
    /// Status texts.
    pub statuses: Vec<String>,
}

/// Whether `c` is the faithful column form of `batch`: all seven arrays
/// have the batch's length, and at every index each array holds the
/// corresponding field of the record at that index.
pub open spec fn aligned(c: InvoiceColumns, batch: Seq<Invoice>) -> bool {
    &&& c.customer_ids@.len() == batch.len()
    &&& c.customer_names@.len() == batch.len()
    &&& c.invoice_dates@.len() == batch.len()
    &&& c.due_dates@.len() == batch.len()
    &&& c.total_amounts@.len() == batch.len()
    &&& c.tax_amounts@.len() == batch.len()
    &&& c.statuses@.len() == batch.len()
    &&& forall|i: int|
        0 <= i < batch.len() ==> {
            &&& c.customer_ids@[i] == (#[trigger] batch[i]).customer_id
            &&& c.customer_names@[i]@ == batch[i].customer_name@
            &&& c.invoice_dates@[i] == batch[i].invoice_date
            &&& c.due_dates@[i] == batch[i].due_date
            &&& c.total_amounts@[i]@ == amount_seq(batch[i].total_cents as nat)
            &&& c.tax_amounts@[i]@ == amount_seq(batch[i].tax_cents as nat)
            &&& c.statuses@[i]@ == status_seq(batch[i].status)
        }
}

/// Marshals a batch into its seven column arrays.
pub fn columns_of(records: &Vec<Invoice>) -> (c: InvoiceColumns)
    ensures
        aligned(c, records@),
{
    let n = records.len();
    let mut customer_ids: Vec<i32> = Vec::new();
    let mut customer_names: Vec<String> = Vec::new();
    let mut invoice_dates: Vec<i64> = Vec::new();
    let mut due_dates: Vec<i64> = Vec::new();
    let mut total_amounts: Vec<String> = Vec::new();
    let mut tax_amounts: Vec<String> = Vec::new();
    let mut statuses: Vec<String> = Vec::new();
    let mut idx: usize = 0;
    while idx < n
        invariant
            n == records@.len(),
            idx <= n,
            customer_ids@.len() == idx,
            customer_names@.len() == idx,
            invoice_dates@.len() == idx,
            due_dates@.len() == idx,
            total_amounts@.len() == idx,
            tax_amounts@.len() == idx,
            statuses@.len() == idx,
            forall|i: int|
                0 <= i < idx ==> {
                    &&& customer_ids@[i] == (#[trigger] records@[i]).customer_id
                    &&& customer_names@[i]@ == records@[i].customer_name@
                    &&& invoice_dates@[i] == records@[i].invoice_date
                    &&& due_dates@[i] == records@[i].due_date
                    &&& total_amounts@[i]@ == amount_seq(records@[i].total_cents as nat)
                    &&& tax_amounts@[i]@ == amount_seq(records@[i].tax_cents as nat)
                    &&& statuses@[i]@ == status_seq(records@[i].status)
                },
        decreases n - idx,
    {
        let inv = &records[idx];
        customer_ids.push(inv.customer_id);
        customer_names.push(inv.customer_name.clone());
        invoice_dates.push(inv.invoice_date);
        due_dates.push(inv.due_date);
        total_amounts.push(inv.total_text());
        tax_amounts.push(inv.tax_text());
        statuses.push(inv.status.text());
        idx = idx + 1;
    }
    InvoiceColumns {
        customer_ids,
        customer_names,
        invoice_dates,
        due_dates,
        total_amounts,
        tax_amounts,
        statuses,
    }
}

} // verus!
