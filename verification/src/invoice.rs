//! The invoice record and the configuration of its generation.
//!
//! Dates are held as day numbers (days since an arbitrary fixed epoch,
//! normalized to midnight), and money as cents, so that every field the
//! logic reasons about is a plain value.

use vstd::prelude::*;
use crate::amount::amount_seq;

verus! {

/// Lowest admissible customer id (inclusive).
pub const CUSTOMER_ID_MIN: i32 = 1;

/// Highest admissible customer id (exclusive).
pub const CUSTOMER_ID_MAX: i32 = 10000;

/// Lowest admissible invoice total, in cents (inclusive): 100.00.
pub const TOTAL_CENTS_MIN: u64 = 10000;

/// Highest admissible invoice total, in cents (exclusive): 10000.00.
pub const TOTAL_CENTS_MAX: u64 = 1000000;

/// Lowest admissible tax amount, in cents (inclusive): 10.00.
pub const TAX_CENTS_MIN: u64 = 1000;

/// Highest admissible tax amount, in cents (exclusive): 1000.00.
pub const TAX_CENTS_MAX: u64 = 100000;

/// Largest admissible gap between invoice date and due date, in days.
pub const DUE_DAYS_MAX: i64 = 90;

/// Payment status of an invoice: exactly these three values exist.
#[derive(Clone, Copy, PartialEq, Eq, Structural, Debug)]
pub enum Status {
    Paid,
    Pending,
    Overdue,
}

/// The text form of a status.
pub open spec fn status_seq(s: Status) -> Seq<char> {
    match s {
        Status::Paid => "Paid"@,
        Status::Pending => "Pending"@,
        Status::Overdue => "Overdue"@,
    }
}

/// Every status renders as one of exactly three literal values.
pub proof fn lemma_status_one_of_three(s: Status)
    ensures
        status_seq(s) == "Paid"@ || status_seq(s) == "Pending"@ || status_seq(s) == "Overdue"@,
{
}

impl Status {
    /// The text stored for this status.
    pub fn text(&self) -> (r: String)
        ensures
            r@ == status_seq(*self),
    {
        match self {
            Status::Paid => "Paid".to_owned(),
            Status::Pending => "Pending".to_owned(),
            Status::Overdue => "Overdue".to_owned(),
        }
    }
}

/// The date window invoices are drawn from, as inclusive day numbers.
#[derive(Clone, Copy, Debug)]
pub struct DateWindow {
    /// First admissible invoice day (inclusive).
    pub start_day: i64,
    /// Last admissible invoice day (inclusive).
    pub end_day: i64,
}

impl DateWindow {
    /// A window is valid when it is non-empty (it may span zero days) and
    /// far enough from the numeric limits that adding the due-date gap
    /// cannot overflow.
    pub open spec fn valid(self) -> bool {
        &&& self.start_day <= self.end_day
        &&& self.end_day + DUE_DAYS_MAX <= i64::MAX
    }

    /// Builds a window, rejecting an empty or inverted one.
    pub fn new(start_day: i64, end_day: i64) -> (r: Option<DateWindow>)
        ensures
            r is Some <==> start_day <= end_day && end_day + DUE_DAYS_MAX as int <= i64::MAX,
            r is Some ==> (r->Some_0.start_day == start_day && r->Some_0.end_day == end_day
                && r->Some_0.valid()),
    {
        if start_day <= end_day && end_day <= i64::MAX - DUE_DAYS_MAX {
            Some(DateWindow { start_day, end_day })
        } else {
            None
        }
    }
}

/// One synthetic invoice record.
#[derive(Debug)]
pub struct Invoice {
    /// Customer identifier, in [CUSTOMER_ID_MIN, CUSTOMER_ID_MAX).
    pub customer_id: i32,
    /// Synthesized display name; never empty.
    pub customer_name: String,
    /// Day number of the invoice date, inside the window.
    pub invoice_date: i64,
    /// Day number of the due date, 0 to DUE_DAYS_MAX days after the invoice date.
    pub due_date: i64,
    /// Invoice total in cents.
    pub total_cents: u64,
    /// Tax amount in cents.
    pub tax_cents: u64,
    /// Payment status.
    pub status: Status,
}

impl Invoice {
    /// The record-level invariant: every field lies in its configured range,
    /// the date falls inside `window`, and the due date never precedes the
    /// invoice date.
    pub open spec fn valid(self, window: DateWindow) -> bool {
        &&& CUSTOMER_ID_MIN <= self.customer_id < CUSTOMER_ID_MAX
        &&& self.customer_name@.len() > 0
        &&& window.start_day <= self.invoice_date <= window.end_day
        &&& self.invoice_date <= self.due_date <= self.invoice_date + DUE_DAYS_MAX
        &&& TOTAL_CENTS_MIN <= self.total_cents < TOTAL_CENTS_MAX
        &&& TAX_CENTS_MIN <= self.tax_cents < TAX_CENTS_MAX
    }

    /// The decimal text of the invoice total.
    pub fn total_text(&self) -> (r: String)
        ensures
            r@ == amount_seq(self.total_cents as nat),
    {
        crate::amount::amount_string(self.total_cents)
    }

    /// The decimal text of the tax amount.
    pub fn tax_text(&self) -> (r: String)
        ensures
            r@ == amount_seq(self.tax_cents as nat),
    {
        crate::amount::amount_string(self.tax_cents)
    }
}

} // verus!
