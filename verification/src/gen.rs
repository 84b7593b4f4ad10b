//! Random generation of invoices.
//!
//! Each field is drawn independently from its constrained uniform range,
//! out of a caller-owned entropy stream.  The draws themselves come from
//! outside collaborators behind trusted wrappers; everything that is done
//! with the drawn values is verified.

use vstd::prelude::*;
use rand::RngExt;
use fake::Fake;
use crate::invoice::{
    DateWindow, Invoice, Status, CUSTOMER_ID_MAX, CUSTOMER_ID_MIN, DUE_DAYS_MAX, TAX_CENTS_MAX,
    TAX_CENTS_MIN, TOTAL_CENTS_MAX, TOTAL_CENTS_MIN,
};

verus! {

/// The thread-local generator handle of the rand crate, opaque here.
#[verifier::external_type_specification]
#[verifier::external_body]
pub struct ExThreadRng(rand::rngs::ThreadRng);

/// Relies on rand::rng: obtains a handle to the thread-local entropy
/// stream.  Nothing is promised of the values it will yield.
#[verifier::external_body]
pub fn new_entropy() -> rand::rngs::ThreadRng {
    rand::rng()
}

/// Relies on rand's RngExt::random_range over an inclusive i64 range:
/// the result lies within the given bounds.  The range must be
/// non-empty, as the call panics otherwise.
#[verifier::external_body]
fn random_i64_inclusive(rng: &mut rand::rngs::ThreadRng, lo: i64, hi: i64) -> (r: i64)
    requires
        lo <= hi,
    ensures
        lo <= r <= hi,
{
    rng.random_range(lo..=hi)
}

/// Relies on rand's RngExt::random_range over an inclusive u64 range:
/// the result lies within the given bounds.  The range must be
/// non-empty, as the call panics otherwise.
#[verifier::external_body]
fn random_u64_inclusive(rng: &mut rand::rngs::ThreadRng, lo: u64, hi: u64) -> (r: u64)
    requires
        lo <= hi,
    ensures
        lo <= r <= hi,
{
    rng.random_range(lo..=hi)
}

/// Relies on fake's en::Name faker: synthesizes a display name from the
/// given entropy stream.  Nothing is promised of the result; callers
/// must validate it.
#[verifier::external_body]
fn synthesize_name(rng: &mut rand::rngs::ThreadRng) -> String {
    fake::faker::name::en::Name().fake_with_rng::<String, _>(rng)
}

/// Generation failure: none is expected under valid configuration, and
/// one is treated as fatal.
#[derive(Clone, Copy, PartialEq, Eq, Structural, Debug)]
pub enum GenError {
    /// The name collaborator returned an empty string.
    EmptyName,
}

/// Assembles an invoice from already-drawn field values, validating the
/// one value nothing is known about: the synthesized name.  Returns the
/// invoice exactly as given if and only if the name is non-empty.
pub fn build_invoice(
    window: DateWindow,
    invoice_day: i64,
    due_offset: i64,
    customer_id: i32,
    customer_name: String,
    total_cents: u64,
    tax_cents: u64,
    status: Status,
) -> (r: Result<Invoice, GenError>)
    requires
        window.valid(),
        window.start_day <= invoice_day <= window.end_day,
        0 <= due_offset <= DUE_DAYS_MAX,
        CUSTOMER_ID_MIN <= customer_id < CUSTOMER_ID_MAX,
        TOTAL_CENTS_MIN <= total_cents < TOTAL_CENTS_MAX,
        TAX_CENTS_MIN <= tax_cents < TAX_CENTS_MAX,
    ensures
        r is Ok <==> customer_name@.len() > 0,
        r is Ok ==> r->Ok_0 == (Invoice {
            customer_id,
            customer_name,
            invoice_date: invoice_day,
            due_date: (invoice_day + due_offset) as i64,
            total_cents,
            tax_cents,
            status,
        }),
        r is Ok ==> r->Ok_0.valid(window),
        r is Err ==> r->Err_0 == GenError::EmptyName,
{
    if customer_name.as_str().is_empty() {
        Err(GenError::EmptyName)
    } else {
        Ok(
            Invoice {
                customer_id,
                customer_name,
                invoice_date: invoice_day,
                due_date: invoice_day + due_offset,
                total_cents,
                tax_cents,
                status,
            },
        )
    }
}

/// Generates one invoice, each field drawn independently from its
/// configured uniform range out of the given entropy stream.  Whatever
/// the draws yield, a returned invoice satisfies the record invariant
/// for `window`; the only failure is an empty synthesized name.
pub fn generate_invoice(rng: &mut rand::rngs::ThreadRng, window: DateWindow) -> (r: Result<
    Invoice,
    GenError,
>)
    requires
        window.valid(),
    ensures
        r is Ok ==> r->Ok_0.valid(window),
        r is Err ==> r->Err_0 == GenError::EmptyName,
{
    let invoice_day = random_i64_inclusive(rng, window.start_day, window.end_day);
    let due_offset = random_i64_inclusive(rng, 0, DUE_DAYS_MAX);
    let total_cents = random_u64_inclusive(rng, TOTAL_CENTS_MIN, TOTAL_CENTS_MAX - 1);
    let tax_cents = random_u64_inclusive(rng, TAX_CENTS_MIN, TAX_CENTS_MAX - 1);
    let id64 = random_i64_inclusive(rng, CUSTOMER_ID_MIN as i64, (CUSTOMER_ID_MAX - 1) as i64);
    let status_pick = random_u64_inclusive(rng, 0, 2);
    let status = if status_pick == 0 {
        Status::Paid
    } else if status_pick == 1 {
        Status::Pending
    } else {
        Status::Overdue
    };
    let customer_name = synthesize_name(rng);
    build_invoice(
        window,
        invoice_day,
        due_offset,
        id64 as i32,
        customer_name,
        total_cents,
        tax_cents,
        status,
    )
}

} // verus!
