use fake::Fake;
use fake::Faker;
use vstd::prelude::*;

verus! {

/// The lowest identifier that a sampled order record may carry.
pub const ORDER_ID_LO: usize = 1000;

/// One past the highest identifier that a sampled order record may carry.
pub const ORDER_ID_HI: usize = 2000;

/// An order record: an identifier, a customer name, and a payment flag.
///
/// Records are only built with an identifier from the sampling range,
/// so `wf` holds of every value that leaves this module.
#[derive(Debug)]
pub struct Foo {
    order_id: usize,
    customer: String,
    paid: bool,
}

impl Foo {
    /// The identifier stored in the record.
    pub closed spec fn spec_order_id(self) -> usize {
        self.order_id
    }

    /// The customer name stored in the record.
    pub closed spec fn spec_customer(self) -> Seq<char> {
        self.customer@
    }

    /// The payment flag stored in the record.
    pub closed spec fn spec_paid(self) -> bool {
        self.paid
    }

    /// The record's identifier lies in the sampling range.
    pub open spec fn wf(self) -> bool {
        ORDER_ID_LO <= self.spec_order_id() < ORDER_ID_HI
    }

    /// Builds a record from its parts; the identifier must lie in the
    /// sampling range.
    pub fn new(order_id: usize, customer: String, paid: bool) -> (r: Foo)
        requires
            ORDER_ID_LO <= order_id < ORDER_ID_HI,
        ensures
            r.wf(),
            r.spec_order_id() == order_id,
            r.spec_customer() == customer@,
            r.spec_paid() == paid,
    {
        Foo { order_id, customer, paid }
    }

    /// Draws a randomized record, as a faker would: the identifier from
    /// the sampling range, the name and the flag unconstrained.
    pub fn sample() -> (r: Foo)
        ensures
            r.wf(),
    {
        let order_id = fake_usize_in_range(ORDER_ID_LO, ORDER_ID_HI);
        let customer = fake_string();
        let paid = fake_bool();
        Foo { order_id, customer, paid }
    }

    /// The identifier.
    pub fn order_id(&self) -> (r: usize)
        ensures
            r == self.spec_order_id(),
    {
        self.order_id
    }

    /// The customer name.
    pub fn customer(&self) -> (r: &String)
        ensures
            r@ == self.spec_customer(),
    {
        &self.customer
    }

    /// The payment flag.
    pub fn paid(&self) -> (r: bool)
        ensures
            r == self.spec_paid(),
    {
        self.paid
    }
}

/// Relies on fake's `Fake::fake` over a half-open range of `usize`:
/// the drawn value lies in the range.
#[verifier::external_body]
fn fake_usize_in_range(lo: usize, hi: usize) -> (r: usize)
    requires
        lo < hi,
    ensures
        lo <= r < hi,
{
    (lo..hi).fake()
}

/// Relies on fake's `Dummy<Faker>` for `String`: draws some string.
#[verifier::external_body]
fn fake_string() -> (r: String) {
    Faker.fake()
}

/// Relies on fake's `Dummy<Faker>` for `bool`: draws some flag.
#[verifier::external_body]
fn fake_bool() -> (r: bool) {
    Faker.fake()
}

} // verus!
