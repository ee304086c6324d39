//! The data model of the invoice core: addresses, clients, bills and their
//! line items. Money is held in minor units so every total is exact.

use vstd::prelude::*;
use crate::money::{format_cents, spec_format_cents};
use crate::reference::{spec_reference, spec_reference_display, strip_spaces,
    reference_checksum_ok};
use crate::strutil::{dec_seq, push_char, push_dec_fixed};

verus! {

/// A postal address of a party; the street and building number may be
/// absent.
#[derive(Debug, Clone)]
pub struct Address {
    pub name: String,
    pub street: Option<String>,
    pub building_number: Option<String>,
    pub postal_code: String,
    pub city: String,
    pub country: String,
}

impl Address {
    /// Builds an address from its parts.
    pub fn new(
        name: String,
        street: Option<String>,
        building_number: Option<String>,
        postal_code: String,
        city: String,
        country: String,
    ) -> (a: Address)
        ensures
            a.name == name,
            a.street == street,
            a.building_number == building_number,
            a.postal_code == postal_code,
            a.city == city,
            a.country == country,
    {
        Address { name, street, building_number, postal_code, city, country }
    }
}

/// A client: identity, primary address, and the billing address used on
/// invoices.
#[derive(Debug, Clone)]
pub struct Client {
    pub id: u64,
    pub name: String,
    pub address: Address,
    pub billing_address: Address,
    pub email: String,
    pub phone: String,
}

/// A calendar date, held as plain fields.
#[derive(Debug, Clone, Copy, PartialEq, Eq, Structural)]
pub struct Date {
    pub year: i32,
    pub month: u8,
    pub day: u8,
}

impl Date {
    /// Field bounds under which the date renders as two digits, two digits
    /// and four digits.
    pub open spec fn wf(&self) -> bool {
        &&& 0 <= self.year <= 9999
        &&& 1 <= self.month <= 12
        &&& 1 <= self.day <= 31
    }
}

/// The day.month.year rendering of a date, zero-padded.
pub open spec fn spec_format_date(d: Date) -> Seq<char> {
    dec_seq(d.day as nat, 2) + seq!['.'] + dec_seq(d.month as nat, 2) + seq!['.'] + dec_seq(
        d.year as nat,
        4,
    )
}

/// Renders a date as day.month.year, zero-padded.
pub fn format_date(d: &Date) -> (r: String)
    requires
        d.wf(),
    ensures
        r@ == spec_format_date(*d),
{
    proof {
        crate::strutil::lemma_pow10_small();
    }
    let mut s = String::new();
    push_dec_fixed(&mut s, d.day as u64, 2);
    push_char(&mut s, '.');
    push_dec_fixed(&mut s, d.month as u64, 2);
    push_char(&mut s, '.');
    push_dec_fixed(&mut s, d.year as u64, 4);
    proof {
        assert(s@ =~= spec_format_date(*d));
    }
    s
}

/// The lifecycle states of a bill.
#[derive(Debug, Clone, Copy, PartialEq, Eq, Structural)]
pub enum BillStatus {
    Draft,
    Sent,
    Paid,
    Overdue,
}

impl BillStatus {
    /// The display name of the status.
    pub fn label(&self) -> (r: String)
        ensures
            *self == BillStatus::Draft ==> r@ == "Draft"@,
            *self == BillStatus::Sent ==> r@ == "Sent"@,
            *self == BillStatus::Paid ==> r@ == "Paid"@,
            *self == BillStatus::Overdue ==> r@ == "Overdue"@,
    {
        match self {
            BillStatus::Draft => String::from_str("Draft"),
            BillStatus::Sent => String::from_str("Sent"),
            BillStatus::Paid => String::from_str("Paid"),
            BillStatus::Overdue => String::from_str("Overdue"),
        }
    }
}

/// One line of a bill. The quantity is held in hundredths and the unit
/// price in cents, so the line total is exact.
#[derive(Debug, Clone)]
pub struct BillItem {
    pub item_type: String,
    pub quantity: u64,
    pub unit_price: u64,
    pub note: String,
}

/// The exact total of one line in cents: quantity (hundredths) times unit
/// price (cents), scaled back down.
pub open spec fn spec_item_total(it: BillItem) -> int {
    (it.quantity * it.unit_price) / 100
}

/// The exact total of a sequence of lines, in cents.
pub open spec fn spec_items_total(items: Seq<BillItem>) -> int
    decreases items.len(),
{
    if items.len() == 0 {
        0
    } else {
        spec_items_total(items.drop_last()) + spec_item_total(items.last())
    }
}

pub proof fn lemma_item_total_nonneg(it: BillItem)
    ensures
        spec_item_total(it) >= 0,
{
    vstd::arithmetic::mul::lemma_mul_nonnegative(it.quantity as int, it.unit_price as int);
}

pub proof fn lemma_items_total_nonneg(items: Seq<BillItem>)
    ensures
        spec_items_total(items) >= 0,
    decreases items.len(),
{
    if items.len() > 0 {
        lemma_items_total_nonneg(items.drop_last());
        lemma_item_total_nonneg(items.last());
    }
}

/// The total over a prefix grows by exactly the next line's total.
pub proof fn lemma_items_total_take_succ(items: Seq<BillItem>, i: int)
    requires
        0 <= i < items.len(),
    ensures
        spec_items_total(items.take(i + 1)) == spec_items_total(items.take(i)) + spec_item_total(
            items[i],
        ),
{
    assert(items.take(i + 1).drop_last() =~= items.take(i));
    assert(items.take(i + 1).last() == items[i]);
}

/// No prefix exceeds the total of the whole sequence.
pub proof fn lemma_items_total_take_le(items: Seq<BillItem>, i: int)
    requires
        0 <= i <= items.len(),
    ensures
        spec_items_total(items.take(i)) <= spec_items_total(items),
    decreases items.len() - i,
{
    if i == items.len() {
        assert(items.take(i) =~= items);
    } else {
        lemma_items_total_take_succ(items, i);
        lemma_item_total_nonneg(items[i]);
        lemma_items_total_take_le(items, i + 1);
    }
}

/// Sums the line totals of a list of items, in cents.
pub fn items_total(items: &Vec<BillItem>) -> (r: u64)
    requires
        spec_items_total(items@) <= u64::MAX,
    ensures
        r == spec_items_total(items@),
{
    let mut acc: u64 = 0;
    let n = items.len();
    let mut i: usize = 0;
    while i < n
        invariant
            n == items@.len(),
            0 <= i <= n,
            acc == spec_items_total(items@.take(i as int)),
            spec_items_total(items@) <= u64::MAX,
        decreases n - i,
    {
        proof {
            lemma_items_total_take_succ(items@, i as int);
            lemma_items_total_take_le(items@, i as int + 1);
            lemma_items_total_nonneg(items@.take(i as int));
            lemma_item_total_nonneg(items@[i as int]);
        }
        let it = &items[i];
        acc = acc + it.total();
        i = i + 1;
    }
    proof {
        assert(items@.take(n as int) =~= items@);
    }
    acc
}

impl BillItem {
    /// The exact line total in cents.
    pub fn total(&self) -> (r: u64)
        requires
            spec_item_total(*self) <= u64::MAX,
        ensures
            r == spec_item_total(*self),
    {
        proof {
            vstd::arithmetic::mul::lemma_mul_upper_bound(
                self.quantity as int,
                u64::MAX as int,
                self.unit_price as int,
                u64::MAX as int,
            );
        }
        let prod: u128 = (self.quantity as u128) * (self.unit_price as u128);
        (prod / 100) as u64
    }
}

impl Default for BillItem {
    /// A fresh line: one unit of an unnamed item at price zero.
    fn default() -> (it: BillItem)
        ensures
            it.item_type@.len() == 0,
            it.quantity == 100,
            it.unit_price == 0,
            it.note@.len() == 0,
    {
        BillItem { item_type: String::new(), quantity: 100, unit_price: 0, note: String::new() }
    }
}

/// A reusable line template: a description and a unit price in cents.
#[derive(Debug, Clone)]
pub struct ItemTemplate {
    pub id: u64,
    pub item_type: String,
    pub unit_price: u64,
}

impl ItemTemplate {
    /// Turns the template into a fresh bill line with quantity one.
    pub fn to_bill_item(&self) -> (it: BillItem)
        ensures
            it.item_type@ == self.item_type@,
            it.quantity == 100,
            it.unit_price == self.unit_price,
            it.note@.len() == 0,
    {
        BillItem {
            item_type: self.item_type.clone(),
            quantity: 100,
            unit_price: self.unit_price,
            note: String::new(),
        }
    }
}

impl Default for ItemTemplate {
    fn default() -> (t: ItemTemplate)
        ensures
            t.id == 0,
            t.item_type@.len() == 0,
            t.unit_price == 0,
    {
        ItemTemplate { id: 0, item_type: String::new(), unit_price: 0 }
    }
}

/// A bill: identity, dates, ordered line items, payment data, and the
/// generated document if any.
#[derive(Debug, Clone)]
pub struct Bill {
    pub id: u64,
    pub client_id: u64,
    pub date: Date,
    pub due_date: Date,
    pub items: Vec<BillItem>,
    pub reference: String,
    pub iban: String,
    pub notes: String,
    pub status: BillStatus,
    pub pdf_data: Option<Vec<u8>>,
    pub pdf_created_at: Option<Date>,
}

impl Bill {
    /// The exact bill total in cents.
    pub open spec fn spec_total(&self) -> int {
        spec_items_total(self.items@)
    }

    /// The generated document bytes and their generation date are either
    /// both present or both absent.
    pub open spec fn pdf_consistent(&self) -> bool {
        self.pdf_data is Some <==> self.pdf_created_at is Some
    }

    /// Sums the line totals, in cents.
    pub fn total(&self) -> (r: u64)
        requires
            self.spec_total() <= u64::MAX,
        ensures
            r == self.spec_total(),
    {
        items_total(&self.items)
    }

    /// Attaches freshly generated document bytes together with their
    /// generation date: the two are recorded as a pair, never one without
    /// the other, and no other field changes.
    pub fn attach_pdf(&mut self, bytes: Vec<u8>, generated_on: Date)
        ensures
            final(self).pdf_data == Some(bytes),
            final(self).pdf_created_at == Some(generated_on),
            final(self).pdf_consistent(),
            final(self).id == old(self).id,
            final(self).client_id == old(self).client_id,
            final(self).date == old(self).date,
            final(self).due_date == old(self).due_date,
            final(self).items == old(self).items,
            final(self).reference == old(self).reference,
            final(self).iban == old(self).iban,
            final(self).notes == old(self).notes,
            final(self).status == old(self).status,
    {
        self.pdf_data = Some(bytes);
        self.pdf_created_at = Some(generated_on);
    }

    /// Generates the structured creditor reference for the given bill,
    /// client and year, in print form with grouping spaces.
    pub fn generate_scor_reference(bill_id: u64, client_id: u64, year: i32) -> (r: String)
        requires
            0 <= year <= 9999,
        ensures
            r@ == spec_reference_display(bill_id, client_id, year),
            strip_spaces(r@) == spec_reference(bill_id, client_id, year),
            reference_checksum_ok(strip_spaces(r@)),
    {
        crate::reference::generate_reference(bill_id, client_id, year)
    }

    /// The bill total rendered with two decimal places.
    pub fn total_formatted(&self) -> (r: String)
        requires
            self.spec_total() <= u64::MAX,
        ensures
            r@ == spec_format_cents(self.spec_total() as nat),
    {
        proof {
            lemma_items_total_nonneg(self.items@);
        }
        format_cents(self.total())
    }
}

impl Default for Client {
    /// A fresh client with empty fields and the default country code.
    fn default() -> (c: Client)
        ensures
            c.id == 0,
            c.name@.len() == 0,
            c.address.country@ == "CH"@,
            c.billing_address.country@ == "CH"@,
            c.email@.len() == 0,
            c.phone@.len() == 0,
    {
        let address = Address::new(
            String::new(),
            Some(String::new()),
            Some(String::new()),
            String::new(),
            String::new(),
            String::from_str("CH"),
        );
        let billing = Address::new(
            String::new(),
            Some(String::new()),
            Some(String::new()),
            String::new(),
            String::new(),
            String::from_str("CH"),
        );
        Client {
            id: 0,
            name: String::new(),
            address,
            billing_address: billing,
            email: String::new(),
            phone: String::new(),
        }
    }
}

} // verus!
