//! The invoice pipeline: building the field map from a bill, rendering the
//! line-items fragment, filling the document template, and the failure
//! taxonomy handed back to callers.

use vstd::prelude::*;
use crate::host::PackageUnavailable;
use crate::model::{Address, Bill, BillItem, Client, items_total, lemma_item_total_nonneg,
    lemma_items_total_nonneg, lemma_items_total_take_le, lemma_items_total_take_succ,
    spec_format_date, format_date, spec_item_total, spec_items_total};
use crate::money::{dec_nat, format_cents, format_quantity, push_dec_nat, spec_format_cents,
    spec_format_quantity};
use crate::template::{fields_view, fill, has_placeholder, spec_fill, spec_has_placeholder};

verus! {

/// A template failure: the resource could not be read, or it holds no
/// recognizable placeholder at all.
#[derive(Debug, Clone)]
pub enum TemplateError {
    Unreadable(String),
    NoPlaceholders,
}

/// A compilation failure: the compiler's diagnostics, all of them.
#[derive(Debug, Clone)]
pub struct CompileError {
    pub diagnostics: Vec<String>,
}

/// A pipeline failure, tagged with the stage it arose in.
#[derive(Debug, Clone)]
pub enum PdfGenerationError {
    Template(TemplateError),
    Package(PackageUnavailable),
    Compile(CompileError),
}

/// The view of an optional string; absent renders as empty, never as a
/// placeholder token.
pub open spec fn opt_view(o: Option<String>) -> Seq<char> {
    match o {
        Some(s) => s@,
        None => Seq::empty(),
    }
}

/// One rendered line of the items table: note, description, quantity, unit
/// price and line total, each in its own cell.
pub open spec fn spec_item_row(it: BillItem) -> Seq<char> {
    "["@ + it.note@ + "], ["@ + it.item_type@ + "], ["@ + spec_format_quantity(it.quantity as nat)
        + "], ["@ + spec_format_cents(it.unit_price as nat) + "], ["@ + spec_format_cents(
        spec_item_total(it) as nat,
    ) + "]"@
}

/// The rendered lines of all items, joined by cell separators, in order.
pub open spec fn spec_rows(items: Seq<BillItem>) -> Seq<char>
    decreases items.len(),
{
    if items.len() == 0 {
        Seq::empty()
    } else if items.len() == 1 {
        spec_item_row(items[0])
    } else {
        spec_rows(items.drop_last()) + ", "@ + spec_item_row(items.last())
    }
}

/// The full table fragment: every item row followed by the summary row
/// carrying the grand total.
pub open spec fn spec_table_contents(items: Seq<BillItem>) -> Seq<char> {
    spec_rows(items) + ", table.cell(colspan: 4)[*Zu unseren Gunsten*], ["@ + spec_format_cents(
        spec_items_total(items) as nat,
    ) + "]"@
}

/// Appends one rendered item row.
fn push_item_row(out: &mut String, it: &BillItem)
    requires
        spec_item_total(*it) <= u64::MAX,
    ensures
        final(out)@ == old(out)@ + spec_item_row(*it),
{
    out.append("[");
    out.append(it.note.as_str());
    out.append("], [");
    out.append(it.item_type.as_str());
    out.append("], [");
    let q = format_quantity(it.quantity);
    out.append(q.as_str());
    out.append("], [");
    let p = format_cents(it.unit_price);
    out.append(p.as_str());
    out.append("], [");
    proof {
        lemma_item_total_nonneg(*it);
    }
    let tot = it.total();
    let t = format_cents(tot);
    out.append(t.as_str());
    out.append("]");
    proof {
        assert(out@ =~= old(out)@ + spec_item_row(*it));
    }
}

/// Builds the rendered item rows, joined in insertion order.
fn build_rows(items: &Vec<BillItem>) -> (r: String)
    requires
        spec_items_total(items@) <= u64::MAX,
    ensures
        r@ == spec_rows(items@),
{
    let mut out = String::new();
    let n = items.len();
    let mut i: usize = 0;
    while i < n
        invariant
            n == items@.len(),
            0 <= i <= n,
            out@ == spec_rows(items@.take(i as int)),
            spec_items_total(items@) <= u64::MAX,
        decreases n - i,
    {
        proof {
            lemma_items_total_take_succ(items@, i as int);
            lemma_items_total_take_le(items@, i as int + 1);
            lemma_items_total_nonneg(items@.take(i as int));
        }
        if i > 0 {
            out.append(", ");
        }
        push_item_row(&mut out, &items[i]);
        proof {
            assert(items@.take(i + 1).drop_last() =~= items@.take(i as int));
            assert(items@.take(i + 1).last() == items@[i as int]);
            if i == 0 {
                assert(out@ =~= spec_rows(items@.take(1)));
            } else {
                assert(out@ =~= spec_rows(items@.take(i as int)) + ", "@ + spec_item_row(
                    items@[i as int],
                ));
            }
        }
        i = i + 1;
    }
    proof {
        assert(items@.take(n as int) =~= items@);
    }
    out
}

/// Builds the full table fragment, summary row included.
fn build_table_contents(items: &Vec<BillItem>) -> (r: String)
    requires
        spec_items_total(items@) <= u64::MAX,
    ensures
        r@ == spec_table_contents(items@),
{
    let mut out = build_rows(items);
    out.append(", table.cell(colspan: 4)[*Zu unseren Gunsten*], [");
    proof {
        lemma_items_total_nonneg(items@);
    }
    let total = items_total(items);
    let t = format_cents(total);
    out.append(t.as_str());
    out.append("]");
    proof {
        assert(out@ =~= spec_table_contents(items@));
    }
    out
}

/// The complete field map handed to the template: payment data, creditor
/// and debtor address parts, formatted amount and dates, the reference,
/// and the pre-rendered line-items fragment. Absent optional fields map to
/// the empty string.
pub open spec fn spec_invoice_fields(bill: Bill, client: Client, creditor: Address) -> Seq<
    (Seq<char>, Seq<char>),
> {
    seq![
        ("account"@, bill.iban@),
        ("creditor-name"@, creditor.name@),
        ("creditor-street"@, opt_view(creditor.street)),
        ("creditor-building"@, opt_view(creditor.building_number)),
        ("creditor-postal-code"@, creditor.postal_code@),
        ("creditor-city"@, creditor.city@),
        ("creditor-country"@, creditor.country@),
        ("amount"@, spec_format_cents(spec_items_total(bill.items@) as nat)),
        ("currency"@, "CHF"@),
        ("client-name"@, client.name@),
        ("client-street"@, opt_view(client.address.street)),
        ("client-building"@, opt_view(client.address.building_number)),
        ("client-postal-code"@, client.address.postal_code@),
        ("client-city"@, client.address.city@),
        ("client-country"@, client.address.country@),
        ("debtor-name"@, client.billing_address.name@),
        ("debtor-street"@, opt_view(client.billing_address.street)),
        ("debtor-building"@, opt_view(client.billing_address.building_number)),
        ("debtor-postal-code"@, client.billing_address.postal_code@),
        ("debtor-city"@, client.billing_address.city@),
        ("debtor-country"@, client.billing_address.country@),
        ("reference-type"@, "SCOR"@),
        ("reference"@, bill.reference@),
        ("additional-info"@, "Zahlbar bis "@ + spec_format_date(bill.due_date)),
        ("table-contents"@, spec_table_contents(bill.items@)),
        ("table-rows"@, dec_nat((bill.items@.len() + 1) as nat)),
    ]
}

/// A copy of an optional string; absent yields the empty string.
fn opt_str(o: &Option<String>) -> (r: String)
    ensures
        r@ == opt_view(*o),
{
    match o {
        Some(s) => s.clone(),
        None => String::new(),
    }
}

/// Builds the field map of an invoice as owned pairs.
#[verifier::rlimit(80)]
pub fn build_invoice_fields(bill: &Bill, client: &Client, creditor: &Address) -> (r: Vec<
    (String, String),
>)
    requires
        bill.spec_total() <= u64::MAX,
        bill.due_date.wf(),
        bill.items@.len() < u64::MAX,
    ensures
        fields_view(r@) == spec_invoice_fields(*bill, *client, *creditor),
{
    let mut v: Vec<(String, String)> = Vec::new();
    v.push((String::from_str("account"), bill.iban.clone()));
    v.push((String::from_str("creditor-name"), creditor.name.clone()));
    v.push((String::from_str("creditor-street"), opt_str(&creditor.street)));
    v.push((String::from_str("creditor-building"), opt_str(&creditor.building_number)));
    v.push((String::from_str("creditor-postal-code"), creditor.postal_code.clone()));
    v.push((String::from_str("creditor-city"), creditor.city.clone()));
    v.push((String::from_str("creditor-country"), creditor.country.clone()));
    v.push((String::from_str("amount"), {
        proof {
            lemma_items_total_nonneg(bill.items@);
        }
        format_cents(items_total(&bill.items))
    }));
    v.push((String::from_str("currency"), String::from_str("CHF")));
    v.push((String::from_str("client-name"), client.name.clone()));
    v.push((String::from_str("client-street"), opt_str(&client.address.street)));
    v.push((String::from_str("client-building"), opt_str(&client.address.building_number)));
    v.push((String::from_str("client-postal-code"), client.address.postal_code.clone()));
    v.push((String::from_str("client-city"), client.address.city.clone()));
    v.push((String::from_str("client-country"), client.address.country.clone()));
    v.push((String::from_str("debtor-name"), client.billing_address.name.clone()));
    v.push((String::from_str("debtor-street"), opt_str(&client.billing_address.street)));
    v.push((
        String::from_str("debtor-building"),
        opt_str(&client.billing_address.building_number),
    ));
    v.push((
        String::from_str("debtor-postal-code"),
        client.billing_address.postal_code.clone(),
    ));
    v.push((String::from_str("debtor-city"), client.billing_address.city.clone()));
    v.push((String::from_str("debtor-country"), client.billing_address.country.clone()));
    v.push((String::from_str("reference-type"), String::from_str("SCOR")));
    v.push((String::from_str("reference"), bill.reference.clone()));
    v.push((String::from_str("additional-info"), {
        let mut s = String::from_str("Zahlbar bis ");
        let d = format_date(&bill.due_date);
        s.append(d.as_str());
        s
    }));
    v.push((String::from_str("table-contents"), build_table_contents(&bill.items)));
    v.push((String::from_str("table-rows"), {
        let mut s = String::new();
        push_dec_nat(&mut s, bill.items.len() as u64 + 1);
        s
    }));
    proof {
        assert(fields_view(v@) =~= spec_invoice_fields(*bill, *client, *creditor));
    }
    v
}

/// Renders the invoice source: fills the template with the invoice fields.
/// A template without a single complete placeholder is refused, so a
/// misconfigured deployment is caught early.
pub fn create_typst_invoice(
    template_text: &str,
    bill: &Bill,
    client: &Client,
    creditor: &Address,
) -> (r: Result<String, TemplateError>)
    requires
        bill.spec_total() <= u64::MAX,
        bill.due_date.wf(),
        bill.items@.len() < u64::MAX,
    ensures
        r is Ok <==> spec_has_placeholder(template_text@),
        (match r {
            Ok(s) => s@ == spec_fill(
                template_text@,
                spec_invoice_fields(*bill, *client, *creditor),
            ),
            Err(e) => e is NoPlaceholders,
        }),
{
    if !has_placeholder(template_text) {
        return Err(TemplateError::NoPlaceholders);
    }
    let fields = build_invoice_fields(bill, client, creditor);
    Ok(fill(template_text, &fields))
}

/// Runs the preparation stage of the pipeline on the outcome of reading
/// the template resource: a failed read or a placeholder-free template is
/// a template failure; otherwise the filled source is returned.
pub fn prepare_invoice_source(
    template_read: Result<String, String>,
    bill: &Bill,
    client: &Client,
    creditor: &Address,
) -> (r: Result<String, PdfGenerationError>)
    requires
        bill.spec_total() <= u64::MAX,
        bill.due_date.wf(),
        bill.items@.len() < u64::MAX,
    ensures
        (match template_read {
            Err(m) => r == Err::<String, PdfGenerationError>(
                PdfGenerationError::Template(TemplateError::Unreadable(m)),
            ),
            Ok(t) => {
                &&& (r is Ok <==> spec_has_placeholder(t@))
                &&& (match r {
                    Ok(s) => s@ == spec_fill(t@, spec_invoice_fields(*bill, *client, *creditor)),
                    Err(e) => e == PdfGenerationError::Template(TemplateError::NoPlaceholders),
                })
            },
        }),
{
    match template_read {
        Err(m) => Err(PdfGenerationError::Template(TemplateError::Unreadable(m))),
        Ok(t) => match create_typst_invoice(t.as_str(), bill, client, creditor) {
            Ok(s) => Ok(s),
            Err(e) => {
                proof {
                    assert(e is NoPlaceholders);
                }
                Err(PdfGenerationError::Template(TemplateError::NoPlaceholders))
            },
        },
    }
}

/// Wraps the outcome of the compilation stage: success hands the document
/// bytes through untouched; failure keeps every diagnostic the compiler
/// reported.
pub fn finish_compile(outcome: Result<Vec<u8>, Vec<String>>) -> (r: Result<
    Vec<u8>,
    PdfGenerationError,
>)
    ensures
        (match outcome {
            Ok(bytes) => r == Ok::<Vec<u8>, PdfGenerationError>(bytes),
            Err(diags) => r == Err::<Vec<u8>, PdfGenerationError>(
                PdfGenerationError::Compile(CompileError { diagnostics: diags }),
            ),
        }),
{
    match outcome {
        Ok(bytes) => Ok(bytes),
        Err(diags) => Err(PdfGenerationError::Compile(CompileError { diagnostics: diags })),
    }
}

/// Rendering the invoice source is deterministic: any two sources rendered
/// from the same template and the same invoice values are equal. Together
/// with the fixed compiler-host clock this is the core of reproducible
/// output; byte-identity of the final document additionally rests on the
/// outside compiler, which this library does not model.
pub proof fn lemma_invoice_source_deterministic(
    t: Seq<char>,
    bill: Bill,
    client: Client,
    creditor: Address,
    s1: Seq<char>,
    s2: Seq<char>,
)
    requires
        s1 == spec_fill(t, spec_invoice_fields(bill, client, creditor)),
        s2 == spec_fill(t, spec_invoice_fields(bill, client, creditor)),
    ensures
        s1 == s2,
{
}

/// Wraps a missing-package report as a pipeline failure.
pub fn package_failure(e: PackageUnavailable) -> (r: PdfGenerationError)
    ensures
        r == PdfGenerationError::Package(e),
{
    PdfGenerationError::Package(e)
}

} // verus!
