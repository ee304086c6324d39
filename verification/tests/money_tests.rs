//! Tests of fixed-point amounts, quantities, totals and the data model.

use billgen::{
    format_cents, format_quantity, items_total, Bill, BillItem, BillStatus, Date, ItemTemplate,
};

fn item(desc: &str, quantity_hundredths: u64, price_cents: u64) -> BillItem {
    BillItem {
        item_type: desc.to_string(),
        quantity: quantity_hundredths,
        unit_price: price_cents,
        note: String::new(),
    }
}

#[test]
fn cents_format_exact() {
    assert_eq!(format_cents(25000), "250.00");
    assert_eq!(format_cents(0), "0.00");
    assert_eq!(format_cents(5), "0.05");
    assert_eq!(format_cents(50), "0.50");
    assert_eq!(format_cents(100), "1.00");
    assert_eq!(format_cents(123456789), "1234567.89");
}

#[test]
fn quantity_format_exact() {
    assert_eq!(format_quantity(200), "2");
    assert_eq!(format_quantity(250), "2.5");
    assert_eq!(format_quantity(225), "2.25");
    assert_eq!(format_quantity(100), "1");
    assert_eq!(format_quantity(0), "0");
    assert_eq!(format_quantity(1), "0.01");
    assert_eq!(format_quantity(10), "0.1");
}

#[test]
fn item_total_is_exact() {
    assert_eq!(item("x", 200, 10000).total(), 20000);
    assert_eq!(item("x", 100, 5000).total(), 5000);
    assert_eq!(item("x", 150, 999).total(), 1498);
    assert_eq!(item("x", 0, 10000).total(), 0);
}

#[test]
fn two_item_bill_totals_two_hundred_fifty() {
    let items = vec![item("Consulting", 200, 10000), item("Travel", 100, 5000)];
    assert_eq!(items_total(&items), 25000);
    let bill = Bill {
        id: 1,
        client_id: 1,
        date: Date { year: 2024, month: 1, day: 1 },
        due_date: Date { year: 2024, month: 1, day: 31 },
        items,
        reference: String::new(),
        iban: String::new(),
        notes: String::new(),
        status: BillStatus::Draft,
        pdf_data: None,
        pdf_created_at: None,
    };
    assert_eq!(bill.total(), 25000);
    assert_eq!(bill.total_formatted(), "250.00");
}

#[test]
fn empty_bill_totals_zero() {
    let items: Vec<BillItem> = Vec::new();
    assert_eq!(items_total(&items), 0);
}

#[test]
fn item_template_becomes_unit_quantity_item() {
    let t = ItemTemplate { id: 3, item_type: "Consulting".to_string(), unit_price: 10000 };
    let it = t.to_bill_item();
    assert_eq!(it.item_type, "Consulting");
    assert_eq!(it.quantity, 100);
    assert_eq!(it.unit_price, 10000);
    assert_eq!(it.note, "");
}

#[test]
fn default_item_has_unit_quantity() {
    let it = BillItem::default();
    assert_eq!(it.quantity, 100);
    assert_eq!(it.unit_price, 0);
}

#[test]
fn status_labels() {
    assert_eq!(BillStatus::Draft.label(), "Draft");
    assert_eq!(BillStatus::Sent.label(), "Sent");
    assert_eq!(BillStatus::Paid.label(), "Paid");
    assert_eq!(BillStatus::Overdue.label(), "Overdue");
}

#[test]
fn attach_pdf_records_bytes_and_date_together() {
    let mut bill = Bill {
        id: 9,
        client_id: 2,
        date: Date { year: 2024, month: 3, day: 5 },
        due_date: Date { year: 2024, month: 4, day: 4 },
        items: Vec::new(),
        reference: "r".to_string(),
        iban: "i".to_string(),
        notes: String::new(),
        status: BillStatus::Draft,
        pdf_data: None,
        pdf_created_at: None,
    };
    bill.attach_pdf(vec![1, 2, 3], Date { year: 2024, month: 3, day: 6 });
    assert_eq!(bill.pdf_data.as_deref(), Some(&[1u8, 2, 3][..]));
    assert_eq!(bill.pdf_created_at, Some(Date { year: 2024, month: 3, day: 6 }));
    assert_eq!(bill.id, 9);
    assert_eq!(bill.reference, "r");
}
