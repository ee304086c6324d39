//! Tests of the invoice pipeline: field map, rendered fragment, template
//! stage errors, and compile-outcome wrapping.

use billgen::{
    create_typst_invoice, finish_compile, prepare_invoice_source, Address, Bill, BillItem,
    BillStatus, Client, Date, PdfGenerationError, TemplateError,
};

fn creditor() -> Address {
    Address {
        name: "Acme GmbH".to_string(),
        street: Some("Bahnhofstrasse".to_string()),
        building_number: Some("1".to_string()),
        postal_code: "8000".to_string(),
        city: "Zurich".to_string(),
        country: "CH".to_string(),
    }
}

fn client() -> Client {
    let addr = Address {
        name: "Alice Example".to_string(),
        street: None,
        building_number: None,
        postal_code: "3000".to_string(),
        city: "Bern".to_string(),
        country: "CH".to_string(),
    };
    Client {
        id: 1,
        name: "Alice Example".to_string(),
        address: addr.clone(),
        billing_address: addr,
        email: "alice@example.ch".to_string(),
        phone: "000".to_string(),
    }
}

fn bill() -> Bill {
    Bill {
        id: 1,
        client_id: 1,
        date: Date { year: 2024, month: 1, day: 1 },
        due_date: Date { year: 2024, month: 1, day: 31 },
        items: vec![
            BillItem {
                item_type: "Consulting".to_string(),
                quantity: 200,
                unit_price: 10000,
                note: String::new(),
            },
            BillItem {
                item_type: "Travel".to_string(),
                quantity: 100,
                unit_price: 5000,
                note: String::new(),
            },
        ],
        reference: "RF87 2024 Y421 K420 1".to_string(),
        iban: "CH93 0076 2011 6238 5295 7".to_string(),
        notes: String::new(),
        status: BillStatus::Sent,
        pdf_data: None,
        pdf_created_at: None,
    }
}

#[test]
fn renders_amount_and_currency() {
    let out = create_typst_invoice(
        "{{client-name}} owes {{amount}} {{currency}}",
        &bill(),
        &client(),
        &creditor(),
    )
    .unwrap();
    assert_eq!(out, "Alice Example owes 250.00 CHF");
}

#[test]
fn renders_line_items_fragment_with_summary_row() {
    let out =
        create_typst_invoice("{{table-contents}}", &bill(), &client(), &creditor()).unwrap();
    assert_eq!(
        out,
        "[], [Consulting], [2], [100.00], [200.00], [], [Travel], [1], [50.00], [50.00], \
         table.cell(colspan: 4)[*Zu unseren Gunsten*], [250.00]"
    );
    assert!(out.contains("Consulting"));
    assert!(out.contains("Travel"));
    assert!(out.contains("250.00"));
}

#[test]
fn renders_table_rows_count_and_due_date() {
    let out = create_typst_invoice(
        "rows={{table-rows}} info={{additional-info}}",
        &bill(),
        &client(),
        &creditor(),
    )
    .unwrap();
    assert_eq!(out, "rows=3 info=Zahlbar bis 31.01.2024");
}

#[test]
fn missing_optional_address_fields_render_empty() {
    let out = create_typst_invoice(
        "street:{{debtor-street}} building:{{debtor-building}}",
        &bill(),
        &client(),
        &creditor(),
    )
    .unwrap();
    assert_eq!(out, "street: building:");
    assert!(!out.contains("None"));
    assert!(!out.contains("null"));
}

#[test]
fn every_recognized_placeholder_is_replaced() {
    let template = "acct={{account}} cn={{creditor-name}} cs={{creditor-street}} \
                    cb={{creditor-building}} cp={{creditor-postal-code}} cc={{creditor-city}} \
                    co={{creditor-country}} amt={{amount}} cur={{currency}} n={{client-name}} \
                    rt={{reference-type}} ref={{reference}} tc={{table-contents}} \
                    tr={{table-rows}} ai={{additional-info}} dn={{debtor-name}}";
    let out = create_typst_invoice(template, &bill(), &client(), &creditor()).unwrap();
    assert!(!out.contains("{{"));
    assert!(!out.contains("}}"));
    assert!(out.contains("CH93 0076 2011 6238 5295 7"));
    assert!(out.contains("Acme GmbH"));
    assert!(out.contains("SCOR"));
    assert!(out.contains("RF87 2024 Y421 K420 1"));
}

#[test]
fn template_without_placeholders_is_refused() {
    let r = create_typst_invoice("static text only", &bill(), &client(), &creditor());
    assert!(matches!(r, Err(TemplateError::NoPlaceholders)));
}

#[test]
fn unreadable_template_fails_template_stage_with_no_bytes() {
    let r = prepare_invoice_source(
        Err("no such file: templates/qr_bill.tpl".to_string()),
        &bill(),
        &client(),
        &creditor(),
    );
    match r {
        Err(PdfGenerationError::Template(TemplateError::Unreadable(m))) => {
            assert_eq!(m, "no such file: templates/qr_bill.tpl");
        }
        _ => panic!("expected a template-stage failure"),
    }
}

#[test]
fn prepare_renders_source_on_good_template() {
    let r = prepare_invoice_source(
        Ok("total {{amount}}".to_string()),
        &bill(),
        &client(),
        &creditor(),
    );
    assert_eq!(r.unwrap(), "total 250.00");
}

#[test]
fn generation_is_deterministic_for_identical_inputs() {
    let t = "{{client-name}}: {{table-contents}} / {{additional-info}}";
    let a = create_typst_invoice(t, &bill(), &client(), &creditor()).unwrap();
    let b = create_typst_invoice(t, &bill(), &client(), &creditor()).unwrap();
    assert_eq!(a.as_bytes(), b.as_bytes());
}

#[test]
fn compile_success_hands_bytes_through() {
    let bytes = vec![0x25, 0x50, 0x44, 0x46];
    let r = finish_compile(Ok(bytes.clone()));
    assert_eq!(r.unwrap(), bytes);
}

#[test]
fn compile_failure_keeps_every_diagnostic() {
    let diags = vec!["error: one".to_string(), "error: two".to_string()];
    let r = finish_compile(Err(diags.clone()));
    match r {
        Err(PdfGenerationError::Compile(ce)) => assert_eq!(ce.diagnostics, diags),
        _ => panic!("expected a compile-stage failure"),
    }
}
