//! Tests of the structured creditor reference generator.

use billgen::generate_reference;
use iso_11649::RfCreditorReference;

/// The mod-97 remainder of the digit expansion of a reference string, used
/// as an independent validity check.
fn mod97_of(s: &str) -> u32 {
    let mut acc: u32 = 0;
    for c in s.chars() {
        if c.is_ascii_digit() {
            acc = (acc * 10 + (c as u32 - '0' as u32)) % 97;
        } else {
            acc = (acc * 100 + (c as u32 - 'A' as u32 + 10)) % 97;
        }
    }
    acc
}

/// True when the reference, spaces removed, satisfies the check-digit
/// relation of the scheme.
fn reference_valid(r: &str) -> bool {
    let e: String = r.chars().filter(|c| *c != ' ').collect();
    if e.len() < 5 || !e.starts_with("RF") {
        return false;
    }
    let rearranged = format!("{}{}", &e[4..], &e[..4]);
    mod97_of(&rearranged) == 1
}

#[test]
fn reference_exact_values() {
    assert_eq!(generate_reference(1, 1, 2024), "RF87 2024 Y421 K420 1");
    assert_eq!(generate_reference(0, 0, 2024), "RF67 2024 Y420 K420 0");
    assert_eq!(generate_reference(42, 7, 2023), "RF76 2023 Y427 K424 2");
    assert_eq!(generate_reference(9999, 999, 0), "RF38 0000 Y419 K419 9");
}

#[test]
fn reference_checksum_holds_for_many_inputs() {
    for bill_id in [0u64, 1, 2, 41, 99, 1234, 9999, 10000, 123456789] {
        for client_id in [0u64, 1, 7, 999, 1000, 424242] {
            for year in [0i32, 1, 1999, 2024, 9999] {
                let r = generate_reference(bill_id, client_id, year);
                assert!(reference_valid(&r), "not valid: {}", r);
            }
        }
    }
}

#[test]
fn reference_matches_reference_library() {
    for (bill_id, client_id, year) in
        [(1u64, 1u64, 2024i32), (0, 0, 2024), (42, 7, 2023), (500, 77, 1999), (9999, 999, 0)]
    {
        let base = format!(
            "{:04}Y{:03}K{:04}",
            year,
            (client_id + 420) % 1000,
            (bill_id + 4200) % 10000
        );
        let expected = RfCreditorReference::new(base.as_str()).to_string();
        assert_eq!(generate_reference(bill_id, client_id, year), expected);
    }
}

#[test]
fn references_differ_in_bill_segment() {
    for (b1, b2) in [(1u64, 2u64), (0, 9999), (500, 501), (1234, 4321)] {
        let r1 = generate_reference(b1, 77, 2024);
        let r2 = generate_reference(b2, 77, 2024);
        assert_ne!(r1, r2);
        // The bill-derived segment is the last four body characters.
        let e1: String = r1.chars().filter(|c| *c != ' ').collect();
        let e2: String = r2.chars().filter(|c| *c != ' ').collect();
        assert_ne!(&e1[e1.len() - 4..], &e2[e2.len() - 4..]);
    }
}

#[test]
fn references_injective_within_field_widths() {
    let cases = [(1u64, 1u64, 2024i32), (1, 1, 2025), (1, 2, 2024), (2, 1, 2024), (0, 0, 0)];
    for a in cases {
        for b in cases {
            let ra = generate_reference(a.0, a.1, a.2);
            let rb = generate_reference(b.0, b.1, b.2);
            assert_eq!(a == b, ra == rb, "{:?} vs {:?}", a, b);
        }
    }
}

#[test]
fn reference_accepted_by_reference_library_parser() {
    for (bill_id, client_id, year) in [(1u64, 1u64, 2024i32), (31, 12, 2025), (9999, 999, 9999)] {
        let r = generate_reference(bill_id, client_id, year);
        assert!(RfCreditorReference::parse_str(&r).is_ok(), "rejected: {}", r);
    }
}
