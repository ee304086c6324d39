//! Invoice document generation: structured payment references with a mod-97
//! check digit, bank account validation, template filling, and the pure
//! decision logic behind a typesetting compiler host.

mod account;
mod host;
mod model;
mod money;
mod pipeline;
mod reference;
mod strutil;
mod template;

pub use account::{spec_normalize_account, spec_valid_account, validate_iban};
pub use host::{
    join_path, local_file_path, package_cache_root, package_dir, package_file_path, package_url,
    resolve_package, spec_package_dir, spec_package_label, spec_package_unavailable_message,
    spec_package_url, today_date, PackageRef, PackageUnavailable,
};
pub use model::{
    format_date, items_total, spec_format_date, spec_item_total, spec_items_total, Address, Bill,
    BillItem, BillStatus, Client, Date, ItemTemplate,
};
pub use money::{format_cents, format_quantity, spec_format_cents, spec_format_quantity};
pub use pipeline::{
    build_invoice_fields, create_typst_invoice, finish_compile,
    lemma_invoice_source_deterministic, package_failure, prepare_invoice_source,
    spec_invoice_fields, spec_item_row, spec_rows, spec_table_contents, CompileError,
    PdfGenerationError, TemplateError,
};
pub use reference::{
    generate_reference, lemma_display_reference_valid, lemma_reference_injective,
    lemma_references_differ_in_bill_segment, mod97, reference_checksum_ok, spec_reference,
    spec_reference_body, spec_reference_display, strip_spaces,
};
pub use template::{
    fields_view, fill, has_placeholder, lemma_fill_no_open, no_open_brace, spec_fill,
    spec_has_placeholder, template_closed,
};
