use polkavm_export::driver::{CodeObject, MetadataLayout, TableStrategy};
use polkavm_export::errors::ExportError;
use polkavm_export::mangle::{mangle, mangle_metadata};
use polkavm_export::records::{GlobalInit, Linkage};

#[test]
fn export_places_the_function_internally() {
    let mut obj = CodeObject::new(MetadataLayout::Extended, TableStrategy::Directive);
    let placement = obj.export_function("my_module", "sum", 2, true).unwrap();
    assert_eq!(placement.symbol, mangle("my_module", "sum"));
    assert_eq!(placement.section, ".text.polkavm_export.sum");
    assert_eq!(placement.linkage, Linkage::Internal);
}

#[test]
fn extended_directive_build_mirrors_two_function_module() {
    let mut obj = CodeObject::new(MetadataLayout::Extended, TableStrategy::Directive);
    obj.export_function("my_module", "sum", 2, true).unwrap();
    obj.export_function("my_module", "sub", 2, true).unwrap();
    // Two globals per export: the name blob and the metadata record.
    assert_eq!(obj.globals.len(), 4);
    assert!(obj.inline_asm.is_empty());
    obj.finalize();
    assert!(obj.finalized);
    // The directive buffer is filled once, at finalize time, in order.
    let mut expected = String::new();
    for f in ["sum", "sub"] {
        expected.push_str(&format!(
            ".pushsection .polkavm_exports,\"R\",@note\n.byte 1\n.4byte {}\n.4byte {}\n.popsection\n",
            mangle_metadata("my_module", f),
            mangle("my_module", f)
        ));
    }
    assert_eq!(obj.inline_asm, expected);
    // Finalizing with the directive strategy adds no globals.
    assert_eq!(obj.globals.len(), 4);
}

#[test]
fn minimal_struct_build() {
    let mut obj = CodeObject::new(MetadataLayout::Minimal, TableStrategy::StructTable);
    obj.export_function("my_module", "sum", 2, true).unwrap();
    assert_eq!(obj.globals.len(), 1);
    match &obj.globals[0].init {
        GlobalInit::Bytes(bytes) => {
            assert_eq!(*bytes, vec![0x01, 0x00, 0x00, 0x00, 0x00, 0x00, 0x00, 0x00, 0x00])
        }
        _ => panic!("the minimal layout must emit raw bytes"),
    }
    obj.finalize();
    // One table row global was appended after the minimal record.
    assert_eq!(obj.globals.len(), 2);
    let row = &obj.globals[1];
    assert_eq!(row.section, ".polkavm_exports");
    match &row.init {
        GlobalInit::TableEntry(entry) => {
            assert_eq!(entry.version, 1);
            assert_eq!(entry.metadata_symbol, mangle_metadata("my_module", "sum"));
            assert_eq!(entry.function_symbol, mangle("my_module", "sum"));
        }
        _ => panic!("a table row must hold an entry"),
    }
    assert!(obj.inline_asm.is_empty());
}

#[test]
fn empty_module_name_is_rejected() {
    let mut obj = CodeObject::new(MetadataLayout::Extended, TableStrategy::Directive);
    let err = obj.export_function("", "sum", 2, true).unwrap_err();
    assert_eq!(err, ExportError::InvalidIdentifier);
    assert_eq!(obj.globals.len(), 0);
    assert_eq!(obj.table.len(), 0);
}

#[test]
fn empty_function_name_is_rejected() {
    let mut obj = CodeObject::new(MetadataLayout::Extended, TableStrategy::Directive);
    let err = obj.export_function("my_module", "", 2, true).unwrap_err();
    assert_eq!(err, ExportError::InvalidIdentifier);
}

#[test]
fn non_ascii_name_is_rejected() {
    let mut obj = CodeObject::new(MetadataLayout::Extended, TableStrategy::Directive);
    let err = obj.export_function("my_module", "s\u{00f8}m", 2, true).unwrap_err();
    assert_eq!(err, ExportError::InvalidIdentifier);
}

#[test]
fn oversized_arity_is_rejected() {
    let mut obj = CodeObject::new(MetadataLayout::Extended, TableStrategy::Directive);
    let err = obj.export_function("my_module", "sum", 256, true).unwrap_err();
    assert_eq!(err, ExportError::ArityOverflow);
    assert_eq!(obj.globals.len(), 0);
    let placement = obj.export_function("my_module", "sum", 255, true);
    assert!(placement.is_ok());
}

#[test]
fn duplicate_export_leaves_the_object_unchanged() {
    let mut obj = CodeObject::new(MetadataLayout::Extended, TableStrategy::Directive);
    obj.export_function("my_module", "sum", 2, true).unwrap();
    let globals_before = obj.globals.len();
    let err = obj.export_function("my_module", "sum", 3, true).unwrap_err();
    assert_eq!(err, ExportError::DuplicateExport);
    assert_eq!(obj.globals.len(), globals_before);
    assert_eq!(obj.table.len(), 1);
}

#[test]
fn finalize_of_an_empty_object() {
    let mut obj = CodeObject::new(MetadataLayout::Extended, TableStrategy::Directive);
    obj.finalize();
    assert!(obj.finalized);
    assert!(obj.inline_asm.is_empty());
    assert!(obj.globals.is_empty());

    let mut obj = CodeObject::new(MetadataLayout::Minimal, TableStrategy::StructTable);
    obj.finalize();
    assert!(obj.globals.is_empty());
}
