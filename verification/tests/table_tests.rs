use polkavm_export::errors::ExportError;
use polkavm_export::records::{GlobalInit, Linkage};
use polkavm_export::table::ExportTable;

fn filled_table() -> ExportTable {
    let mut table = ExportTable::new();
    table.register(String::from("meta1"), String::from("f1")).unwrap();
    table.register(String::from("meta2"), String::from("f2")).unwrap();
    table.register(String::from("meta3"), String::from("f3")).unwrap();
    table
}

#[test]
fn entries_keep_registration_order() {
    let table = filled_table();
    assert_eq!(table.len(), 3);
    for (i, f) in ["f1", "f2", "f3"].iter().enumerate() {
        let entry = table.entry_at(i);
        assert_eq!(entry.version, 1);
        assert_eq!(entry.function_symbol, *f);
        assert_eq!(entry.metadata_symbol, format!("meta{}", i + 1));
    }
}

#[test]
fn struct_rendering_keeps_order() {
    let table = filled_table();
    let rows = table.finalize_structs();
    assert_eq!(rows.len(), 3);
    for (i, f) in ["f1", "f2", "f3"].iter().enumerate() {
        let row = &rows[i];
        assert_eq!(row.symbol, format!("export_{}", f));
        assert_eq!(row.section, ".polkavm_exports");
        assert_eq!(row.linkage, Linkage::External);
        assert_eq!(row.alignment, Some(1));
        assert!(row.constant);
        match &row.init {
            GlobalInit::TableEntry(entry) => {
                assert_eq!(entry.version, 1);
                assert_eq!(entry.metadata_symbol, format!("meta{}", i + 1));
                assert_eq!(entry.function_symbol, *f);
            }
            _ => panic!("a table row must hold an entry"),
        }
    }
}

#[test]
fn directive_rendering_keeps_order() {
    let table = filled_table();
    let text = table.finalize_directives();
    let mut expected = String::new();
    for (meta, f) in [("meta1", "f1"), ("meta2", "f2"), ("meta3", "f3")] {
        expected.push_str(&format!(
            ".pushsection .polkavm_exports,\"R\",@note\n.byte 1\n.4byte {}\n.4byte {}\n.popsection\n",
            meta, f
        ));
    }
    assert_eq!(text, expected);
}

#[test]
fn directive_rendering_of_one_entry() {
    let mut table = ExportTable::new();
    table.register(String::from("META"), String::from("FUNC")).unwrap();
    assert_eq!(
        table.finalize_directives(),
        ".pushsection .polkavm_exports,\"R\",@note\n.byte 1\n.4byte META\n.4byte FUNC\n.popsection\n"
    );
}

#[test]
fn empty_table_renders_nothing() {
    let table = ExportTable::new();
    assert_eq!(table.len(), 0);
    assert!(table.finalize_structs().is_empty());
    assert_eq!(table.finalize_directives(), "");
}

#[test]
fn duplicate_function_symbol_is_rejected() {
    let mut table = ExportTable::new();
    table.register(String::from("meta1"), String::from("f1")).unwrap();
    let err = table
        .register(String::from("meta_other"), String::from("f1"))
        .unwrap_err();
    assert_eq!(err, ExportError::DuplicateExport);
    // The failed registration leaves the table unchanged.
    assert_eq!(table.len(), 1);
    let entry = table.entry_at(0);
    assert_eq!(entry.metadata_symbol, "meta1");
    assert_eq!(entry.function_symbol, "f1");
}

#[test]
fn same_metadata_symbol_is_allowed_for_distinct_functions() {
    let mut table = ExportTable::new();
    table.register(String::from("meta"), String::from("f1")).unwrap();
    table.register(String::from("meta"), String::from("f2")).unwrap();
    assert_eq!(table.len(), 2);
}

#[test]
fn error_descriptions() {
    assert_eq!(ExportError::InvalidIdentifier.describe(), "invalid identifier");
    assert_eq!(ExportError::DuplicateExport.describe(), "duplicate export");
    assert_eq!(ExportError::ArityOverflow.describe(), "arity overflow");
    assert_eq!(ExportError::EncodingMismatch.describe(), "encoding mismatch");
}
