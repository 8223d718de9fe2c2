//! The driver: building one code object's export surface.
//!
//! A `CodeObject` collects, for one output object, the globals that carry
//! metadata records, the export table, and a raw directive buffer that is
//! filled at most once, at finalize time. Exporting a function derives its
//! symbols, encodes its record under the object's configured layout,
//! registers it in the table, and says where the function body must be
//! placed; finalizing renders the table under the configured strategy.

use vstd::prelude::*;
use vstd::string::*;
use crate::descriptor::{ExportDescriptor, ExportDescriptorView, spec_descriptor};
use crate::errors::ExportError;
use crate::mangle::{valid_identifier, spec_mangle, spec_mangle_metadata, mangle_metadata};
use crate::records::{
    GlobalDef, GlobalDefView, Linkage, spec_extended_global, spec_minimal_global,
    spec_name_blob_global, encode_extended, encode_minimal,
};
use crate::table::{
    ExportTable, ExportTableEntryView, spec_contains_function, spec_directives,
    spec_struct_globals,
};

verus! {

/// Which record layout a code object emits for each export.
#[derive(Clone, Copy, Debug, PartialEq, Eq, Structural)]
pub enum MetadataLayout {
    Minimal,
    Extended,
}

/// How the export table is rendered at finalize time.
#[derive(Clone, Copy, Debug, PartialEq, Eq, Structural)]
pub enum TableStrategy {
    StructTable,
    Directive,
}

/// Where the front end must place an exported function's body: under its
/// mangled symbol, in a per-function text section, with internal linkage,
/// so that the metadata records and the table rows remain the only
/// externally discoverable export surface.
#[derive(Debug)]
pub struct FunctionPlacement {
    pub symbol: String,
    pub section: String,
    pub linkage: Linkage,
}

/// The mathematical content of a `FunctionPlacement`.
pub struct FunctionPlacementView {
    pub symbol: Seq<char>,
    pub section: Seq<char>,
    pub linkage: Linkage,
}

impl View for FunctionPlacement {
    type V = FunctionPlacementView;

    open spec fn view(&self) -> FunctionPlacementView {
        FunctionPlacementView {
            symbol: self.symbol@,
            section: self.section@,
            linkage: self.linkage,
        }
    }
}

/// The prefix of the per-function text sections.
pub open spec fn spec_text_section_prefix() -> Seq<char> {
    ".text.polkavm_export."@
}

/// The section that holds an exported function's body.
pub fn text_section(function_name: &str) -> (r: String)
    ensures
        r@ == spec_text_section_prefix() + function_name@,
{
    let mut r = String::from_str(".text.polkavm_export.");
    r.append(function_name);
    r
}

/// The globals one export adds under the given layout.
pub open spec fn spec_layout_globals(layout: MetadataLayout, d: ExportDescriptorView) -> Seq<
    GlobalDefView,
> {
    match layout {
        MetadataLayout::Minimal => seq![spec_minimal_global(d)],
        MetadataLayout::Extended => seq![spec_name_blob_global(d), spec_extended_global(d)],
    }
}

/// The code object under construction.
pub struct CodeObject {
    pub layout: MetadataLayout,
    pub strategy: TableStrategy,
    pub globals: Vec<GlobalDef>,
    pub table: ExportTable,
    /// The raw directive buffer, bypassing the structured object model;
    /// appended to at most once, at finalize time.
    pub inline_asm: String,
    pub finalized: bool,
}

impl CodeObject {
    /// The table is well formed, and the directive buffer stays empty
    /// until the object is finalized.
    pub open spec fn wf(&self) -> bool {
        &&& self.table.wf()
        &&& !self.finalized ==> self.inline_asm@ == Seq::<char>::empty()
    }

    /// The contents of the emitted globals.
    pub open spec fn spec_globals(&self) -> Seq<GlobalDefView> {
        self.globals@.map_values(|g: GlobalDef| g@)
    }

    /// A fresh object with the given layout and table strategy.
    pub fn new(layout: MetadataLayout, strategy: TableStrategy) -> (r: CodeObject)
        ensures
            r.wf(),
            r.layout == layout,
            r.strategy == strategy,
            r.spec_globals() == Seq::<GlobalDefView>::empty(),
            r.table@ == Seq::<ExportTableEntryView>::empty(),
            r.inline_asm@ == Seq::<char>::empty(),
            !r.finalized,
    {
        let r = CodeObject {
            layout,
            strategy,
            globals: Vec::new(),
            table: ExportTable::new(),
            inline_asm: String::new(),
            finalized: false,
        };
        proof {
            assert(r.spec_globals() =~= Seq::<GlobalDefView>::empty());
        }
        r
    }

    /// Exports one function: derives its symbols, encodes its metadata
    /// under the object's layout, registers it in the export table, and
    /// returns where the function body must be placed.
    ///
    /// Nothing is emitted on an error: an unacceptable name is rejected as
    /// `InvalidIdentifier`, an argument count beyond the one-byte arity
    /// field as `ArityOverflow`, and an already registered function symbol
    /// as `DuplicateExport`, each leaving the object unchanged.
    pub fn export_function(
        &mut self,
        module_name: &str,
        function_name: &str,
        arg_count: usize,
        has_return: bool,
    ) -> (r: Result<FunctionPlacement, ExportError>)
        requires
            old(self).wf(),
            !old(self).finalized,
        ensures
            final(self).wf(),
            final(self).layout == old(self).layout,
            final(self).strategy == old(self).strategy,
            final(self).finalized == old(self).finalized,
            final(self).inline_asm == old(self).inline_asm,
            match r {
                Ok(p) => ({
                    let accepted = valid_identifier(module_name@) && valid_identifier(
                        function_name@,
                    ) && function_name@.len() <= u32::MAX && arg_count <= u8::MAX;
                    &&& accepted
                    &&& !spec_contains_function(
                        old(self).table@,
                        spec_mangle(module_name@, function_name@),
                    )
                    &&& p@.symbol == spec_mangle(module_name@, function_name@)
                    &&& p@.section == spec_text_section_prefix() + function_name@
                    &&& p@.linkage == Linkage::Internal
                    &&& final(self).table@ == old(self).table@.push(
                        ExportTableEntryView {
                            version: 1,
                            metadata_symbol: spec_mangle_metadata(module_name@, function_name@),
                            function_symbol: spec_mangle(module_name@, function_name@),
                        },
                    )
                    &&& final(self).spec_globals() == old(self).spec_globals()
                        + spec_layout_globals(
                        old(self).layout,
                        spec_descriptor(
                            module_name@,
                            function_name@,
                            arg_count as u8,
                            has_return,
                        ),
                    )
                }),
                Err(e) => ({
                    let names_ok = valid_identifier(module_name@) && valid_identifier(
                        function_name@,
                    ) && function_name@.len() <= u32::MAX;
                    &&& final(self).table@ == old(self).table@
                    &&& final(self).spec_globals() == old(self).spec_globals()
                    &&& !(names_ok && arg_count <= u8::MAX && !spec_contains_function(
                        old(self).table@,
                        spec_mangle(module_name@, function_name@),
                    ))
                    &&& e == (if !names_ok {
                        ExportError::InvalidIdentifier
                    } else if arg_count > u8::MAX {
                        ExportError::ArityOverflow
                    } else {
                        ExportError::DuplicateExport
                    })
                }),
            },
    {
        let d = match ExportDescriptor::new(module_name, function_name, arg_count, has_return) {
            Ok(d) => d,
            Err(e) => {
                return Err(e);
            },
        };
        let metadata_symbol = mangle_metadata(module_name, function_name);
        let function_symbol = d.mangled_symbol.clone();
        // Register before anything is emitted, so that a rejected export
        // leaves no bytes behind.
        match self.table.register(metadata_symbol, function_symbol) {
            Ok(()) => {},
            Err(e) => {
                return Err(e);
            },
        }
        match self.layout {
            MetadataLayout::Minimal => {
                let g = encode_minimal(&d);
                self.globals.push(g);
            },
            MetadataLayout::Extended => {
                let (blob, record) = encode_extended(&d);
                self.globals.push(blob);
                self.globals.push(record);
            },
        }
        proof {
            assert(self.spec_globals() =~= old(self).spec_globals() + spec_layout_globals(
                old(self).layout,
                spec_descriptor(module_name@, function_name@, arg_count as u8, has_return),
            ));
        }
        let placement = FunctionPlacement {
            symbol: d.mangled_symbol,
            section: text_section(function_name),
            linkage: Linkage::Internal,
        };
        Ok(placement)
    }

    /// Finalizes the object: renders the export table exactly once. With
    /// the struct strategy one row global per entry is appended to the
    /// globals; with the directive strategy the directive block is
    /// appended to the raw directive buffer.
    pub fn finalize(&mut self)
        requires
            old(self).wf(),
            !old(self).finalized,
        ensures
            final(self).wf(),
            final(self).finalized,
            final(self).layout == old(self).layout,
            final(self).strategy == old(self).strategy,
            final(self).table@ == old(self).table@,
            match old(self).strategy {
                TableStrategy::StructTable => final(self).spec_globals() == old(
                    self,
                ).spec_globals() + spec_struct_globals(old(self).table@) && final(self).inline_asm@
                    == old(self).inline_asm@,
                TableStrategy::Directive => final(self).spec_globals() == old(self).spec_globals()
                    && final(self).inline_asm@ == spec_directives(old(self).table@),
            },
    {
        match self.strategy {
            TableStrategy::StructTable => {
                let mut rows = self.table.finalize_structs();
                self.globals.append(&mut rows);
                proof {
                    assert(self.spec_globals() =~= old(self).spec_globals() + spec_struct_globals(
                        old(self).table@,
                    ));
                }
            },
            TableStrategy::Directive => {
                let directives = self.table.finalize_directives();
                self.inline_asm.append(directives.as_str());
                proof {
                    assert(self.inline_asm@ =~= spec_directives(old(self).table@));
                }
            },
        }
        self.finalized = true;
    }
}

} // verus!
