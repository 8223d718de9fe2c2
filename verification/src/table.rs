//! The export table: an ordered aggregation of per-function entries.
//!
//! Entries keep the order in which exports were registered, and a function
//! symbol may be registered only once. Finalizing renders the table either
//! as one struct global per entry for the exports section, or as a textual
//! directive block that registers every entry outside the normal object
//! model.

use vstd::prelude::*;
use vstd::string::*;
use crate::errors::ExportError;
use crate::numerals::{spec_dec, push_dec};
use crate::records::{GlobalDef, GlobalDefView, GlobalInit, GlobalInitView, Linkage,
    spec_exports_section, exports_section};

verus! {

/// One export table entry: a record version byte and the symbols of the
/// metadata record and of the exported function it belongs to.
pub struct ExportTableEntry {
    pub version: u8,
    pub metadata_symbol: String,
    pub function_symbol: String,
}

/// The mathematical content of an `ExportTableEntry`.
pub struct ExportTableEntryView {
    pub version: u8,
    pub metadata_symbol: Seq<char>,
    pub function_symbol: Seq<char>,
}

impl View for ExportTableEntry {
    type V = ExportTableEntryView;

    open spec fn view(&self) -> ExportTableEntryView {
        ExportTableEntryView {
            version: self.version,
            metadata_symbol: self.metadata_symbol@,
            function_symbol: self.function_symbol@,
        }
    }
}

impl ExportTableEntry {
    /// A copy of the entry with the same content.
    pub fn duplicate(&self) -> (r: ExportTableEntry)
        ensures
            r@ == self@,
    {
        ExportTableEntry {
            version: self.version,
            metadata_symbol: self.metadata_symbol.clone(),
            function_symbol: self.function_symbol.clone(),
        }
    }
}

/// Whether some entry of `entries` already carries `function_symbol`.
pub open spec fn spec_contains_function(
    entries: Seq<ExportTableEntryView>,
    function_symbol: Seq<char>,
) -> bool {
    exists|i: int| 0 <= i < entries.len() && entries[i].function_symbol == function_symbol
}

/// The export table under construction.
pub struct ExportTable {
    entries: Vec<ExportTableEntry>,
}

impl View for ExportTable {
    type V = Seq<ExportTableEntryView>;

    closed spec fn view(&self) -> Seq<ExportTableEntryView> {
        self.entries@.map_values(|e: ExportTableEntry| e@)
    }
}

impl ExportTable {
    /// Every entry carries record version one, and no function symbol
    /// occurs twice.
    pub open spec fn wf(&self) -> bool {
        &&& forall|i: int| 0 <= i < self@.len() ==> (#[trigger] self@[i]).version == 1
        &&& forall|i: int, j: int|
            0 <= i < j < self@.len() ==> (#[trigger] self@[i]).function_symbol != (
            #[trigger] self@[j]).function_symbol
    }

    /// An empty table.
    pub fn new() -> (r: ExportTable)
        ensures
            r@ == Seq::<ExportTableEntryView>::empty(),
            r.wf(),
    {
        let r = ExportTable { entries: Vec::new() };
        proof {
            assert(r@ =~= Seq::<ExportTableEntryView>::empty());
        }
        r
    }

    /// The number of registered entries.
    pub fn len(&self) -> (r: usize)
        ensures
            r == self@.len(),
    {
        self.entries.len()
    }

    /// A copy of the entry at `index`.
    pub fn entry_at(&self, index: usize) -> (r: ExportTableEntry)
        requires
            index < self@.len(),
        ensures
            r@ == self@[index as int],
    {
        self.entries[index].duplicate()
    }

    /// Registers one export. The entry is appended, keeping registration
    /// order, unless the function symbol is already present; then the
    /// registration is rejected as `DuplicateExport` and the table is left
    /// unchanged.
    pub fn register(&mut self, metadata_symbol: String, function_symbol: String) -> (r: Result<
        (),
        ExportError,
    >)
        requires
            old(self).wf(),
        ensures
            final(self).wf(),
            match r {
                Ok(()) => !spec_contains_function(old(self)@, function_symbol@) && final(self)@
                    == old(self)@.push(
                    ExportTableEntryView {
                        version: 1,
                        metadata_symbol: metadata_symbol@,
                        function_symbol: function_symbol@,
                    },
                ),
                Err(e) => spec_contains_function(old(self)@, function_symbol@) && e
                    == ExportError::DuplicateExport && final(self)@ == old(self)@,
            },
    {
        let n = self.entries.len();
        for i in 0..n
            invariant
                n == self.entries.len(),
                *self == *old(self),
                self.wf(),
                forall|j: int| 0 <= j < i ==> (#[trigger] self@[j]).function_symbol
                    != function_symbol@,
        {
            if self.entries[i].function_symbol == function_symbol {
                proof {
                    assert(self@[i as int].function_symbol == function_symbol@);
                }
                return Err(ExportError::DuplicateExport);
            }
        }
        let entry = ExportTableEntry { version: 1, metadata_symbol, function_symbol };
        self.entries.push(entry);
        proof {
            assert(final(self)@ =~= old(self)@.push(
                ExportTableEntryView {
                    version: 1,
                    metadata_symbol: metadata_symbol@,
                    function_symbol: function_symbol@,
                },
            ));
        }
        Ok(())
    }

    /// Renders the table with the struct strategy: one entry global per
    /// export for the exports section, in registration order.
    pub fn finalize_structs(&self) -> (r: Vec<GlobalDef>)
        ensures
            r@.map_values(|g: GlobalDef| g@) == spec_struct_globals(self@),
    {
        let n = self.entries.len();
        let mut r: Vec<GlobalDef> = Vec::new();
        for i in 0..n
            invariant
                n == self.entries.len(),
                r@.map_values(|g: GlobalDef| g@) =~= spec_struct_globals(self@.take(i as int)),
        {
            let entry = self.entries[i].duplicate();
            r.push(entry_global(entry));
            proof {
                assert(self@.take(i + 1).drop_last() =~= self@.take(i as int));
                assert(self@.take(i + 1).last() == self@[i as int]);
                assert(r@.map_values(|g: GlobalDef| g@) =~= spec_struct_globals(
                    self@.take(i + 1),
                ));
            }
        }
        proof {
            assert(self@.take(n as int) =~= self@);
        }
        r
    }

    /// Renders the table with the directive strategy: one push/pop
    /// directive block per export, concatenated in registration order.
    pub fn finalize_directives(&self) -> (r: String)
        ensures
            r@ == spec_directives(self@),
    {
        let n = self.entries.len();
        let mut r = String::new();
        for i in 0..n
            invariant
                n == self.entries.len(),
                r@ =~= spec_directives(self@.take(i as int)),
        {
            let entry = &self.entries[i];
            r.append(".pushsection .polkavm_exports,\"R\",@note\n");
            r.append(".byte ");
            push_dec(&mut r, entry.version as u64);
            r.append("\n");
            r.append(".4byte ");
            r.append(entry.metadata_symbol.as_str());
            r.append("\n");
            r.append(".4byte ");
            r.append(entry.function_symbol.as_str());
            r.append("\n");
            r.append(".popsection\n");
            proof {
                assert(self@.take(i + 1).drop_last() =~= self@.take(i as int));
                assert(self@.take(i + 1).last() == self@[i as int]);
                assert(r@ =~= spec_directives(self@.take(i + 1)));
            }
        }
        proof {
            assert(self@.take(n as int) =~= self@);
        }
        r
    }
}

/// The symbol under which an entry's struct global is emitted: derived
/// from the function symbol, so that distinct exports get distinct
/// globals.
pub open spec fn spec_entry_global_symbol(e: ExportTableEntryView) -> Seq<char> {
    "export_"@ + e.function_symbol
}

/// An entry as a struct global for the exports section: external linkage
/// keeps the table rows alive for the downstream loader even though no
/// code refers to them.
pub open spec fn spec_entry_global(e: ExportTableEntryView) -> GlobalDefView {
    GlobalDefView {
        symbol: spec_entry_global_symbol(e),
        section: spec_exports_section(),
        linkage: Linkage::External,
        alignment: Some(1u32),
        constant: true,
        unnamed_addr: false,
        init: GlobalInitView::TableEntry(e),
    }
}

/// The struct globals of a whole table, in entry order.
pub open spec fn spec_struct_globals(entries: Seq<ExportTableEntryView>) -> Seq<GlobalDefView>
    decreases entries.len(),
{
    if entries.len() == 0 {
        Seq::empty()
    } else {
        spec_struct_globals(entries.drop_last()).push(spec_entry_global(entries.last()))
    }
}

/// Builds the struct global of one entry.
fn entry_global(entry: ExportTableEntry) -> (r: GlobalDef)
    ensures
        r@ == spec_entry_global(entry@),
{
    let mut symbol = String::from_str("export_");
    symbol.append(entry.function_symbol.as_str());
    proof {
        assert(symbol@ =~= spec_entry_global_symbol(entry@));
    }
    GlobalDef {
        symbol,
        section: String::from_str(exports_section()),
        linkage: Linkage::External,
        alignment: Some(1u32),
        constant: true,
        unnamed_addr: false,
        init: GlobalInit::TableEntry(entry),
    }
}

/// The directive block of one entry: a push/pop-delimited region in the
/// exports section holding a version byte and four-byte relocations to
/// the metadata symbol and to the function symbol.
pub open spec fn spec_directive_entry(e: ExportTableEntryView) -> Seq<char> {
    ".pushsection .polkavm_exports,\"R\",@note\n"@ + ".byte "@ + spec_dec(e.version as nat)
        + "\n"@ + ".4byte "@ + e.metadata_symbol + "\n"@ + ".4byte "@ + e.function_symbol + "\n"@
        + ".popsection\n"@
}

/// The directive blocks of a whole table, concatenated in entry order.
pub open spec fn spec_directives(entries: Seq<ExportTableEntryView>) -> Seq<char>
    decreases entries.len(),
{
    if entries.len() == 0 {
        Seq::empty()
    } else {
        spec_directives(entries.drop_last()) + spec_directive_entry(entries.last())
    }
}

/// The struct rendering keeps registration order: it has one row per
/// entry, and row `i` is the global of entry `i`.
pub proof fn lemma_struct_globals_order(entries: Seq<ExportTableEntryView>)
    ensures
        spec_struct_globals(entries).len() == entries.len(),
        forall|i: int| 0 <= i < entries.len() ==> #[trigger] spec_struct_globals(entries)[i]
            == spec_entry_global(entries[i]),
    decreases entries.len(),
{
    if entries.len() > 0 {
        lemma_struct_globals_order(entries.drop_last());
    }
}

/// The directive rendering keeps registration order: registering one more
/// entry appends exactly that entry's directive block to the text.
pub proof fn lemma_directives_push(entries: Seq<ExportTableEntryView>, e: ExportTableEntryView)
    ensures
        spec_directives(entries.push(e)) == spec_directives(entries) + spec_directive_entry(e),
{
    assert(entries.push(e).drop_last() =~= entries);
    assert(entries.push(e).last() == e);
}

} // verus!
