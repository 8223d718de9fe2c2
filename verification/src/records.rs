//! Binary metadata records and the globals that carry them.
//!
//! A descriptor is serialized into one of two layouts. The minimal layout
//! is a nine-byte marker record. The extended layout is a packed struct:
//! nine header bytes (version, flags, name length), a pointer to a blob
//! holding the raw name bytes, and two trailing arity bytes. Each encoded
//! piece is handed to the code-generation front end as a named global with
//! an explicit section, linkage, and alignment.

use vstd::prelude::*;
use vstd::string::*;
use vstd::slice::{slice_subrange, slice_to_vec};
use vstd::utf8::{encode_utf8, is_ascii_chars_encode_utf8};
use crate::descriptor::{ExportDescriptor, ExportDescriptorView};
use crate::errors::ExportError;
use crate::mangle::{
    spec_alloc_section, spec_alloc_symbol, spec_mangle_metadata, alloc_section, alloc_symbol,
    mangle_metadata,
};
use crate::numerals::{
    spec_u32_from_le_bytes, spec_u32_le_bytes, lemma_u32_from_le_bytes_zero,
    lemma_u32_le_bytes_round_trip, u32_from_le_bytes, u32_le_bytes,
};

verus! {

/// Linker visibility of an emitted global.
#[derive(Clone, Copy, Debug, PartialEq, Eq, Structural)]
pub enum Linkage {
    External,
    Internal,
    Private,
}

/// The packed extended metadata record: nine header bytes, a pointer to
/// the name blob (held by the blob's symbol, since the address itself is
/// assigned by the front end), and two trailing arity bytes.
pub struct ExtendedRecord {
    pub header: Vec<u8>,
    pub pointee_symbol: String,
    pub trailer: Vec<u8>,
}

/// The mathematical content of an `ExtendedRecord`.
pub struct ExtendedRecordView {
    pub header: Seq<u8>,
    pub pointee_symbol: Seq<char>,
    pub trailer: Seq<u8>,
}

impl View for ExtendedRecord {
    type V = ExtendedRecordView;

    open spec fn view(&self) -> ExtendedRecordView {
        ExtendedRecordView {
            header: self.header@,
            pointee_symbol: self.pointee_symbol@,
            trailer: self.trailer@,
        }
    }
}

/// The initializer of an emitted global.
pub enum GlobalInit {
    /// Raw bytes.
    Bytes(Vec<u8>),
    /// The packed extended metadata record.
    Record(ExtendedRecord),
    /// An export table row: a version byte and two pointer fields, held
    /// by the symbols they refer to.
    TableEntry(crate::table::ExportTableEntry),
}

/// The mathematical content of a `GlobalInit`.
pub enum GlobalInitView {
    Bytes(Seq<u8>),
    Record(ExtendedRecordView),
    TableEntry(crate::table::ExportTableEntryView),
}

impl View for GlobalInit {
    type V = GlobalInitView;

    open spec fn view(&self) -> GlobalInitView {
        match self {
            GlobalInit::Bytes(bytes) => GlobalInitView::Bytes(bytes@),
            GlobalInit::Record(record) => GlobalInitView::Record(record@),
            GlobalInit::TableEntry(entry) => GlobalInitView::TableEntry(entry@),
        }
    }
}

/// A named global to be placed in the output code object by the
/// code-generation front end.
pub struct GlobalDef {
    pub symbol: String,
    pub section: String,
    pub linkage: Linkage,
    /// `None` asks for the front end's default alignment.
    pub alignment: Option<u32>,
    pub constant: bool,
    /// Whether the global's address is insignificant to the program.
    pub unnamed_addr: bool,
    pub init: GlobalInit,
}

/// The mathematical content of a `GlobalDef`.
pub struct GlobalDefView {
    pub symbol: Seq<char>,
    pub section: Seq<char>,
    pub linkage: Linkage,
    pub alignment: Option<u32>,
    pub constant: bool,
    pub unnamed_addr: bool,
    pub init: GlobalInitView,
}

impl View for GlobalDef {
    type V = GlobalDefView;

    open spec fn view(&self) -> GlobalDefView {
        GlobalDefView {
            symbol: self.symbol@,
            section: self.section@,
            linkage: self.linkage,
            alignment: self.alignment,
            constant: self.constant,
            unnamed_addr: self.unnamed_addr,
            init: self.init@,
        }
    }
}

/// The section that holds the export table and the minimal records.
pub open spec fn spec_exports_section() -> Seq<char> {
    ".polkavm_exports"@
}

/// The section that holds the extended metadata records.
pub open spec fn spec_metadata_section() -> Seq<char> {
    ".polkavm_metadata"@
}

/// See `spec_exports_section`.
pub fn exports_section() -> (r: &'static str)
    ensures
        r@ == spec_exports_section(),
{
    ".polkavm_exports"
}

/// See `spec_metadata_section`.
pub fn metadata_section() -> (r: &'static str)
    ensures
        r@ == spec_metadata_section(),
{
    ".polkavm_metadata"
}

/// The minimal export record: a version byte of one followed by eight
/// reserved zero bytes.
pub open spec fn spec_minimal_record() -> Seq<u8> {
    seq![1u8, 0u8, 0u8, 0u8, 0u8, 0u8, 0u8, 0u8, 0u8]
}

/// The nine header bytes of an extended record: version one, four zero
/// flag bytes, and the name length as a little-endian 32-bit value.
pub open spec fn spec_extended_header(name_len: u32) -> Seq<u8> {
    seq![1u8, 0u8, 0u8, 0u8, 0u8] + spec_u32_le_bytes(name_len)
}

/// The two trailing bytes of an extended record: the argument count and
/// the return-value count (one when the function yields a value).
pub open spec fn spec_extended_trailer(arg_count: u8, has_return: bool) -> Seq<u8> {
    seq![arg_count, if has_return { 1u8 } else { 0u8 }]
}

/// The minimal record as a global: placed in the exports section with
/// external linkage, so that the linker keeps the otherwise unreferenced
/// marker, under the function's metadata symbol.
pub open spec fn spec_minimal_global(d: ExportDescriptorView) -> GlobalDefView {
    GlobalDefView {
        symbol: spec_mangle_metadata(d.module_name, d.source_name),
        section: spec_exports_section(),
        linkage: Linkage::External,
        alignment: None,
        constant: true,
        unnamed_addr: false,
        init: GlobalInitView::Bytes(spec_minimal_record()),
    }
}

/// The name blob as a global: the raw UTF-8 bytes of the source name,
/// read-only, byte-aligned, private, and address-insignificant.
pub open spec fn spec_name_blob_global(d: ExportDescriptorView) -> GlobalDefView {
    GlobalDefView {
        symbol: spec_alloc_symbol(d.source_name),
        section: spec_alloc_section(d.source_name),
        linkage: Linkage::Private,
        alignment: Some(1u32),
        constant: true,
        unnamed_addr: true,
        init: GlobalInitView::Bytes(encode_utf8(d.source_name)),
    }
}

/// The extended record as a global: placed in the metadata section,
/// byte-aligned, read-only, with internal linkage, under the function's
/// metadata symbol; its pointer field refers to the name blob.
pub open spec fn spec_extended_global(d: ExportDescriptorView) -> GlobalDefView {
    GlobalDefView {
        symbol: spec_mangle_metadata(d.module_name, d.source_name),
        section: spec_metadata_section(),
        linkage: Linkage::Internal,
        alignment: Some(1u32),
        constant: true,
        unnamed_addr: false,
        init: GlobalInitView::Record(
            ExtendedRecordView {
                header: spec_extended_header(d.source_name.len() as u32),
                pointee_symbol: spec_alloc_symbol(d.source_name),
                trailer: spec_extended_trailer(d.arg_count, d.has_return),
            },
        ),
    }
}

/// Encodes the minimal nine-byte export record.
pub fn encode_minimal_record() -> (r: Vec<u8>)
    ensures
        r@ == spec_minimal_record(),
{
    let r: Vec<u8> = vec![1u8, 0u8, 0u8, 0u8, 0u8, 0u8, 0u8, 0u8, 0u8];
    proof {
        assert(r@ =~= spec_minimal_record());
    }
    r
}

/// Encodes the nine header bytes of an extended record.
pub fn encode_extended_header(name_len: u32) -> (r: Vec<u8>)
    ensures
        r@ == spec_extended_header(name_len),
{
    let mut r: Vec<u8> = vec![1u8, 0u8, 0u8, 0u8, 0u8];
    let mut le = u32_le_bytes(name_len);
    r.append(&mut le);
    proof {
        assert(r@ =~= spec_extended_header(name_len));
    }
    r
}

/// Encodes a descriptor in the minimal layout: one linker-visible marker
/// record in the exports section.
pub fn encode_minimal(d: &ExportDescriptor) -> (g: GlobalDef)
    requires
        d.wf(),
    ensures
        g@ == spec_minimal_global(d@),
{
    GlobalDef {
        symbol: mangle_metadata(d.module_name.as_str(), d.source_name.as_str()),
        section: String::from_str(exports_section()),
        linkage: Linkage::External,
        alignment: None,
        constant: true,
        unnamed_addr: false,
        init: GlobalInit::Bytes(encode_minimal_record()),
    }
}

/// Encodes a descriptor in the extended layout: the name blob, then the
/// packed metadata record whose pointer field refers to the blob.
pub fn encode_extended(d: &ExportDescriptor) -> (r: (GlobalDef, GlobalDef))
    requires
        d.wf(),
    ensures
        r.0@ == spec_name_blob_global(d@),
        r.1@ == spec_extended_global(d@),
{
    proof {
        is_ascii_chars_encode_utf8(d.source_name@);
    }
    let name_bytes = slice_to_vec(d.source_name.as_str().as_bytes());
    let name_len = name_bytes.len() as u32;
    let blob = GlobalDef {
        symbol: alloc_symbol(d.source_name.as_str()),
        section: alloc_section(d.source_name.as_str()),
        linkage: Linkage::Private,
        alignment: Some(1u32),
        constant: true,
        unnamed_addr: true,
        init: GlobalInit::Bytes(name_bytes),
    };
    let record = GlobalDef {
        symbol: mangle_metadata(d.module_name.as_str(), d.source_name.as_str()),
        section: String::from_str(metadata_section()),
        linkage: Linkage::Internal,
        alignment: Some(1u32),
        constant: true,
        unnamed_addr: false,
        init: GlobalInit::Record(
            ExtendedRecord {
                header: encode_extended_header(name_len),
                pointee_symbol: alloc_symbol(d.source_name.as_str()),
                trailer: encode_extended_trailer(d.arg_count, d.has_return),
            },
        ),
    };
    (blob, record)
}

/// Encodes the two trailing arity bytes of an extended record.
pub fn encode_extended_trailer(arg_count: u8, has_return: bool) -> (r: Vec<u8>)
    ensures
        r@ == spec_extended_trailer(arg_count, has_return),
{
    let second: u8 = if has_return {
        1u8
    } else {
        0u8
    };
    let r: Vec<u8> = vec![arg_count, second];
    proof {
        assert(r@ =~= spec_extended_trailer(arg_count, has_return));
    }
    r
}

/// What decoding a minimal record reads back.
#[derive(Debug)]
pub struct DecodedMinimal {
    pub version: u8,
    pub reserved: Vec<u8>,
}

/// Reading a minimal record: nine bytes split into the version byte and
/// the eight reserved bytes; anything of another length is rejected.
pub open spec fn spec_decode_minimal(bytes: Seq<u8>) -> Result<(u8, Seq<u8>), ExportError> {
    if bytes.len() == 9 {
        Ok((bytes[0], bytes.subrange(1, 9)))
    } else {
        Err(ExportError::EncodingMismatch)
    }
}

/// Decodes a minimal export record.
pub fn decode_minimal_record(bytes: &[u8]) -> (r: Result<DecodedMinimal, ExportError>)
    ensures
        match r {
            Ok(dm) => spec_decode_minimal(bytes@) matches Ok(p) && dm.version == p.0
                && dm.reserved@ == p.1,
            Err(e) => spec_decode_minimal(bytes@) == Err::<(u8, Seq<u8>), ExportError>(e),
        },
{
    if bytes.len() != 9 {
        return Err(ExportError::EncodingMismatch);
    }
    let version = bytes[0];
    let reserved = slice_to_vec(slice_subrange(bytes, 1, 9));
    Ok(DecodedMinimal { version, reserved })
}

/// What decoding an extended record reads back.
#[derive(Clone, Copy, Debug, PartialEq, Eq, Structural)]
pub struct DecodedExtended {
    pub version: u8,
    pub flags: u32,
    pub name_len: u32,
    pub arg_count: u8,
    pub return_count: u8,
}

/// Reading an extended record: the version byte, the flag word and the
/// name length from the header, the two arity bytes from the trailer; a
/// header or trailer of another length is rejected.
pub open spec fn spec_decode_extended(r: ExtendedRecordView) -> Result<
    DecodedExtended,
    ExportError,
> {
    if r.header.len() == 9 && r.trailer.len() == 2 {
        Ok(
            DecodedExtended {
                version: r.header[0],
                flags: spec_u32_from_le_bytes(r.header.subrange(1, 5)),
                name_len: spec_u32_from_le_bytes(r.header.subrange(5, 9)),
                arg_count: r.trailer[0],
                return_count: r.trailer[1],
            },
        )
    } else {
        Err(ExportError::EncodingMismatch)
    }
}

/// Decodes an extended metadata record.
pub fn decode_extended_record(rec: &ExtendedRecord) -> (r: Result<DecodedExtended, ExportError>)
    ensures
        r == spec_decode_extended(rec@),
{
    if rec.header.len() != 9 || rec.trailer.len() != 2 {
        return Err(ExportError::EncodingMismatch);
    }
    let hdr = rec.header.as_slice();
    let version = hdr[0];
    let flags = u32_from_le_bytes(slice_subrange(hdr, 1, 5));
    let name_len = u32_from_le_bytes(slice_subrange(hdr, 5, 9));
    let arg_count = rec.trailer[0];
    let return_count = rec.trailer[1];
    Ok(DecodedExtended { version, flags, name_len, arg_count, return_count })
}

/// Round trip of the minimal layout: decoding the record it encodes reads
/// back version one and eight reserved bytes that are all zero.
pub proof fn lemma_minimal_round_trip()
    ensures
        spec_decode_minimal(spec_minimal_record()) matches Ok(p) && p.0 == 1 && p.1.len() == 8
            && forall|i: int| 0 <= i < 8 ==> #[trigger] p.1[i] == 0,
{
    let p = spec_decode_minimal(spec_minimal_record())->Ok_0;
    assert forall|i: int| 0 <= i < 8 implies #[trigger] p.1[i] == 0 by {
        assert(p.1[i] == spec_minimal_record()[i + 1]);
    }
}

/// Round trip of the extended layout: decoding the record encoded for a
/// well-formed descriptor reads back version one, a zero flag word, a
/// name length equal to the byte length of the associated name blob, and
/// the arity values the descriptor supplied; the record's pointer field
/// refers to that blob.
pub proof fn lemma_extended_round_trip(d: ExportDescriptorView)
    requires
        d.wf(),
    ensures
        ({
            let blob = spec_name_blob_global(d);
            let rec = spec_extended_global(d).init->Record_0;
            &&& spec_decode_extended(rec) matches Ok(dec) && {
                &&& dec.version == 1
                &&& dec.flags == 0
                &&& blob.init matches GlobalInitView::Bytes(name_bytes) && dec.name_len
                    == name_bytes.len()
                &&& dec.arg_count == d.arg_count
                &&& dec.return_count == (if d.has_return {
                    1u8
                } else {
                    0u8
                })
            }
            &&& rec.pointee_symbol == blob.symbol
        }),
{
    let name_len = d.source_name.len() as u32;
    let rec = spec_extended_global(d).init->Record_0;
    lemma_u32_le_bytes_round_trip(name_len);
    assert(rec.header.len() == 9);
    assert(rec.header.subrange(1, 5) =~= seq![0u8, 0u8, 0u8, 0u8]);
    lemma_u32_from_le_bytes_zero(rec.header.subrange(1, 5));
    assert(rec.header.subrange(5, 9) =~= spec_u32_le_bytes(name_len));
    is_ascii_chars_encode_utf8(d.source_name);
}

} // verus!
