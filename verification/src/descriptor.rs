//! The in-memory description of one exportable function.

use vstd::prelude::*;
use vstd::string::*;
use crate::errors::ExportError;
use crate::mangle::{valid_identifier, spec_mangle, mangle};

verus! {

/// One exportable function: its human-readable name, the module it
/// belongs to, the derived mangled symbol, and its arity.
#[derive(Debug)]
pub struct ExportDescriptor {
    pub module_name: String,
    pub source_name: String,
    pub mangled_symbol: String,
    pub arg_count: u8,
    pub has_return: bool,
}

/// The mathematical content of an `ExportDescriptor`.
pub struct ExportDescriptorView {
    pub module_name: Seq<char>,
    pub source_name: Seq<char>,
    pub mangled_symbol: Seq<char>,
    pub arg_count: u8,
    pub has_return: bool,
}

impl View for ExportDescriptor {
    type V = ExportDescriptorView;

    open spec fn view(&self) -> ExportDescriptorView {
        ExportDescriptorView {
            module_name: self.module_name@,
            source_name: self.source_name@,
            mangled_symbol: self.mangled_symbol@,
            arg_count: self.arg_count,
            has_return: self.has_return,
        }
    }
}

/// The descriptor content derived from plain inputs: the mangled symbol
/// is the one the names determine.
pub open spec fn spec_descriptor(
    module_name: Seq<char>,
    source_name: Seq<char>,
    arg_count: u8,
    has_return: bool,
) -> ExportDescriptorView {
    ExportDescriptorView {
        module_name,
        source_name,
        mangled_symbol: spec_mangle(module_name, source_name),
        arg_count,
        has_return,
    }
}

impl ExportDescriptorView {
    /// Both names are acceptable identifiers, the source name fits the
    /// four-byte length field of the extended record, and the mangled
    /// symbol is the one derived from the names.
    pub open spec fn wf(self) -> bool {
        &&& valid_identifier(self.module_name)
        &&& valid_identifier(self.source_name)
        &&& self.source_name.len() <= u32::MAX
        &&& self.mangled_symbol == spec_mangle(self.module_name, self.source_name)
    }
}

impl ExportDescriptor {
    /// See `ExportDescriptorView::wf`.
    pub open spec fn wf(&self) -> bool {
        self@.wf()
    }

    /// Builds a descriptor, deriving the mangled symbol from the names.
    ///
    /// An empty or non-ASCII name, and a source name longer than the
    /// four-byte length field of the extended record can carry, are
    /// rejected as `InvalidIdentifier`; an argument count above the
    /// one-byte arity field is rejected as `ArityOverflow`.
    pub fn new(module_name: &str, source_name: &str, arg_count: usize, has_return: bool) -> (r:
        Result<ExportDescriptor, ExportError>)
        ensures
            match r {
                Ok(d) => {
                    &&& valid_identifier(module_name@)
                    &&& valid_identifier(source_name@)
                    &&& source_name@.len() <= u32::MAX
                    &&& arg_count <= u8::MAX
                    &&& d@.module_name == module_name@
                    &&& d@.source_name == source_name@
                    &&& d@.arg_count == arg_count as u8
                    &&& d@.has_return == has_return
                    &&& d.wf()
                },
                Err(e) => {
                    &&& !({
                        &&& valid_identifier(module_name@)
                        &&& valid_identifier(source_name@)
                        &&& source_name@.len() <= u32::MAX
                        &&& arg_count <= u8::MAX
                    })
                    &&& e == (if valid_identifier(module_name@) && valid_identifier(source_name@)
                        && source_name@.len() <= u32::MAX {
                        ExportError::ArityOverflow
                    } else {
                        ExportError::InvalidIdentifier
                    })
                },
            },
    {
        if module_name.is_empty() || !module_name.is_ascii() || source_name.is_empty()
            || !source_name.is_ascii() {
            return Err(ExportError::InvalidIdentifier);
        }
        let source_bytes = source_name.as_bytes();
        proof {
            vstd::utf8::is_ascii_chars_encode_utf8(source_name@);
        }
        if source_bytes.len() > u32::MAX as usize {
            return Err(ExportError::InvalidIdentifier);
        }
        if arg_count > u8::MAX as usize {
            return Err(ExportError::ArityOverflow);
        }
        let mangled_symbol = mangle(module_name, source_name);
        Ok(ExportDescriptor {
            module_name: String::from_str(module_name),
            source_name: String::from_str(source_name),
            mangled_symbol,
            arg_count: arg_count as u8,
            has_return,
        })
    }
}

} // verus!
