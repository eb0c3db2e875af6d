//! The `.hive` file format: header, section table and the tables the sections hold.
pub mod errors;
pub mod fields;
pub mod function_table;
pub mod header;
pub mod load_file;
pub mod section_table;
pub mod strings;
pub mod symbol_table;

pub use load_file::{load_file_by_data, LoadedFile};

use vstd::prelude::*;

use crate::parser::errors::LoadError;
use crate::parser::header::{decode_header, spec_header, Header};
use crate::parser::section_table::{decode_section_table, spec_sections, SectionDescriptor};

verus! {

/// A file's header and section table.
pub struct ParsedFile {
    pub header: Header,
    pub section_table: Vec<SectionDescriptor>,
}

/// The header of `s` and the section table it points to: `section_count`
/// descriptors starting at position `section_table`.
pub open spec fn spec_parsed(s: Seq<u8>) -> Result<(Header, Seq<SectionDescriptor>), LoadError> {
    match spec_header(s) {
        Err(e) => Err(e),
        Ok(h) => match spec_sections(s, h.section_table as int, h.section_count as nat) {
            Ok(v) => Ok((h, v)),
            Err(e) => Err(e),
        },
    }
}

impl ParsedFile {
    /// Decodes the header and the section table of a file's bytes.
    pub fn read(source: &[u8]) -> (res: Result<ParsedFile, LoadError>)
        ensures
            match spec_parsed(source@) {
                Ok(v) => res matches Ok(p) && p.header == v.0 && p.section_table@ == v.1,
                Err(e) => res matches Err(e2) && e2 == e,
            },
    {
        let header = match decode_header(source) {
            Ok(h) => h,
            Err(e) => {
                return Err(e);
            },
        };
        match decode_section_table(source, header.section_table, header.section_count) {
            Ok(table) => Ok(ParsedFile { header, section_table: table.into_vec() }),
            Err(e) => Err(e),
        }
    }
}

} // verus!
