//! The file header: the first 40 bytes of every `.hive` file.
use vstd::prelude::*;
use vstd::bytes::{
    lemma_auto_spec_u16_to_from_le_bytes, lemma_auto_spec_u32_to_from_le_bytes, lemma_auto_spec_u64_to_from_le_bytes,
    spec_u16_to_le_bytes, spec_u32_to_le_bytes, spec_u64_to_le_bytes,
};

use crate::parser::errors::LoadError;
use crate::parser::fields::{le16, le32, le64, read_u16_at, read_u32_at, read_u64_at};

verus! {

/// The four bytes every `.hive` file starts with: `HIVE`.
pub open spec fn magic() -> Seq<u8> {
    seq![0x48u8, 0x49u8, 0x56u8, 0x45u8]
}

/// What a `.hive` file holds.
#[derive(Debug, Clone, Copy, PartialEq, Eq, Structural)]
pub enum FileType {
    Executable,
    Module,
    Library,
    Object,
}

/// The file type a header's type field names, if any.
pub open spec fn file_type_of(v: u16) -> Option<FileType> {
    if v == 1 {
        Some(FileType::Executable)
    } else if v == 2 {
        Some(FileType::Module)
    } else if v == 3 {
        Some(FileType::Library)
    } else if v == 4 {
        Some(FileType::Object)
    } else {
        None
    }
}

impl Default for FileType {
    fn default() -> (t: Self)
        ensures
            t == FileType::Executable,
    {
        FileType::Executable
    }
}

/// The header's flag bits, kept as they were read (bit 0: executable, bit 1:
/// position independent, bit 2: has relocations, bit 3: has debug information,
/// bit 4: has JIT information).
#[derive(Debug, Clone, Copy, PartialEq, Eq, Structural)]
pub struct FileFlags {
    pub bits: u32,
}

impl FileFlags {
    /// Keeps every bit, known or not.
    pub fn from_bits_retain(bits: u32) -> (f: Self)
        ensures
            f.bits == bits,
    {
        FileFlags { bits }
    }

    pub fn bits(&self) -> (b: u32)
        ensures
            b == self.bits,
    {
        self.bits
    }
}

/// The decoded header.
#[derive(Debug, Clone, Copy)]
pub struct Header {
    pub version: u16,
    pub type_: FileType,
    pub flags: FileFlags,
    pub file_size: u64,
    /// Position of the section table.
    pub section_table: u64,
    pub section_count: u32,
    /// Index of the entry function in the function table.
    pub entry_point: u32,
    /// Header size as recorded in the file.
    pub size: u16,
    pub reserved: u16,
}

/// The header of an empty file description: every field zero, an executable.
pub open spec fn default_header() -> Header {
    Header {
        version: 0,
        type_: FileType::Executable,
        flags: FileFlags { bits: 0 },
        file_size: 0,
        section_table: 0,
        section_count: 0,
        entry_point: 0,
        size: 0,
        reserved: 0,
    }
}

impl Default for Header {
    fn default() -> (h: Self)
        ensures
            h == default_header(),
    {
        Header {
            version: 0,
            type_: FileType::Executable,
            flags: FileFlags { bits: 0 },
            file_size: 0,
            section_table: 0,
            section_count: 0,
            entry_point: 0,
            size: 0,
            reserved: 0,
        }
    }
}

/// The header that the first 40 bytes of `s` describe. The magic comes first,
/// then the version and the file type, which must name a known type; bytes
/// that end early give `IOError`.
pub open spec fn spec_header(s: Seq<u8>) -> Result<Header, LoadError> {
    if s.len() < 4 {
        Err(LoadError::IOError)
    } else if s.subrange(0, 4) != magic() {
        Err(LoadError::InvalidMagic)
    } else if s.len() < 8 {
        Err(LoadError::IOError)
    } else {
        match file_type_of(le16(s, 6)) {
            None => Err(LoadError::InvalidFileType(le16(s, 6))),
            Some(t) => if s.len() < 40 {
                Err(LoadError::IOError)
            } else {
                Ok(
                    Header {
                        version: le16(s, 4),
                        type_: t,
                        flags: FileFlags { bits: le32(s, 8) },
                        file_size: le64(s, 12),
                        section_table: le64(s, 20),
                        section_count: le32(s, 28),
                        entry_point: le32(s, 32),
                        size: le16(s, 36),
                        reserved: le16(s, 38),
                    },
                )
            },
        }
    }
}

/// Decodes the file type field.
pub fn file_type_from(v: u16) -> (res: Option<FileType>)
    ensures
        res == file_type_of(v),
{
    if v == 1 {
        Some(FileType::Executable)
    } else if v == 2 {
        Some(FileType::Module)
    } else if v == 3 {
        Some(FileType::Library)
    } else if v == 4 {
        Some(FileType::Object)
    } else {
        None
    }
}

/// Decodes the header at the start of a file's bytes.
pub fn decode_header(s: &[u8]) -> (res: Result<Header, LoadError>)
    ensures
        res == spec_header(s@),
{
    if s.len() < 4 {
        return Err(LoadError::IOError);
    }
    if !(s[0] == 0x48 && s[1] == 0x49 && s[2] == 0x56 && s[3] == 0x45) {
        assert(s@.subrange(0, 4) != magic()) by {
            if s@.subrange(0, 4) == magic() {
                assert(s@.subrange(0, 4)[0] == s@[0]);
                assert(s@.subrange(0, 4)[1] == s@[1]);
                assert(s@.subrange(0, 4)[2] == s@[2]);
                assert(s@.subrange(0, 4)[3] == s@[3]);
            }
        }
        return Err(LoadError::InvalidMagic);
    }
    assert(s@.subrange(0, 4) =~= magic());
    if s.len() < 8 {
        return Err(LoadError::IOError);
    }
    let type_bits = read_u16_at(s, 6);
    let file_type = match file_type_from(type_bits) {
        Some(t) => t,
        None => {
            return Err(LoadError::InvalidFileType(type_bits));
        },
    };
    if s.len() < 40 {
        return Err(LoadError::IOError);
    }
    Ok(
        Header {
            version: read_u16_at(s, 4),
            type_: file_type,
            flags: FileFlags::from_bits_retain(read_u32_at(s, 8)),
            file_size: read_u64_at(s, 12),
            section_table: read_u64_at(s, 20),
            section_count: read_u32_at(s, 28),
            entry_point: read_u32_at(s, 32),
            size: read_u16_at(s, 36),
            reserved: read_u16_at(s, 38),
        },
    )
}

/// The number the file format gives each file type.
pub open spec fn file_type_number(t: FileType) -> u16 {
    match t {
        FileType::Executable => 1,
        FileType::Module => 2,
        FileType::Library => 3,
        FileType::Object => 4,
    }
}

/// A file type field names the type the format numbers it with: 1
/// EXECUTABLE, 2 MODULE, 3 LIBRARY, 4 OBJECT; other numbers name none.
pub proof fn lemma_file_type_numbers(v: u16)
    ensures
        file_type_of(v) matches Some(t) ==> file_type_number(t) == v,
        1 <= v <= 4 <==> file_type_of(v) is Some,
{
}

/// A decoded header holds the first 40 bytes of the file in the format's
/// field order: the magic `HIVE`, version (2 bytes), type number (2), flags
/// (4), file size (8), section table position (8), section count (4), entry
/// point (4), header size (2), reserved (2), each little-endian.
pub proof fn lemma_header_fields(s: Seq<u8>)
    requires
        spec_header(s) is Ok,
    ensures
        ({
            let h = spec_header(s)->Ok_0;
            &&& s.len() >= 40
            &&& s.subrange(0, 4) == seq![0x48u8, 0x49u8, 0x56u8, 0x45u8]
            &&& spec_u16_to_le_bytes(h.version) == s.subrange(4, 6)
            &&& spec_u16_to_le_bytes(file_type_number(h.type_)) == s.subrange(6, 8)
            &&& spec_u32_to_le_bytes(h.flags.bits) == s.subrange(8, 12)
            &&& spec_u64_to_le_bytes(h.file_size) == s.subrange(12, 20)
            &&& spec_u64_to_le_bytes(h.section_table) == s.subrange(20, 28)
            &&& spec_u32_to_le_bytes(h.section_count) == s.subrange(28, 32)
            &&& spec_u32_to_le_bytes(h.entry_point) == s.subrange(32, 36)
            &&& spec_u16_to_le_bytes(h.size) == s.subrange(36, 38)
            &&& spec_u16_to_le_bytes(h.reserved) == s.subrange(38, 40)
        }),
{
    lemma_auto_spec_u16_to_from_le_bytes();
    lemma_auto_spec_u32_to_from_le_bytes();
    lemma_auto_spec_u64_to_from_le_bytes();
    lemma_file_type_numbers(le16(s, 6));
    assert(s.subrange(6, 8).len() == 2);
}

} // verus!
