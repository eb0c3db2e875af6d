//! The section table: where each section of the file lies and what it holds.
use vstd::prelude::*;
use vstd::bytes::{
    lemma_auto_spec_u32_to_from_le_bytes, lemma_auto_spec_u64_to_from_le_bytes,
    spec_u32_to_le_bytes, spec_u64_to_le_bytes,
};

use crate::jit::x86_64::into_boxed;
use crate::parser::errors::LoadError;
use crate::parser::fields::{fits, fits_at, le32, le64, read_u32_at, read_u64_at};

verus! {

/// What a section holds.
#[derive(Debug, Clone, Copy, PartialEq, Eq, Structural)]
pub enum SectionType {
    Metadata,
    Strings,
    Symbols,
    Types,
    Atoms,
    Functions,
    Workers,
    Code,
    Data,
    Relocations,
    Debug,
    JitInfo,
    Modules,
}

/// The section type a type field names, if any (1 to 13, in declaration order).
pub open spec fn section_type_of(v: u32) -> Option<SectionType> {
    if v == 1 { Some(SectionType::Metadata) }
    else if v == 2 { Some(SectionType::Strings) }
    else if v == 3 { Some(SectionType::Symbols) }
    else if v == 4 { Some(SectionType::Types) }
    else if v == 5 { Some(SectionType::Atoms) }
    else if v == 6 { Some(SectionType::Functions) }
    else if v == 7 { Some(SectionType::Workers) }
    else if v == 8 { Some(SectionType::Code) }
    else if v == 9 { Some(SectionType::Data) }
    else if v == 10 { Some(SectionType::Relocations) }
    else if v == 11 { Some(SectionType::Debug) }
    else if v == 12 { Some(SectionType::JitInfo) }
    else if v == 13 { Some(SectionType::Modules) }
    else { None }
}

/// Decodes a section type field.
pub fn section_type_from(v: u32) -> (res: Option<SectionType>)
    ensures
        res == section_type_of(v),
{
    if v == 1 { Some(SectionType::Metadata) }
    else if v == 2 { Some(SectionType::Strings) }
    else if v == 3 { Some(SectionType::Symbols) }
    else if v == 4 { Some(SectionType::Types) }
    else if v == 5 { Some(SectionType::Atoms) }
    else if v == 6 { Some(SectionType::Functions) }
    else if v == 7 { Some(SectionType::Workers) }
    else if v == 8 { Some(SectionType::Code) }
    else if v == 9 { Some(SectionType::Data) }
    else if v == 10 { Some(SectionType::Relocations) }
    else if v == 11 { Some(SectionType::Debug) }
    else if v == 12 { Some(SectionType::JitInfo) }
    else if v == 13 { Some(SectionType::Modules) }
    else { None }
}

/// A section's flag bits, kept as they were read (bit 0: read, bit 1: write,
/// bit 2: exec, bit 3: alloc, bit 4: optional).
#[derive(Debug, Clone, Copy, PartialEq, Eq, Structural)]
pub struct SectionFlags {
    pub bits: u32,
}

/// One entry of the section table: 32 bytes in the file.
#[derive(Debug, Clone, Copy)]
pub struct SectionDescriptor {
    pub type_: SectionType,
    pub flags: SectionFlags,
    /// Position of the section's bytes in the file.
    pub offset: u64,
    /// Size of the section in bytes.
    pub size: u64,
    pub alignment: u32,
    pub reserved: u32,
}

pub type SectionTable = Box<[SectionDescriptor]>;

/// The section descriptor at position `p`: the type comes first and must name
/// a known section type; bytes that end early give `IOError`.
pub open spec fn spec_section_at(s: Seq<u8>, p: int) -> Result<SectionDescriptor, LoadError> {
    if !fits(s, p, 4) {
        Err(LoadError::IOError)
    } else {
        match section_type_of(le32(s, p)) {
            None => Err(LoadError::InvalidSectionType(le32(s, p))),
            Some(t) => if !fits(s, p, 32) {
                Err(LoadError::IOError)
            } else {
                Ok(
                    SectionDescriptor {
                        type_: t,
                        flags: SectionFlags { bits: le32(s, p + 4) },
                        offset: le64(s, p + 8),
                        size: le64(s, p + 16),
                        alignment: le32(s, p + 24),
                        reserved: le32(s, p + 28),
                    },
                )
            },
        }
    }
}

/// `n` consecutive section descriptors starting at `p`, or the first defect.
pub open spec fn spec_sections(s: Seq<u8>, p: int, n: nat) -> Result<Seq<SectionDescriptor>, LoadError>
    decreases n,
{
    if n == 0 {
        Ok(Seq::empty())
    } else {
        match spec_section_at(s, p) {
            Err(e) => Err(e),
            Ok(d) => match spec_sections(s, p + 32, (n - 1) as nat) {
                Ok(rest) => Ok(seq![d] + rest),
                Err(e) => Err(e),
            },
        }
    }
}

/// Decodes the section descriptor at position `p`.
pub fn decode_section_descriptor(s: &[u8], p: u64) -> (res: Result<SectionDescriptor, LoadError>)
    ensures
        res == spec_section_at(s@, p as int),
{
    if !fits_at(s, p, 4) {
        return Err(LoadError::IOError);
    }
    let n = s.len();
    assert(p + 4 <= n);
    let pos = p as usize;
    assert(pos == p);
    let type_bits = read_u32_at(s, pos);
    let type_ = match section_type_from(type_bits) {
        Some(t) => t,
        None => {
            return Err(LoadError::InvalidSectionType(type_bits));
        },
    };
    if !fits_at(s, p, 32) {
        return Err(LoadError::IOError);
    }
    Ok(
        SectionDescriptor {
            type_,
            flags: SectionFlags { bits: read_u32_at(s, pos + 4) },
            offset: read_u64_at(s, pos + 8),
            size: read_u64_at(s, pos + 16),
            alignment: read_u32_at(s, pos + 24),
            reserved: read_u32_at(s, pos + 28),
        },
    )
}

/// Decodes `section_count` section descriptors that start at
/// `section_table_offset` in the file's bytes.
pub fn decode_section_table(source: &[u8], section_table_offset: u64, section_count: u32) -> (res: Result<SectionTable, LoadError>)
    ensures
        match spec_sections(source@, section_table_offset as int, section_count as nat) {
            Ok(v) => res matches Ok(t) && t@ == v,
            Err(e) => res matches Err(e2) && e2 == e,
        },
{
    let ghost total = spec_sections(source@, section_table_offset as int, section_count as nat);
    let mut table: Vec<SectionDescriptor> = Vec::new();
    let mut pos: u64 = section_table_offset;
    let mut i: u32 = 0;
    let n = source.len();
    while i < section_count
        invariant
            n == source@.len(),
            i <= section_count,
            pos == section_table_offset + 32 * i,
            total == spec_sections(source@, section_table_offset as int, section_count as nat),
            match spec_sections(source@, pos as int, (section_count - i) as nat) {
                Ok(rest) => total == Ok::<Seq<SectionDescriptor>, LoadError>(table@ + rest),
                Err(e) => total == Err::<Seq<SectionDescriptor>, LoadError>(e),
            },
        decreases section_count - i,
    {
        let d = decode_section_descriptor(source, pos);
        match d {
            Ok(d) => {
                let ghost old_table = table@;
                proof {
                    match spec_sections(source@, pos + 32, (section_count - i - 1) as nat) {
                        Ok(rest) => {
                            assert(old_table + (seq![d] + rest) =~= old_table.push(d) + rest);
                        },
                        Err(e) => {},
                    }
                }
                assert(pos + 32 <= n);
                table.push(d);
                pos = pos + 32;
                i = i + 1;
            },
            Err(e) => {
                return Err(e);
            },
        }
    }
    assert(table@ + Seq::<SectionDescriptor>::empty() =~= table@);
    Ok(into_boxed(table))
}

/// The number the file format gives each section type.
pub open spec fn section_type_number(t: SectionType) -> u32 {
    match t {
        SectionType::Metadata => 1,
        SectionType::Strings => 2,
        SectionType::Symbols => 3,
        SectionType::Types => 4,
        SectionType::Atoms => 5,
        SectionType::Functions => 6,
        SectionType::Workers => 7,
        SectionType::Code => 8,
        SectionType::Data => 9,
        SectionType::Relocations => 10,
        SectionType::Debug => 11,
        SectionType::JitInfo => 12,
        SectionType::Modules => 13,
    }
}

/// A section type field names the type the format numbers it with (1
/// METADATA up to 13 MODULES); 0 and numbers past 13 name none.
pub proof fn lemma_section_numbers(v: u32)
    ensures
        section_type_of(v) matches Some(t) ==> section_type_number(t) == v,
        1 <= v <= 13 <==> section_type_of(v) is Some,
{
}

/// Whether `d` is the section descriptor whose 32 bytes start at `p`: type
/// number (4 bytes), flags (4), offset (8), size (8), alignment (4),
/// reserved (4), each little-endian.
pub open spec fn section_bytes_hold(s: Seq<u8>, p: int, d: SectionDescriptor) -> bool {
    &&& 0 <= p && p + 32 <= s.len()
    &&& spec_u32_to_le_bytes(section_type_number(d.type_)) == s.subrange(p, p + 4)
    &&& spec_u32_to_le_bytes(d.flags.bits) == s.subrange(p + 4, p + 8)
    &&& spec_u64_to_le_bytes(d.offset) == s.subrange(p + 8, p + 16)
    &&& spec_u64_to_le_bytes(d.size) == s.subrange(p + 16, p + 24)
    &&& spec_u32_to_le_bytes(d.alignment) == s.subrange(p + 24, p + 28)
    &&& spec_u32_to_le_bytes(d.reserved) == s.subrange(p + 28, p + 32)
}

/// A decoded section descriptor holds the bytes of its entry in the format's
/// field order.
pub proof fn lemma_section_entry_fields(s: Seq<u8>, p: int)
    requires
        spec_section_at(s, p) is Ok,
    ensures
        section_bytes_hold(s, p, spec_section_at(s, p)->Ok_0),
{
    lemma_auto_spec_u32_to_from_le_bytes();
    lemma_auto_spec_u64_to_from_le_bytes();
    lemma_section_numbers(le32(s, p));
    assert(s.subrange(p, p + 4).len() == 4);
}

/// Decoded section descriptors come one per 32 bytes, descriptor `k`
/// holding the bytes at `p + 32 * k`.
pub proof fn lemma_sections_fields(s: Seq<u8>, p: int, n: nat)
    requires
        spec_sections(s, p, n) is Ok,
    ensures
        ({
            let v = spec_sections(s, p, n)->Ok_0;
            &&& v.len() == n
            &&& forall|k: int| 0 <= k < v.len() ==> section_bytes_hold(s, p + 32 * k, #[trigger] v[k])
        }),
    decreases n,
{
    if n > 0 {
        lemma_section_entry_fields(s, p);
        lemma_sections_fields(s, p + 32, (n - 1) as nat);
        let v = spec_sections(s, p, n)->Ok_0;
        let rest = spec_sections(s, p + 32, (n - 1) as nat)->Ok_0;
        assert forall|k: int| 0 <= k < v.len() implies section_bytes_hold(s, p + 32 * k, #[trigger] v[k]) by {
            if k > 0 {
                assert(v[k] == rest[k - 1]);
                assert(p + 32 + 32 * (k - 1) == p + 32 * k);
            }
        }
    }
}

} // verus!
