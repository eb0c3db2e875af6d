//! The symbol table: one 24-byte entry per symbol.
use vstd::prelude::*;
use vstd::bytes::{
    lemma_auto_spec_u16_to_from_le_bytes, lemma_auto_spec_u32_to_from_le_bytes, lemma_auto_spec_u64_to_from_le_bytes,
    spec_u16_to_le_bytes, spec_u32_to_le_bytes, spec_u64_to_le_bytes,
};
use vstd::std_specs::convert::TryFromSpecImpl;

use crate::jit::x86_64::into_boxed;
use crate::parser::errors::LoadError;
use crate::parser::fields::{fits, fits_at, le16, le32, le64, read_u16_at, read_u32_at, read_u64_at};
use crate::parser::section_table::SectionDescriptor;

verus! {

/// What a symbol names.
#[derive(Debug, Clone, Copy, PartialEq, Eq, Structural)]
pub enum SymbolType {
    Function,
    Worker,
    Data,
    Atom,
    Type,
    External,
}

/// How a symbol is bound.
#[derive(Debug, Clone, Copy, PartialEq, Eq, Structural)]
pub enum SymbolBindings {
    Local,
    Global,
    Weak,
    Import,
    Export,
}

/// The symbol type a type field names (1 to 6, in declaration order), or the
/// error for any other value.
pub open spec fn symbol_type_of(v: u16) -> Result<SymbolType, LoadError> {
    if v == 1 { Ok(SymbolType::Function) }
    else if v == 2 { Ok(SymbolType::Worker) }
    else if v == 3 { Ok(SymbolType::Data) }
    else if v == 4 { Ok(SymbolType::Atom) }
    else if v == 5 { Ok(SymbolType::Type) }
    else if v == 6 { Ok(SymbolType::External) }
    else { Err(LoadError::InvalidSymbolType(v)) }
}

/// The binding a bindings field names (1 to 5, in declaration order), or the
/// error for any other value.
pub open spec fn symbol_bindings_of(v: u16) -> Result<SymbolBindings, LoadError> {
    if v == 1 { Ok(SymbolBindings::Local) }
    else if v == 2 { Ok(SymbolBindings::Global) }
    else if v == 3 { Ok(SymbolBindings::Weak) }
    else if v == 4 { Ok(SymbolBindings::Import) }
    else if v == 5 { Ok(SymbolBindings::Export) }
    else { Err(LoadError::InvalidSymbolBindings(v)) }
}

impl TryFrom<u16> for SymbolType {
    type Error = LoadError;

    fn try_from(value: u16) -> (res: Result<Self, Self::Error>)
        ensures
            res == symbol_type_of(value),
    {
        if value == 1 { Ok(Self::Function) }
        else if value == 2 { Ok(Self::Worker) }
        else if value == 3 { Ok(Self::Data) }
        else if value == 4 { Ok(Self::Atom) }
        else if value == 5 { Ok(Self::Type) }
        else if value == 6 { Ok(Self::External) }
        else { Err(LoadError::InvalidSymbolType(value)) }
    }
}

impl TryFromSpecImpl<u16> for SymbolType {
    open spec fn obeys_try_from_spec() -> bool {
        true
    }

    open spec fn try_from_spec(v: u16) -> Result<Self, LoadError> {
        symbol_type_of(v)
    }
}

impl TryFrom<u16> for SymbolBindings {
    type Error = LoadError;

    fn try_from(value: u16) -> (res: Result<Self, Self::Error>)
        ensures
            res == symbol_bindings_of(value),
    {
        if value == 1 { Ok(Self::Local) }
        else if value == 2 { Ok(Self::Global) }
        else if value == 3 { Ok(Self::Weak) }
        else if value == 4 { Ok(Self::Import) }
        else if value == 5 { Ok(Self::Export) }
        else { Err(LoadError::InvalidSymbolBindings(value)) }
    }
}

impl TryFromSpecImpl<u16> for SymbolBindings {
    open spec fn obeys_try_from_spec() -> bool {
        true
    }

    open spec fn try_from_spec(v: u16) -> Result<Self, LoadError> {
        symbol_bindings_of(v)
    }
}

/// One entry of a symbol table.
#[derive(Debug, Clone, Copy)]
pub struct SymbolDescriptor {
    pub name_string_id: u32,
    pub value: u64,
    pub size: u32,
    pub type_: SymbolType,
    pub bindings: SymbolBindings,
    pub flags: u32,
}

pub type SymbolTable = Box<[SymbolDescriptor]>;

/// The symbol at position `p`: name, value, size, type, bindings and flags.
/// An unknown type is reported first, then unknown bindings.
pub open spec fn spec_symbol_at(s: Seq<u8>, p: int) -> Result<SymbolDescriptor, LoadError> {
    match symbol_type_of(le16(s, p + 16)) {
        Err(e) => Err(e),
        Ok(t) => match symbol_bindings_of(le16(s, p + 18)) {
            Err(e) => Err(e),
            Ok(b) => Ok(
                SymbolDescriptor {
                    name_string_id: le32(s, p),
                    value: le64(s, p + 4),
                    size: le32(s, p + 12),
                    type_: t,
                    bindings: b,
                    flags: le32(s, p + 20),
                },
            ),
        },
    }
}

/// `n` consecutive symbols starting at `p`, or the first defect.
pub open spec fn spec_symbols(s: Seq<u8>, p: int, n: nat) -> Result<Seq<SymbolDescriptor>, LoadError>
    decreases n,
{
    if n == 0 {
        Ok(Seq::empty())
    } else {
        match spec_symbol_at(s, p) {
            Err(e) => Err(e),
            Ok(d) => match spec_symbols(s, p + 24, (n - 1) as nat) {
                Ok(rest) => Ok(seq![d] + rest),
                Err(e) => Err(e),
            },
        }
    }
}

/// The symbol table of a section: the whole section must lie within the
/// bytes, and it holds one symbol for each whole 24 bytes.
pub open spec fn spec_symbol_table(s: Seq<u8>, section: SectionDescriptor) -> Result<Seq<SymbolDescriptor>, LoadError> {
    if !fits(s, section.offset as int, section.size as int) {
        Err(LoadError::IOError)
    } else {
        spec_symbols(s, section.offset as int, (section.size / 24) as nat)
    }
}

/// Decodes the symbol at position `p`.
fn decode_symbol(s: &[u8], p: usize) -> (res: Result<SymbolDescriptor, LoadError>)
    requires
        fits(s@, p as int, 24),
    ensures
        res == spec_symbol_at(s@, p as int),
{
    let n = s.len();
    assert(p + 24 <= n);
    let type_ = match SymbolType::try_from(read_u16_at(s, p + 16)) {
        Ok(t) => t,
        Err(e) => {
            return Err(e);
        },
    };
    let bindings = match SymbolBindings::try_from(read_u16_at(s, p + 18)) {
        Ok(b) => b,
        Err(e) => {
            return Err(e);
        },
    };
    Ok(
        SymbolDescriptor {
            name_string_id: read_u32_at(s, p),
            value: read_u64_at(s, p + 4),
            size: read_u32_at(s, p + 12),
            type_,
            bindings,
            flags: read_u32_at(s, p + 20),
        },
    )
}

/// Decodes the symbol table that a section describes.
pub fn decode_symbol_table(source: &[u8], section_entry: &SectionDescriptor) -> (res: Result<SymbolTable, LoadError>)
    ensures
        match spec_symbol_table(source@, *section_entry) {
            Ok(v) => res matches Ok(t) && t@ == v,
            Err(e) => res matches Err(e2) && e2 == e,
        },
{
    let size = section_entry.size;
    if !fits_at(source, section_entry.offset, size) {
        return Err(LoadError::IOError);
    }
    let symbol_count: u64 = size / 24;
    let ghost total = spec_symbol_table(source@, *section_entry);
    let n = source.len();
    let mut table: Vec<SymbolDescriptor> = Vec::new();
    let mut pos: usize = section_entry.offset as usize;
    let mut i: u64 = 0;
    while i < symbol_count
        invariant
            n == source@.len(),
            fits(source@, section_entry.offset as int, size as int),
            size == section_entry.size,
            symbol_count == size / 24,
            i <= symbol_count,
            pos == section_entry.offset + 24 * i,
            total == spec_symbols(source@, section_entry.offset as int, symbol_count as nat),
            match spec_symbols(source@, pos as int, (symbol_count - i) as nat) {
                Ok(rest) => total == Ok::<Seq<SymbolDescriptor>, LoadError>(table@ + rest),
                Err(e) => total == Err::<Seq<SymbolDescriptor>, LoadError>(e),
            },
        decreases symbol_count - i,
    {
        assert(24 * (i + 1) <= size) by (nonlinear_arith)
            requires
                i < symbol_count,
                symbol_count == size / 24,
        ;
        match decode_symbol(source, pos) {
            Ok(d) => {
                let ghost old_table = table@;
                proof {
                    match spec_symbols(source@, pos + 24, (symbol_count - i - 1) as nat) {
                        Ok(rest) => {
                            assert(old_table + (seq![d] + rest) =~= old_table.push(d) + rest);
                        },
                        Err(e) => {},
                    }
                }
                table.push(d);
                pos = pos + 24;
                i = i + 1;
            },
            Err(e) => {
                return Err(e);
            },
        }
    }
    assert(table@ + Seq::<SymbolDescriptor>::empty() =~= table@);
    Ok(into_boxed(table))
}

/// The number the file format gives each symbol type.
pub open spec fn symbol_type_number(t: SymbolType) -> u16 {
    match t {
        SymbolType::Function => 1,
        SymbolType::Worker => 2,
        SymbolType::Data => 3,
        SymbolType::Atom => 4,
        SymbolType::Type => 5,
        SymbolType::External => 6,
    }
}

/// The number the file format gives each symbol binding.
pub open spec fn symbol_bindings_number(b: SymbolBindings) -> u16 {
    match b {
        SymbolBindings::Local => 1,
        SymbolBindings::Global => 2,
        SymbolBindings::Weak => 3,
        SymbolBindings::Import => 4,
        SymbolBindings::Export => 5,
    }
}

/// A symbol type field names the type the format numbers it with: 1
/// FUNCTION, 2 WORKER, 3 DATA, 4 ATOM, 5 TYPE, 6 EXTERNAL; any other number
/// is refused with itself. The same holds of bindings: 1 LOCAL, 2 GLOBAL, 3
/// WEAK, 4 IMPORT, 5 EXPORT.
pub proof fn lemma_symbol_numbers(v: u16)
    ensures
        symbol_type_of(1) == Ok::<SymbolType, LoadError>(SymbolType::Function),
        symbol_type_of(2) == Ok::<SymbolType, LoadError>(SymbolType::Worker),
        symbol_type_of(3) == Ok::<SymbolType, LoadError>(SymbolType::Data),
        symbol_type_of(4) == Ok::<SymbolType, LoadError>(SymbolType::Atom),
        symbol_type_of(5) == Ok::<SymbolType, LoadError>(SymbolType::Type),
        symbol_type_of(6) == Ok::<SymbolType, LoadError>(SymbolType::External),
        symbol_type_of(v) matches Ok(t) ==> symbol_type_number(t) == v,
        (v == 0 || v > 6) ==> symbol_type_of(v) == Err::<SymbolType, LoadError>(LoadError::InvalidSymbolType(v)),
        symbol_bindings_of(1) == Ok::<SymbolBindings, LoadError>(SymbolBindings::Local),
        symbol_bindings_of(2) == Ok::<SymbolBindings, LoadError>(SymbolBindings::Global),
        symbol_bindings_of(3) == Ok::<SymbolBindings, LoadError>(SymbolBindings::Weak),
        symbol_bindings_of(4) == Ok::<SymbolBindings, LoadError>(SymbolBindings::Import),
        symbol_bindings_of(5) == Ok::<SymbolBindings, LoadError>(SymbolBindings::Export),
        symbol_bindings_of(v) matches Ok(b) ==> symbol_bindings_number(b) == v,
        (v == 0 || v > 5) ==> symbol_bindings_of(v) == Err::<SymbolBindings, LoadError>(LoadError::InvalidSymbolBindings(v)),
{
}

/// Whether `d` is the symbol entry whose 24 bytes start at `p`, field by
/// field in the order of the format: name (4 bytes), value (8), size (4),
/// type number (2), binding number (2), flags (4), each little-endian.
pub open spec fn symbol_bytes_hold(s: Seq<u8>, p: int, d: SymbolDescriptor) -> bool {
    &&& spec_u32_to_le_bytes(d.name_string_id) == s.subrange(p, p + 4)
    &&& spec_u64_to_le_bytes(d.value) == s.subrange(p + 4, p + 12)
    &&& spec_u32_to_le_bytes(d.size) == s.subrange(p + 12, p + 16)
    &&& spec_u16_to_le_bytes(symbol_type_number(d.type_)) == s.subrange(p + 16, p + 18)
    &&& spec_u16_to_le_bytes(symbol_bindings_number(d.bindings)) == s.subrange(p + 18, p + 20)
    &&& spec_u32_to_le_bytes(d.flags) == s.subrange(p + 20, p + 24)
}

/// A decoded symbol holds the bytes of its entry in the format's field
/// order, its type and binding given by their numbers.
pub proof fn lemma_symbol_entry_fields(s: Seq<u8>, p: int)
    requires
        0 <= p && p + 24 <= s.len(),
        spec_symbol_at(s, p) is Ok,
    ensures
        symbol_bytes_hold(s, p, spec_symbol_at(s, p)->Ok_0),
{
    lemma_auto_spec_u16_to_from_le_bytes();
    lemma_auto_spec_u32_to_from_le_bytes();
    lemma_auto_spec_u64_to_from_le_bytes();
    lemma_symbol_numbers(le16(s, p + 16));
    lemma_symbol_numbers(le16(s, p + 18));
    assert(s.subrange(p + 16, p + 18).len() == 2);
    assert(s.subrange(p + 18, p + 20).len() == 2);
}

/// A decoded symbol table has one symbol for each whole 24 bytes of the
/// section, symbol `k` holding the bytes at `offset + 24 * k`.
pub proof fn lemma_symbol_table_fields(s: Seq<u8>, section: SectionDescriptor)
    requires
        spec_symbol_table(s, section) is Ok,
    ensures
        ({
            let v = spec_symbol_table(s, section)->Ok_0;
            &&& v.len() == section.size / 24
            &&& forall|k: int| 0 <= k < v.len() ==> symbol_bytes_hold(s, section.offset + 24 * k, #[trigger] v[k])
        }),
{
    lemma_symbols_fields(s, section.offset as int, (section.size / 24) as nat, section.offset + section.size);
}

proof fn lemma_symbols_fields(s: Seq<u8>, p: int, n: nat, end: int)
    requires
        spec_symbols(s, p, n) is Ok,
        0 <= p,
        p + 24 * n <= end <= s.len(),
    ensures
        ({
            let v = spec_symbols(s, p, n)->Ok_0;
            &&& v.len() == n
            &&& forall|k: int| 0 <= k < v.len() ==> symbol_bytes_hold(s, p + 24 * k, #[trigger] v[k])
        }),
    decreases n,
{
    if n > 0 {
        lemma_symbol_entry_fields(s, p);
        lemma_symbols_fields(s, p + 24, (n - 1) as nat, end);
        let v = spec_symbols(s, p, n)->Ok_0;
        let rest = spec_symbols(s, p + 24, (n - 1) as nat)->Ok_0;
        assert forall|k: int| 0 <= k < v.len() implies symbol_bytes_hold(s, p + 24 * k, #[trigger] v[k]) by {
            if k > 0 {
                assert(v[k] == rest[k - 1]);
                assert(p + 24 + 24 * (k - 1) == p + 24 * k);
            }
        }
    }
}

} // verus!
