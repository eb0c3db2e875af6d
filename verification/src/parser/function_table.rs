//! The function table: one 32-byte descriptor per function of the file.
use vstd::prelude::*;
use vstd::bytes::{lemma_auto_spec_u32_to_from_le_bytes, lemma_auto_spec_u64_to_from_le_bytes, spec_u32_to_le_bytes, spec_u64_to_le_bytes};

use crate::parser::errors::LoadError;
use crate::parser::fields::{fits, fits_at, le32, le64, read_u32_at, read_u64_at};

verus! {

/// What a function table entry describes.
#[derive(Debug, Clone, Copy, PartialEq, Eq, Structural)]
pub enum FunctionType {
    Function,
    Worker,
    Data,
    Atom,
    Type,
    External,
}

/// A function's flag bits, kept as they were read (bit 0: entry, bit 1:
/// exported, bit 2: imported, bit 3: variadic, bit 4: no return).
#[derive(Debug, Clone, Copy, PartialEq, Eq, Structural)]
pub struct FunctionFlags {
    pub bits: u32,
}

/// One entry of a function table.
#[derive(Debug, Clone, Copy)]
pub struct FunctionDescriptor {
    pub symbol: u32,
    /// Where the function's bytecode starts: in the code sections' joint
    /// numbering as read, a position in the file once the file is loaded.
    pub code_offset: u64,
    pub code_size: u32,
    pub frame_size: u32,
    pub flags: FunctionFlags,
    pub param_type_id: u32,
    pub return_type_id: u32,
}

/// The functions of one functions section.
pub struct FunctionTable {
    pub functions: Vec<FunctionDescriptor>,
}

/// The function descriptor at position `p`.
pub open spec fn spec_function_at(s: Seq<u8>, p: int) -> Result<FunctionDescriptor, LoadError> {
    if !fits(s, p, 32) {
        Err(LoadError::IOError)
    } else {
        Ok(
            FunctionDescriptor {
                symbol: le32(s, p),
                code_offset: le64(s, p + 4),
                code_size: le32(s, p + 12),
                frame_size: le32(s, p + 16),
                flags: FunctionFlags { bits: le32(s, p + 20) },
                param_type_id: le32(s, p + 24),
                return_type_id: le32(s, p + 28),
            },
        )
    }
}

/// `n` consecutive function descriptors starting at `p`, or the first defect.
pub open spec fn spec_functions(s: Seq<u8>, p: int, n: nat) -> Result<Seq<FunctionDescriptor>, LoadError>
    decreases n,
{
    if n == 0 {
        Ok(Seq::empty())
    } else {
        match spec_function_at(s, p) {
            Err(e) => Err(e),
            Ok(d) => match spec_functions(s, p + 32, (n - 1) as nat) {
                Ok(rest) => Ok(seq![d] + rest),
                Err(e) => Err(e),
            },
        }
    }
}

/// The function table of a section of `size` bytes at `offset`: one
/// descriptor for each whole 32 bytes.
pub open spec fn spec_function_table(s: Seq<u8>, offset: u64, size: u64) -> Result<Seq<FunctionDescriptor>, LoadError> {
    spec_functions(s, offset as int, (size / 32) as nat)
}

/// Decodes the function descriptor at position `p`.
pub fn decode_function_descriptor(s: &[u8], p: u64) -> (res: Result<FunctionDescriptor, LoadError>)
    ensures
        res == spec_function_at(s@, p as int),
{
    if !fits_at(s, p, 32) {
        return Err(LoadError::IOError);
    }
    let n = s.len();
    assert(p + 32 <= n);
    let pos = p as usize;
    Ok(
        FunctionDescriptor {
            symbol: read_u32_at(s, pos),
            code_offset: read_u64_at(s, pos + 4),
            code_size: read_u32_at(s, pos + 12),
            frame_size: read_u32_at(s, pos + 16),
            flags: FunctionFlags { bits: read_u32_at(s, pos + 20) },
            param_type_id: read_u32_at(s, pos + 24),
            return_type_id: read_u32_at(s, pos + 28),
        },
    )
}

/// Decodes the function table of a section of `size` bytes at `offset`.
pub fn decode_function_table(source: &[u8], offset: u64, size: u64) -> (res: Result<FunctionTable, LoadError>)
    ensures
        match spec_function_table(source@, offset, size) {
            Ok(v) => res matches Ok(t) && t.functions@ == v,
            Err(e) => res matches Err(e2) && e2 == e,
        },
{
    let count: u64 = size / 32;
    let ghost total = spec_function_table(source@, offset, size);
    let mut functions: Vec<FunctionDescriptor> = Vec::new();
    let mut pos: u64 = offset;
    let mut i: u64 = 0;
    let n = source.len();
    while i < count
        invariant
            n == source@.len(),
            count == size / 32,
            i <= count,
            pos == offset + 32 * i,
            total == spec_functions(source@, offset as int, count as nat),
            match spec_functions(source@, pos as int, (count - i) as nat) {
                Ok(rest) => total == Ok::<Seq<FunctionDescriptor>, LoadError>(functions@ + rest),
                Err(e) => total == Err::<Seq<FunctionDescriptor>, LoadError>(e),
            },
        decreases count - i,
    {
        match decode_function_descriptor(source, pos) {
            Ok(d) => {
                let ghost old_functions = functions@;
                proof {
                    match spec_functions(source@, pos + 32, (count - i - 1) as nat) {
                        Ok(rest) => {
                            assert(old_functions + (seq![d] + rest) =~= old_functions.push(d) + rest);
                        },
                        Err(e) => {},
                    }
                }
                assert(pos + 32 <= n);
                functions.push(d);
                pos = pos + 32;
                i = i + 1;
            },
            Err(e) => {
                return Err(e);
            },
        }
    }
    assert(functions@ + Seq::<FunctionDescriptor>::empty() =~= functions@);
    Ok(FunctionTable { functions })
}

/// Whether `d` is the function entry whose 32 bytes start at `p`, field by
/// field in the order of the format: symbol (4 bytes), code offset (8), code
/// size (4), frame size (4), flags (4), parameter type (4), return type (4),
/// each little-endian.
pub open spec fn entry_bytes_hold(s: Seq<u8>, p: int, d: FunctionDescriptor) -> bool {
    &&& 0 <= p && p + 32 <= s.len()
    &&& spec_u32_to_le_bytes(d.symbol) == s.subrange(p, p + 4)
    &&& spec_u64_to_le_bytes(d.code_offset) == s.subrange(p + 4, p + 12)
    &&& spec_u32_to_le_bytes(d.code_size) == s.subrange(p + 12, p + 16)
    &&& spec_u32_to_le_bytes(d.frame_size) == s.subrange(p + 16, p + 20)
    &&& spec_u32_to_le_bytes(d.flags.bits) == s.subrange(p + 20, p + 24)
    &&& spec_u32_to_le_bytes(d.param_type_id) == s.subrange(p + 24, p + 28)
    &&& spec_u32_to_le_bytes(d.return_type_id) == s.subrange(p + 28, p + 32)
}

/// A decoded function entry holds the bytes of the file in the format's
/// field order.
pub proof fn lemma_function_entry_fields(s: Seq<u8>, p: int)
    requires
        spec_function_at(s, p) is Ok,
    ensures
        entry_bytes_hold(s, p, spec_function_at(s, p)->Ok_0),
{
    lemma_auto_spec_u32_to_from_le_bytes();
    lemma_auto_spec_u64_to_from_le_bytes();
    assert(s.subrange(p, p + 4).len() == 4);
}

/// A decoded function table has one entry for each whole 32 bytes of the
/// section, entry `k` holding the bytes at `offset + 32 * k`.
pub proof fn lemma_function_table_fields(s: Seq<u8>, offset: u64, size: u64)
    requires
        spec_function_table(s, offset, size) is Ok,
    ensures
        ({
            let v = spec_function_table(s, offset, size)->Ok_0;
            &&& v.len() == size / 32
            &&& forall|k: int| 0 <= k < v.len() ==> entry_bytes_hold(s, offset + 32 * k, #[trigger] v[k])
        }),
{
    lemma_functions_fields(s, offset as int, (size / 32) as nat);
}

proof fn lemma_functions_fields(s: Seq<u8>, p: int, n: nat)
    requires
        spec_functions(s, p, n) is Ok,
    ensures
        ({
            let v = spec_functions(s, p, n)->Ok_0;
            &&& v.len() == n
            &&& forall|k: int| 0 <= k < v.len() ==> entry_bytes_hold(s, p + 32 * k, #[trigger] v[k])
        }),
    decreases n,
{
    if n > 0 {
        lemma_function_entry_fields(s, p);
        lemma_functions_fields(s, p + 32, (n - 1) as nat);
        let v = spec_functions(s, p, n)->Ok_0;
        let rest = spec_functions(s, p + 32, (n - 1) as nat)->Ok_0;
        assert forall|k: int| 0 <= k < v.len() implies entry_bytes_hold(s, p + 32 * k, #[trigger] v[k]) by {
            if k > 0 {
                assert(v[k] == rest[k - 1]);
                assert(p + 32 + 32 * (k - 1) == p + 32 * k);
            }
        }
    }
}

} // verus!
