//! Starting a program: finding and decoding its entry function.
use vstd::prelude::*;
use vstd::slice::slice_subrange;

use crate::error::HiveError;
use crate::jit::opcode::Opcode;
use crate::jit::parser::{parse_program, Parser};
use crate::parser::LoadedFile;

verus! {

/// The bytecode of the entry function, as the loaded file's bytes hold it.
pub open spec fn entry_code(lf: LoadedFile) -> Seq<u8> {
    let f = lf.functions@[lf.header.entry_point as int];
    lf.source->Some_0@.subrange(f.code_offset as int, f.code_offset + f.code_size)
}

/// Decodes the entry function of a loaded file. A file without its bytes
/// gives `NoSourceAvailable`; otherwise the entry function must exist and its
/// code must lie within the bytes.
pub fn load_entry_function(loaded_file: &LoadedFile) -> (res: Result<Box<[Opcode]>, HiveError>)
    requires
        loaded_file.source is Some ==> {
            let f = loaded_file.functions@[loaded_file.header.entry_point as int];
            &&& loaded_file.header.entry_point < loaded_file.functions@.len()
            &&& f.code_offset + f.code_size <= loaded_file.source->Some_0@.len()
        },
    ensures
        loaded_file.source is None ==> res == Err::<Box<[Opcode]>, HiveError>(HiveError::NoSourceAvailable),
        loaded_file.source is Some ==> match parse_program(entry_code(*loaded_file)) {
            Ok(v) => res matches Ok(b) && b@ == v,
            Err(e) => res == Err::<Box<[Opcode]>, HiveError>(HiveError::Parse(e)),
        },
{
    match &loaded_file.source {
        Some(source) => {
            let entry = &loaded_file.functions[loaded_file.header.entry_point as usize];
            let n = source.len();
            assert(entry.code_offset + entry.code_size <= n);
            let start = entry.code_offset as usize;
            let end = start + entry.code_size as usize;
            let code = slice_subrange(source.as_slice(), start, end);
            assert(code@ == entry_code(*loaded_file));
            match Parser::new(code).parse() {
                Ok(ops) => Ok(ops),
                Err(e) => Err(HiveError::Parse(e)),
            }
        },
        None => Err(HiveError::NoSourceAvailable),
    }
}

} // verus!
