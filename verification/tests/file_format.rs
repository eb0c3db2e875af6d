use hivehq::error::HiveError;
use hivehq::parser::errors::LoadError;
use hivehq::parser::header::{decode_header, FileType, Header};
use hivehq::parser::load_file::{load_file_by_data, LoadedFile};
use hivehq::parser::section_table::{decode_section_table, SectionDescriptor, SectionFlags, SectionType};
use hivehq::parser::symbol_table::{decode_symbol_table, SymbolBindings, SymbolType};
use hivehq::parser::ParsedFile;
use hivehq::runtime::load_exec::FunctionId;
use hivehq::runtime::runner::load_entry_function;
use hivehq::jit::opcode::Opcode;

fn header(section_table: u64, section_count: u32, file_type: u16) -> Vec<u8> {
    let mut h = Vec::new();
    h.extend_from_slice(b"HIVE");
    h.extend_from_slice(&1u16.to_le_bytes());
    h.extend_from_slice(&file_type.to_le_bytes());
    h.extend_from_slice(&0x11u32.to_le_bytes());
    h.extend_from_slice(&0x1234u64.to_le_bytes());
    h.extend_from_slice(&section_table.to_le_bytes());
    h.extend_from_slice(&section_count.to_le_bytes());
    h.extend_from_slice(&0u32.to_le_bytes());
    h.extend_from_slice(&40u16.to_le_bytes());
    h.extend_from_slice(&0u16.to_le_bytes());
    h
}

fn section(type_: u32, offset: u64, size: u64) -> Vec<u8> {
    let mut s = Vec::new();
    s.extend_from_slice(&type_.to_le_bytes());
    s.extend_from_slice(&5u32.to_le_bytes());
    s.extend_from_slice(&offset.to_le_bytes());
    s.extend_from_slice(&size.to_le_bytes());
    s.extend_from_slice(&8u32.to_le_bytes());
    s.extend_from_slice(&0u32.to_le_bytes());
    s
}

fn function(code_offset: u64, code_size: u32) -> Vec<u8> {
    let mut f = Vec::new();
    f.extend_from_slice(&7u32.to_le_bytes());
    f.extend_from_slice(&code_offset.to_le_bytes());
    f.extend_from_slice(&code_size.to_le_bytes());
    f.extend_from_slice(&64u32.to_le_bytes());
    f.extend_from_slice(&1u32.to_le_bytes());
    f.extend_from_slice(&2u32.to_le_bytes());
    f.extend_from_slice(&3u32.to_le_bytes());
    f
}

fn metadata(string_count: u32) -> Vec<u8> {
    let mut m = Vec::new();
    m.extend_from_slice(&1u16.to_le_bytes());
    m.extend_from_slice(&0u32.to_le_bytes());
    m.extend_from_slice(&0u32.to_le_bytes());
    m.extend_from_slice(&1u32.to_le_bytes());
    m.extend_from_slice(&0u32.to_le_bytes());
    m.extend_from_slice(&0u32.to_le_bytes());
    m.extend_from_slice(&string_count.to_le_bytes());
    m
}

/// A file with a metadata, a strings, a functions and a code section: two
/// strings, one function at `code_offset` of `code_size` bytes in a code
/// section of `code_len` bytes.
fn image(code_offset: u64, code_size: u32, code_len: u64) -> Vec<u8> {
    let mut b = header(40, 4, 1);
    // Section table at 40..168.
    b.extend(section(1, 168, 26));
    b.extend(section(2, 194, 24));
    b.extend(section(6, 218, 32));
    b.extend(section(8, 250, code_len));
    // Metadata at 168, declaring two strings.
    b.extend(metadata(2));
    // Strings at 194: two offsets into the data area, which starts at 210.
    b.extend_from_slice(&0u64.to_le_bytes());
    b.extend_from_slice(&5u64.to_le_bytes());
    b.extend_from_slice(b"main\0ok\0");
    // Functions at 218.
    b.extend(function(code_offset, code_size));
    // Code at 250.
    b.extend_from_slice(&[0x90, 0x90, 0x90, 0x90]);
    b
}

#[test]
fn loads_tables_and_relocates_functions() {
    let lf: LoadedFile = load_file_by_data(image(1, 2, 4)).unwrap();
    assert_eq!(lf.header.version, 1);
    assert_eq!(lf.header.type_, FileType::Executable);
    assert_eq!(lf.header.flags.bits(), 0x11);
    assert_eq!(lf.header.file_size, 0x1234);
    assert_eq!(lf.header.section_table, 40);
    assert_eq!(lf.header.section_count, 4);
    assert_eq!(lf.sections.len(), 4);
    assert_eq!(lf.sections[0].type_, SectionType::Metadata);
    assert_eq!(lf.sections[1].type_, SectionType::Strings);
    assert_eq!(lf.sections[2].type_, SectionType::Functions);
    assert_eq!(lf.sections[3].type_, SectionType::Code);
    assert_eq!(lf.sections[3].offset, 250);
    assert_eq!(lf.sections[3].flags, SectionFlags { bits: 5 });
    assert_eq!(lf.strings.len(), 2);
    assert_eq!(lf.strings[0], "main");
    assert_eq!(lf.strings[1], "ok");
    assert_eq!(lf.functions.len(), 1);
    // Code position 1 of the code section, which starts at 250 in the file.
    assert_eq!(lf.functions[0].code_offset, 251);
    assert_eq!(lf.functions[0].code_size, 2);
    assert_eq!(lf.functions[0].frame_size, 64);
    assert_eq!(lf.functions[0].symbol, 7);
    assert_eq!(lf.source.as_ref().unwrap().len(), 254);
}

#[test]
fn entry_function_is_decoded_from_the_file() {
    let lf = load_file_by_data(image(1, 2, 4)).unwrap();
    let ops = load_entry_function(&lf).unwrap();
    assert_eq!(ops.len(), 2);
    assert!(matches!(ops[0], Opcode::Nop));
    assert!(matches!(ops[1], Opcode::Nop));
}

#[test]
fn entry_function_needs_the_source() {
    let lf = LoadedFile::default();
    assert_eq!(load_entry_function(&lf).unwrap_err(), HiveError::NoSourceAvailable);
}

#[test]
fn function_reaching_past_code_section_is_refused() {
    let r = load_file_by_data(image(1, 4, 4));
    assert_eq!(r.unwrap_err(), HiveError::FunctionIsInMultipleCodeChunk(FunctionId(0)));
}

#[test]
fn function_without_code_section_is_refused() {
    let mut b = image(1, 2, 4);
    // Make the code section a data section.
    b[40 + 96] = 9;
    let r = load_file_by_data(b);
    assert_eq!(r.unwrap_err(), HiveError::FunctionDoesNotFitInAnyCodeChunk(FunctionId(0)));
}

#[test]
fn overflowing_positions_are_reported_by_try_parse() {
    // A code section of size zero.
    assert!(ParsedFile::try_parse(image(1, 2, 0)).is_none());
    // A function of code size zero.
    assert!(ParsedFile::try_parse(image(1, 0, 4)).is_none());
    // A well-formed file loads.
    assert!(matches!(ParsedFile::try_parse(image(1, 2, 4)), Some(Ok(_))));
}

#[test]
fn bad_magic_is_refused() {
    let mut b = image(1, 2, 4);
    b[0] = b'X';
    assert_eq!(load_file_by_data(b).unwrap_err(), HiveError::Load(LoadError::InvalidMagic));
}

#[test]
fn short_files_are_refused() {
    assert_eq!(load_file_by_data(b"HI".to_vec()).unwrap_err(), HiveError::Load(LoadError::IOError));
    let b = header(40, 0, 1);
    assert_eq!(load_file_by_data(b[..30].to_vec()).unwrap_err(), HiveError::Load(LoadError::IOError));
}

#[test]
fn unknown_file_type_is_refused() {
    let b = header(40, 0, 9);
    assert_eq!(load_file_by_data(b).unwrap_err(), HiveError::Load(LoadError::InvalidFileType(9)));
}

#[test]
fn unknown_section_type_is_refused() {
    let mut b = header(40, 1, 1);
    b.extend(section(14, 0, 0));
    assert_eq!(load_file_by_data(b).unwrap_err(), HiveError::Load(LoadError::InvalidSectionType(14)));
}

#[test]
fn modules_section_is_accepted() {
    let mut b = header(40, 1, 1);
    b.extend(section(13, 0, 0));
    assert!(load_file_by_data(b).is_ok());
}

#[test]
fn section_table_past_the_end_is_refused() {
    let b = header(40, 2, 1);
    assert_eq!(load_file_by_data(b).unwrap_err(), HiveError::Load(LoadError::IOError));
}

#[test]
fn unterminated_string_is_refused() {
    let mut b = image(1, 2, 4);
    // Point the second string at the last byte of the file, which no NUL follows.
    b[202..210].copy_from_slice(&43u64.to_le_bytes());
    assert_eq!(load_file_by_data(b).unwrap_err(), HiveError::Load(LoadError::IOError));
}

#[test]
fn string_offsets_count_from_the_data_area() {
    let mut b = image(1, 2, 4);
    // The first string now starts one byte into "main".
    b[194..202].copy_from_slice(&1u64.to_le_bytes());
    let lf = load_file_by_data(b).unwrap();
    assert_eq!(lf.strings[0], "ain");
    assert_eq!(lf.strings[1], "ok");
}

#[test]
fn strings_need_the_declared_count() {
    // No metadata section: the number of strings is unknown.
    let mut b = image(1, 2, 4);
    b[40] = 12;
    assert_eq!(load_file_by_data(b).unwrap_err(), HiveError::Load(LoadError::IOError));
    // More entries declared than the strings section holds.
    let mut b = image(1, 2, 4);
    b[190..194].copy_from_slice(&4u32.to_le_bytes());
    assert_eq!(load_file_by_data(b).unwrap_err(), HiveError::Load(LoadError::IOError));
    // One string declared: the data area starts right after its entry, at
    // the bytes of the second offset.
    let mut b = image(1, 2, 4);
    b[190..194].copy_from_slice(&1u32.to_le_bytes());
    let lf = load_file_by_data(b).unwrap();
    assert_eq!(lf.strings.len(), 1);
    assert_eq!(lf.strings[0], "\u{5}");
}

#[test]
fn empty_file_description_loads_nothing() {
    let lf = load_file_by_data(header(40, 0, 2)).unwrap();
    assert_eq!(lf.header.type_, FileType::Module);
    assert_eq!(lf.sections.len(), 0);
    assert_eq!(lf.strings.len(), 0);
    assert_eq!(lf.functions.len(), 0);
}

#[test]
fn header_decodes_fields_in_order() {
    let h: Header = decode_header(&header(40, 3, 4)).unwrap();
    assert_eq!(h.type_, FileType::Object);
    assert_eq!(h.entry_point, 0);
    assert_eq!(h.size, 40);
    assert_eq!(h.reserved, 0);
}

#[test]
fn section_table_decodes_each_descriptor() {
    let mut b = vec![0u8; 8];
    b.extend(section(1, 0x10, 0x20));
    b.extend(section(12, 0x30, 0x40));
    let t: Box<[SectionDescriptor]> = decode_section_table(&b, 8, 2).unwrap();
    assert_eq!(t.len(), 2);
    assert_eq!(t[0].type_, SectionType::Metadata);
    assert_eq!(t[0].size, 0x20);
    assert_eq!(t[1].type_, SectionType::JitInfo);
    assert_eq!(t[1].offset, 0x30);
    assert_eq!(t[1].alignment, 8);
}

fn symbol(type_: u16, bindings: u16, reserved: [u8; 4]) -> Vec<u8> {
    let mut s = Vec::new();
    s.extend_from_slice(&3u32.to_le_bytes());
    s.extend_from_slice(&0x55u64.to_le_bytes());
    s.extend_from_slice(&9u32.to_le_bytes());
    s.extend_from_slice(&type_.to_le_bytes());
    s.extend_from_slice(&bindings.to_le_bytes());
    s.extend_from_slice(&reserved);
    s
}

fn symbols_section(offset: u64, size: u64) -> SectionDescriptor {
    SectionDescriptor {
        type_: SectionType::Symbols,
        flags: SectionFlags { bits: 0 },
        offset,
        size,
        alignment: 0,
        reserved: 0,
    }
}

#[test]
fn symbol_table_decodes_entries() {
    let mut b = vec![0u8; 4];
    b.extend(symbol(1, 2, [0; 4]));
    b.extend(symbol(6, 5, [0; 4]));
    b.extend_from_slice(&[0xAA, 0xBB]);
    // A size that is not a multiple of 24 holds the whole entries only.
    let t = decode_symbol_table(&b, &symbols_section(4, 50)).unwrap();
    assert_eq!(t.len(), 2);
    assert_eq!(t[0].name_string_id, 3);
    assert_eq!(t[0].value, 0x55);
    assert_eq!(t[0].size, 9);
    assert_eq!(t[0].type_, SymbolType::Function);
    assert_eq!(t[0].bindings, SymbolBindings::Global);
    assert_eq!(t[1].type_, SymbolType::External);
    assert_eq!(t[1].bindings, SymbolBindings::Export);
    assert_eq!(t[0].flags, 0);
}

#[test]
fn symbol_flags_are_read() {
    let b = symbol(1, 1, [1, 0, 0, 0]);
    let t = decode_symbol_table(&b, &symbols_section(0, 24)).unwrap();
    assert_eq!(t.len(), 1);
    assert_eq!(t[0].flags, 1);
    let b = symbol(1, 1, [0, 0, 1, 0]);
    assert_eq!(decode_symbol_table(&b, &symbols_section(0, 24)).unwrap()[0].flags, 0x10000);
}

#[test]
fn symbol_table_errors() {
    let b = symbol(7, 1, [0; 4]);
    assert_eq!(decode_symbol_table(&b, &symbols_section(0, 24)).unwrap_err(), LoadError::InvalidSymbolType(7));
    let b = symbol(1, 0, [0; 4]);
    assert_eq!(decode_symbol_table(&b, &symbols_section(0, 24)).unwrap_err(), LoadError::InvalidSymbolBindings(0));
    let b = symbol(1, 1, [0; 4]);
    assert_eq!(decode_symbol_table(&b, &symbols_section(0, 25)).unwrap_err(), LoadError::IOError);
}

#[test]
fn symbol_kinds_convert_from_numbers() {
    assert_eq!(SymbolType::try_from(4u16), Ok(SymbolType::Atom));
    assert_eq!(SymbolType::try_from(0u16), Err(LoadError::InvalidSymbolType(0)));
    assert_eq!(SymbolBindings::try_from(3u16), Ok(SymbolBindings::Weak));
    assert_eq!(SymbolBindings::try_from(6u16), Err(LoadError::InvalidSymbolBindings(6)));
}

#[test]
fn entry_function_bytecode_errors_are_reported() {
    // Replace the entry function's code with an unknown opcode.
    let mut b = image(1, 2, 4);
    b[251] = 0x06;
    let lf = load_file_by_data(b).unwrap();
    assert!(matches!(load_entry_function(&lf), Err(HiveError::Parse(_))));
}

#[test]
fn loaded_code_lies_in_a_code_section() {
    let lf = load_file_by_data(image(2, 2, 4)).unwrap();
    let code = lf.sections.iter().find(|s| s.type_ == SectionType::Code).unwrap();
    let f = lf.functions[0];
    assert!(code.offset <= f.code_offset);
    assert!(f.code_offset + u64::from(f.code_size) <= code.offset + code.size);
    assert_eq!(f.code_offset, 252);
}
