//! Loading a whole `.hive` file: its tables, and the functions' code placed in
//! the file's code sections.
use vstd::prelude::*;

use crate::error::HiveError;
use crate::jit::x86_64::into_boxed;
use crate::parser::function_table::{decode_function_table, spec_function_table, FunctionDescriptor};
use crate::parser::header::{default_header, Header};
use crate::parser::section_table::{SectionDescriptor, SectionType};
use crate::parser::fields::{fits, fits_at, le32, read_u32_at};
use crate::parser::strings::{decode_string_table, entries_view, spec_string_table, StringTable};
use crate::parser::errors::LoadError;
use crate::parser::{spec_parsed, ParsedFile};
use crate::runtime::load_exec::FunctionId;

verus! {

/// A loaded file: its bytes, its tables, and its functions with their code
/// positions given as positions in the file.
#[derive(Debug)]
pub struct LoadedFile {
    pub source: Option<Vec<u8>>,
    pub header: Header,
    pub sections: Vec<SectionDescriptor>,
    pub strings: Box<[String]>,
    pub functions: Box<[FunctionDescriptor]>,
}

impl Default for LoadedFile {
    fn default() -> (f: Self)
        ensures
            f.source is None,
            f.header == default_header(),
            f.sections@.len() == 0,
            f.strings@.len() == 0,
            f.functions@.len() == 0,
    {
        LoadedFile {
            source: None,
            header: Header::default(),
            sections: Vec::new(),
            strings: into_boxed(Vec::new()),
            functions: into_boxed(Vec::new()),
        }
    }
}

/// Where a code section's bytes lie: the functions number the bytes of all
/// code sections jointly, and `start..=end` is this section's share of that
/// numbering; `offset` is its position in the file.
#[derive(Default, Debug, Clone, Copy)]
pub struct CodeSectionMapping {
    pub offset: u64,
    pub start: u64,
    pub end: u64,
}

/// The text of a string: its bytes decoded as UTF-8, with each invalid
/// sequence replaced by U+FFFD.
pub uninterp spec fn utf8_lossy(bytes: Seq<u8>) -> Seq<char>;

/// `String::from_utf8_lossy`: the string is `utf8_lossy` of the bytes. What
/// that decoding gives for given bytes is left unstated.
#[verifier::external_body]
fn lossy_string(bytes: &[u8]) -> (s: String)
    ensures
        s@ == utf8_lossy(bytes@),
{
    String::from_utf8_lossy(bytes).into_owned()
}

/// The mapping list after one more code section; `None` where the end
/// position `last end + size - 1` leaves the `u64` range (a size of zero
/// at the start included).
pub open spec fn mapping_step(ms: Seq<CodeSectionMapping>, sec: SectionDescriptor) -> Option<Seq<CodeSectionMapping>> {
    let last_end: int = if ms.len() == 0 { 0 } else { ms.last().end as int };
    if last_end + sec.size > u64::MAX || last_end + sec.size == 0 {
        None
    } else {
        Some(
            ms.push(
                CodeSectionMapping {
                    offset: sec.offset,
                    start: last_end as u64,
                    end: (last_end + sec.size - 1) as u64,
                },
            ),
        )
    }
}

/// The first metadata section from position `k` of the section table on.
pub open spec fn first_metadata(secs: Seq<SectionDescriptor>, k: int) -> Option<SectionDescriptor>
    decreases secs.len() - k,
{
    if k < 0 || k >= secs.len() {
        None
    } else if secs[k].type_ == SectionType::Metadata {
        Some(secs[k])
    } else {
        first_metadata(secs, k + 1)
    }
}

/// Position of the String Count field inside the metadata section.
pub open spec fn string_count_field() -> int {
    22
}

/// The number of strings the file declares: the String Count field of its
/// metadata section. A file without a metadata section, or whose metadata
/// section is too short for the field, gives `IOError`.
pub open spec fn declared_string_count(s: Seq<u8>, secs: Seq<SectionDescriptor>) -> Result<u32, LoadError> {
    match first_metadata(secs, 0) {
        None => Err(LoadError::IOError),
        Some(m) => if m.size < string_count_field() + 4 || !fits(s, m.offset + string_count_field(), 4) {
            Err(LoadError::IOError)
        } else {
            Ok(le32(s, m.offset + string_count_field()))
        },
    }
}

/// Reads the number of strings the file declares in its metadata section.
pub fn string_count(s: &[u8], secs: &[SectionDescriptor]) -> (res: Result<u32, LoadError>)
    ensures
        res == declared_string_count(s@, secs@),
{
    let n = s.len();
    let mut k: usize = 0;
    while k < secs.len()
        invariant
            n == s@.len(),
            k <= secs@.len(),
            first_metadata(secs@, 0) == first_metadata(secs@, k as int),
        decreases secs@.len() - k,
    {
        let m = secs[k];
        match m.type_ {
            SectionType::Metadata => {
                if m.size < 26 {
                    return Err(LoadError::IOError);
                }
                let p = match m.offset.checked_add(22) {
                    Some(p) => p,
                    None => {
                        return Err(LoadError::IOError);
                    },
                };
                if !fits_at(s, p, 4) {
                    return Err(LoadError::IOError);
                }
                return Ok(read_u32_at(s, p as usize));
            },
            _ => {},
        }
        k = k + 1;
    }
    Err(LoadError::IOError)
}

/// What the scan of one section adds: the strings of a strings section, the
/// functions of a functions section, the mapping of a code section.
pub open spec fn scan_one(
    s: Seq<u8>,
    secs: Seq<SectionDescriptor>,
    sec: SectionDescriptor,
    st: (Seq<Seq<u8>>, Seq<FunctionDescriptor>, Seq<CodeSectionMapping>),
) -> Option<Result<(Seq<Seq<u8>>, Seq<FunctionDescriptor>, Seq<CodeSectionMapping>), HiveError>> {
    match sec.type_ {
        SectionType::Strings => match declared_string_count(s, secs) {
            Err(e) => Some(Err(HiveError::Load(e))),
            Ok(count) => match spec_string_table(s, sec.offset, sec.size, count) {
                Ok(v) => Some(Ok((st.0 + v.map_values(|e: (u64, Seq<u8>)| e.1), st.1, st.2))),
                Err(e) => Some(Err(HiveError::Load(e))),
            },
        },
        SectionType::Functions => match spec_function_table(s, sec.offset, sec.size) {
            Ok(v) => Some(Ok((st.0, st.1 + v, st.2))),
            Err(e) => Some(Err(HiveError::Load(e))),
        },
        SectionType::Code => match mapping_step(st.2, sec) {
            Some(ms) => Some(Ok((st.0, st.1, ms))),
            None => None,
        },
        _ => Some(Ok(st)),
    }
}

/// The strings, functions and code mappings of the first `n` sections, in
/// section order; `None` where the scan overflows.
pub open spec fn scan_sections(s: Seq<u8>, secs: Seq<SectionDescriptor>, n: nat) -> Option<
    Result<(Seq<Seq<u8>>, Seq<FunctionDescriptor>, Seq<CodeSectionMapping>), HiveError>,
>
    decreases n,
{
    if n == 0 {
        Some(Ok((Seq::empty(), Seq::empty(), Seq::empty())))
    } else {
        match scan_sections(s, secs, (n - 1) as nat) {
            Some(Ok(st)) => scan_one(s, secs, secs[n - 1], st),
            other => other,
        }
    }
}

/// The file position of code numbered `f_start..=f_end`, found in the first
/// mapping from `j` on whose start is at most `f_start`: that mapping must
/// also hold `f_end`. `None` where the position overflows.
pub open spec fn place(f_start: u64, f_end: int, maps: Seq<CodeSectionMapping>, j: int, id: FunctionId) -> Option<Result<u64, HiveError>>
    decreases maps.len() - j,
{
    if j < 0 || j >= maps.len() {
        Some(Err(HiveError::FunctionDoesNotFitInAnyCodeChunk(id)))
    } else if f_start >= maps[j].start {
        if f_end <= maps[j].end {
            let o = maps[j].offset + (f_start - maps[j].start);
            if o > u64::MAX {
                None
            } else {
                Some(Ok(o as u64))
            }
        } else {
            Some(Err(HiveError::FunctionIsInMultipleCodeChunk(id)))
        }
    } else {
        place(f_start, f_end, maps, j + 1, id)
    }
}

/// Function `i` with its code position made a file position; `None` where its
/// code size is zero or its last byte's number overflows.
pub open spec fn relocate_one(f: FunctionDescriptor, maps: Seq<CodeSectionMapping>, i: int) -> Option<Result<FunctionDescriptor, HiveError>> {
    if f.code_size == 0 || f.code_offset + (f.code_size - 1) > u64::MAX {
        None
    } else {
        match place(f.code_offset, f.code_offset + (f.code_size - 1), maps, 0, FunctionId(i as u32)) {
            None => None,
            Some(Err(e)) => Some(Err(e)),
            Some(Ok(o)) => Some(
                Ok(
                    FunctionDescriptor {
                        symbol: f.symbol,
                        code_offset: o,
                        code_size: f.code_size,
                        frame_size: f.frame_size,
                        flags: f.flags,
                        param_type_id: f.param_type_id,
                        return_type_id: f.return_type_id,
                    },
                ),
            ),
        }
    }
}

/// The first `n` functions relocated, in order, or the first failure.
pub open spec fn relocate_prefix(fs: Seq<FunctionDescriptor>, maps: Seq<CodeSectionMapping>, n: nat) -> Option<Result<Seq<FunctionDescriptor>, HiveError>>
    decreases n,
{
    if n == 0 {
        Some(Ok(Seq::empty()))
    } else {
        match relocate_prefix(fs, maps, (n - 1) as nat) {
            Some(Ok(done)) => match relocate_one(fs[n - 1], maps, n - 1) {
                Some(Ok(f)) => Some(Ok(done.push(f))),
                Some(Err(e)) => Some(Err(e)),
                None => None,
            },
            other => other,
        }
    }
}

/// What loading the bytes `s` gives: the header, the sections, the strings'
/// bytes and the relocated functions, or the error; `None` where loading
/// overflows a `u64` position.
pub open spec fn spec_load(s: Seq<u8>) -> Option<
    Result<(Header, Seq<SectionDescriptor>, Seq<Seq<u8>>, Seq<FunctionDescriptor>), HiveError>,
> {
    match spec_parsed(s) {
        Err(e) => Some(Err(HiveError::Load(e))),
        Ok(parsed) => match scan_sections(s, parsed.1, parsed.1.len()) {
            None => None,
            Some(Err(e)) => Some(Err(e)),
            Some(Ok(st)) => match relocate_prefix(st.1, st.2, st.1.len()) {
                None => None,
                Some(Err(e)) => Some(Err(e)),
                Some(Ok(fs)) => Some(Ok((parsed.0, parsed.1, st.0, fs))),
            },
        },
    }
}

/// Whether `lf` is the file loaded from `s` with the tables `v`.
pub open spec fn loaded_as(
    lf: LoadedFile,
    s: Seq<u8>,
    v: (Header, Seq<SectionDescriptor>, Seq<Seq<u8>>, Seq<FunctionDescriptor>),
) -> bool {
    &&& lf.source matches Some(src) && src@ == s
    &&& lf.header == v.0
    &&& lf.sections@ == v.1
    &&& lf.strings@.len() == v.2.len()
    &&& forall|i: int| 0 <= i < v.2.len() ==> (#[trigger] lf.strings@[i])@ == utf8_lossy(v.2[i])
    &&& lf.functions@ == v.3
}


/// Once the scan has failed or overflowed, scanning more sections changes nothing.
proof fn lemma_scan_stops(s: Seq<u8>, secs: Seq<SectionDescriptor>, i: nat, n: nat)
    requires
        i <= n,
        !(scan_sections(s, secs, i) matches Some(Ok(_))),
    ensures
        scan_sections(s, secs, n) == scan_sections(s, secs, i),
    decreases n - i,
{
    if n > i {
        lemma_scan_stops(s, secs, i, (n - 1) as nat);
    }
}

/// Once relocation has failed or overflowed, relocating more functions changes nothing.
proof fn lemma_relocate_stops(fs: Seq<FunctionDescriptor>, maps: Seq<CodeSectionMapping>, i: nat, n: nat)
    requires
        i <= n,
        !(relocate_prefix(fs, maps, i) matches Some(Ok(_))),
    ensures
        relocate_prefix(fs, maps, n) == relocate_prefix(fs, maps, i),
    decreases n - i,
{
    if n > i {
        lemma_relocate_stops(fs, maps, i, (n - 1) as nat);
    }
}

/// Appends the text of each string of `table`.
fn append_strings(strings: &mut Vec<String>, table: &StringTable)
    ensures
        final(strings)@.len() == old(strings)@.len() + table.strings@.len(),
        forall|k: int| 0 <= k < old(strings)@.len() ==> final(strings)@[k] == old(strings)@[k],
        forall|k: int|
            0 <= k < table.strings@.len() ==> (#[trigger] final(strings)@[old(strings)@.len() + k])@
                == utf8_lossy(table.strings@[k].content@),
{
    let ghost start = strings@;
    let mut k: usize = 0;
    while k < table.strings.len()
        invariant
            k <= table.strings@.len(),
            strings@.len() == start.len() + k,
            forall|j: int| 0 <= j < start.len() ==> strings@[j] == start[j],
            forall|j: int|
                0 <= j < k ==> (#[trigger] strings@[start.len() + j])@ == utf8_lossy(
                    table.strings@[j].content@,
                ),
        decreases table.strings@.len() - k,
    {
        let text = lossy_string(table.strings[k].content.as_slice());
        strings.push(text);
        k = k + 1;
    }
}

/// Relocates function `i`: makes its code position a position in the file.
fn relocate_function(f: &FunctionDescriptor, maps: &Vec<CodeSectionMapping>, i: usize) -> (res: Option<Result<FunctionDescriptor, HiveError>>)
    ensures
        res == relocate_one(*f, maps@, i as int),
{
    if f.code_size == 0 {
        return None;
    }
    let f_start = f.code_offset;
    let last: u32 = f.code_size - 1;
    let f_end = match f_start.checked_add(last as u64) {
        Some(e) => e,
        None => {
            return None;
        },
    };
    let id = FunctionId(i as u32);
    let mut j: usize = 0;
    while j < maps.len()
        invariant
            j <= maps@.len(),
            f.code_size != 0,
            f_start == f.code_offset,
            f_end == f.code_offset + (f.code_size - 1),
            id == FunctionId(i as u32),
            place(f_start, f_end as int, maps@, 0, id) == place(f_start, f_end as int, maps@, j as int, id),
        decreases maps@.len() - j,
    {
        let m = maps[j];
        if f_start >= m.start {
            if f_end <= m.end {
                return match m.offset.checked_add(f_start - m.start) {
                    None => None,
                    Some(o) => Some(
                        Ok(
                            FunctionDescriptor {
                                symbol: f.symbol,
                                code_offset: o,
                                code_size: f.code_size,
                                frame_size: f.frame_size,
                                flags: f.flags,
                                param_type_id: f.param_type_id,
                                return_type_id: f.return_type_id,
                            },
                        ),
                    ),
                };
            }
            return Some(Err(HiveError::FunctionIsInMultipleCodeChunk(id)));
        }
        j = j + 1;
    }
    Some(Err(HiveError::FunctionDoesNotFitInAnyCodeChunk(id)))
}

impl ParsedFile {
    /// Loads a file from its bytes, or gives `None` where a position of the
    /// loaded file would overflow a `u64`: a code section of size zero first
    /// in the code numbering, code sections whose joint size overflows, a
    /// function of code size zero, or a code position past `u64::MAX`.
    pub fn try_parse(source: Vec<u8>) -> (res: Option<Result<LoadedFile, HiveError>>)
        ensures
            match spec_load(source@) {
                None => res is None,
                Some(Err(e)) => res matches Some(Err(e2)) && e2 == e,
                Some(Ok(v)) => res matches Some(Ok(lf)) && loaded_as(lf, source@, v),
            },
    {
        let parsed = match ParsedFile::read(source.as_slice()) {
            Ok(p) => p,
            Err(e) => {
                return Some(Err(HiveError::Load(e)));
            },
        };
        let ghost s = source@;
        let ghost secs = parsed.section_table@;
        let mut strings: Vec<String> = Vec::new();
        let ghost mut texts: Seq<Seq<u8>> = Seq::empty();
        let mut functions: Vec<FunctionDescriptor> = Vec::new();
        let mut maps: Vec<CodeSectionMapping> = Vec::new();
        let mut i: usize = 0;
        while i < parsed.section_table.len()
            invariant
                s == source@,
                secs == parsed.section_table@,
                spec_parsed(s) == Ok::<(Header, Seq<SectionDescriptor>), crate::parser::errors::LoadError>((parsed.header, secs)),
                i <= secs.len(),
                scan_sections(s, secs, i as nat) == Some(
                    Ok::<(Seq<Seq<u8>>, Seq<FunctionDescriptor>, Seq<CodeSectionMapping>), HiveError>(
                        (texts, functions@, maps@),
                    ),
                ),
                strings@.len() == texts.len(),
                forall|k: int| 0 <= k < texts.len() ==> (#[trigger] strings@[k])@ == utf8_lossy(texts[k]),
            decreases secs.len() - i,
        {
            let sec = parsed.section_table[i];
            let ghost st = (texts, functions@, maps@);
            assert(secs[i as int] == sec);
            assert(scan_sections(s, secs, (i + 1) as nat) == scan_one(s, secs, sec, st));
            proof {
                if !(scan_one(s, secs, sec, st) matches Some(Ok(_))) {
                    lemma_scan_stops(s, secs, (i + 1) as nat, secs.len());
                }
            }
            match sec.type_ {
                SectionType::Strings => {
                    let count = match string_count(source.as_slice(), parsed.section_table.as_slice()) {
                        Ok(c) => c,
                        Err(e) => {
                            return Some(Err(HiveError::Load(e)));
                        },
                    };
                    match decode_string_table(source.as_slice(), sec.offset, sec.size, count) {
                        Ok(table) => {
                            let ghost old_strings = strings@;
                            append_strings(&mut strings, &table);
                            proof {
                                let added = entries_view(table.strings@).map_values(|e: (u64, Seq<u8>)| e.1);
                                let new_texts = texts + added;
                                assert forall|k: int| 0 <= k < new_texts.len() implies (#[trigger] strings@[k])@
                                    == utf8_lossy(new_texts[k]) by {
                                    if k >= texts.len() {
                                        let j = k - texts.len();
                                        assert(strings@[old_strings.len() + j] == strings@[k]);
                                        assert(added[j] == table.strings@[j].content@);
                                    }
                                }
                                texts = new_texts;
                            }
                        },
                        Err(e) => {
                            return Some(Err(HiveError::Load(e)));
                        },
                    }
                },
                SectionType::Functions => {
                    match decode_function_table(source.as_slice(), sec.offset, sec.size) {
                        Ok(table) => {
                            let mut table = table;
                            functions.append(&mut table.functions);
                        },
                        Err(e) => {
                            return Some(Err(HiveError::Load(e)));
                        },
                    }
                },
                SectionType::Code => {
                    let last_end: u64 = if maps.len() == 0 {
                        0
                    } else {
                        maps[maps.len() - 1].end
                    };
                    let sum = match last_end.checked_add(sec.size) {
                        Some(x) => x,
                        None => {
                            return None;
                        },
                    };
                    if sum == 0 {
                        return None;
                    }
                    maps.push(CodeSectionMapping { offset: sec.offset, start: last_end, end: sum - 1 });
                },
                _ => {},
            }
            i = i + 1;
        }
        let ghost fs0 = functions@;
        let ghost ms = maps@;
        let ghost texts_done = texts;
        let mut j: usize = 0;
        assert(functions@.subrange(0, 0) =~= Seq::<FunctionDescriptor>::empty());
        while j < functions.len()
            invariant
                functions@.len() == fs0.len(),
                j <= fs0.len(),
                s == source@,
                spec_parsed(s) == Ok::<(Header, Seq<SectionDescriptor>), crate::parser::errors::LoadError>((parsed.header, secs)),
                scan_sections(s, secs, secs.len()) == Some(
                    Ok::<(Seq<Seq<u8>>, Seq<FunctionDescriptor>, Seq<CodeSectionMapping>), HiveError>(
                        (texts_done, fs0, ms),
                    ),
                ),
                maps@ == ms,
                relocate_prefix(fs0, ms, j as nat) == Some(
                    Ok::<Seq<FunctionDescriptor>, HiveError>(functions@.subrange(0, j as int)),
                ),
                forall|k: int| j <= k < fs0.len() ==> functions@[k] == fs0[k],
            decreases fs0.len() - j,
        {
            let f = functions[j];
            proof {
                if !(relocate_one(f, ms, j as int) matches Some(Ok(_))) {
                    lemma_relocate_stops(fs0, ms, (j + 1) as nat, fs0.len());
                }
            }
            match relocate_function(&f, &maps, j) {
                None => {
                    return None;
                },
                Some(Err(e)) => {
                    return Some(Err(e));
                },
                Some(Ok(f2)) => {
                    let ghost before = functions@;
                    functions.set(j, f2);
                    assert(functions@.subrange(0, j + 1) =~= before.subrange(0, j as int).push(f2));
                },
            }
            j = j + 1;
        }
        assert(functions@.subrange(0, fs0.len() as int) =~= functions@);
        Some(
            Ok(
                LoadedFile {
                    source: Some(source),
                    header: parsed.header,
                    sections: parsed.section_table,
                    strings: into_boxed(strings),
                    functions: into_boxed(functions),
                },
            ),
        )
    }

    /// Loads a file from its bytes. The positions of the loaded file must stay
    /// within `u64` (`try_parse` tells where they do not).
    pub fn parse(source: Vec<u8>) -> (res: Result<LoadedFile, HiveError>)
        requires
            spec_load(source@) is Some,
        ensures
            match spec_load(source@) {
                Some(Ok(v)) => res matches Ok(lf) && loaded_as(lf, source@, v),
                Some(Err(e)) => res matches Err(e2) && e2 == e,
                None => false,
            },
    {
        match ParsedFile::try_parse(source) {
            Some(r) => r,
            None => {
                proof {
                    assert(false);
                }
                Err(HiveError::NoSourceAvailable)
            },
        }
    }
}

/// Loads a file from its bytes; see `ParsedFile::parse`.
pub fn load_file_by_data(source: Vec<u8>) -> (res: Result<LoadedFile, HiveError>)
    requires
        spec_load(source@) is Some,
    ensures
        match spec_load(source@) {
            Some(Ok(v)) => res matches Ok(lf) && loaded_as(lf, source@, v),
            Some(Err(e)) => res matches Err(e2) && e2 == e,
            None => false,
        },
{
    ParsedFile::parse(source)
}

/// Whether mapping `m` is the share of code section `sec` in the code numbering.
pub open spec fn maps_section(m: CodeSectionMapping, sec: SectionDescriptor) -> bool {
    &&& sec.type_ == SectionType::Code
    &&& m.offset == sec.offset
    &&& m.end + 1 == m.start + sec.size
}

/// Each code mapping of a scan comes from one of the scanned code sections.
proof fn lemma_scan_mappings(s: Seq<u8>, secs: Seq<SectionDescriptor>, n: nat)
    requires
        n <= secs.len(),
        scan_sections(s, secs, n) matches Some(Ok(_)),
    ensures
        ({
            let maps = scan_sections(s, secs, n)->Some_0->Ok_0.2;
            forall|k: int| 0 <= k < maps.len() ==> exists|j: int| 0 <= j < n && maps_section(#[trigger] maps[k], secs[j])
        }),
    decreases n,
{
    if n > 0 {
        lemma_scan_mappings(s, secs, (n - 1) as nat);
        let prev = scan_sections(s, secs, (n - 1) as nat)->Some_0->Ok_0.2;
        let maps = scan_sections(s, secs, n)->Some_0->Ok_0.2;
        let sec = secs[n - 1];
        assert forall|k: int| 0 <= k < maps.len() implies exists|j: int| 0 <= j < n && maps_section(#[trigger] maps[k], secs[j]) by {
            if k < prev.len() {
                assert(maps[k] == prev[k]);
                let j = choose|j: int| 0 <= j < n - 1 && maps_section(prev[k], secs[j]);
                assert(maps_section(maps[k], secs[j]));
            } else {
                assert(sec.type_ == SectionType::Code);
                assert(maps_section(maps[k], secs[n - 1]));
            }
        }
    }
}

/// Placed code lies in the mapping that placed it.
proof fn lemma_place(f_start: u64, f_end: int, maps: Seq<CodeSectionMapping>, j: int, id: FunctionId)
    requires
        0 <= j,
        place(f_start, f_end, maps, j, id) matches Some(Ok(_)),
    ensures
        exists|k: int| j <= k < maps.len() && {
            let m = #[trigger] maps[k];
            &&& m.start <= f_start
            &&& f_end <= m.end
            &&& place(f_start, f_end, maps, j, id)->Some_0->Ok_0 == m.offset + (f_start - m.start)
        },
    decreases maps.len() - j,
{
    if j < maps.len() && f_start < maps[j].start {
        lemma_place(f_start, f_end, maps, j + 1, id);
        let k = choose|k: int| j + 1 <= k < maps.len() && {
            let m = #[trigger] maps[k];
            &&& m.start <= f_start
            &&& f_end <= m.end
            &&& place(f_start, f_end, maps, j + 1, id)->Some_0->Ok_0 == m.offset + (f_start - m.start)
        };
        assert(maps[k].start <= f_start);
    } else {
        assert(maps[j].start <= f_start);
    }
}

/// Whether function `f`, relocated to `g`, was placed by mapping `m`: its code
/// lies in the mapping's share of the numbering, and keeps its size.
pub open spec fn placed_by(f: FunctionDescriptor, g: FunctionDescriptor, m: CodeSectionMapping) -> bool {
    &&& f.code_size > 0
    &&& m.start <= f.code_offset
    &&& f.code_offset + f.code_size - 1 <= m.end
    &&& g.code_offset == m.offset + (f.code_offset - m.start)
    &&& g.code_size == f.code_size
}

/// Each relocated function keeps its size and lies in the mapping that placed it.
proof fn lemma_relocated(fs: Seq<FunctionDescriptor>, maps: Seq<CodeSectionMapping>, n: nat)
    requires
        n <= fs.len(),
        relocate_prefix(fs, maps, n) matches Some(Ok(_)),
    ensures
        relocate_prefix(fs, maps, n)->Some_0->Ok_0.len() == n,
        forall|i: int|
            #![trigger fs[i]]
            0 <= i < n ==> exists|k: int|
                0 <= k < maps.len() && placed_by(fs[i], relocate_prefix(fs, maps, n)->Some_0->Ok_0[i], #[trigger] maps[k]),
    decreases n,
{
    if n > 0 {
        lemma_relocated(fs, maps, (n - 1) as nat);
        let done = relocate_prefix(fs, maps, (n - 1) as nat)->Some_0->Ok_0;
        let r = relocate_prefix(fs, maps, n)->Some_0->Ok_0;
        let f = fs[n - 1];
        let f_end = f.code_offset + (f.code_size - 1);
        assert(relocate_one(f, maps, n - 1) matches Some(Ok(_)));
        let id = FunctionId((n - 1) as u32);
        assert(place(f.code_offset, f_end, maps, 0, id) matches Some(Ok(_)));
        lemma_place(f.code_offset, f_end, maps, 0, id);
        assert(r == done.push(relocate_one(f, maps, n - 1)->Some_0->Ok_0));
        assert forall|i: int| #![trigger fs[i]] 0 <= i < n implies exists|k: int|
            0 <= k < maps.len() && placed_by(fs[i], r[i], #[trigger] maps[k]) by {
            if i < n - 1 {
                assert(r[i] == done[i]);
            } else {
                let k = choose|k: int| 0 <= k < maps.len() && {
                    let m = #[trigger] maps[k];
                    &&& m.start <= f.code_offset
                    &&& f_end <= m.end
                    &&& place(f.code_offset, f_end, maps, 0, id)->Some_0->Ok_0 == m.offset + (f.code_offset - m.start)
                };
                assert(placed_by(fs[i], r[i], maps[k]));
            }
        }
    }
}

/// Whether function `f`'s code lies within the bytes of code section `sec`.
pub open spec fn code_within(f: FunctionDescriptor, sec: SectionDescriptor) -> bool {
    &&& sec.type_ == SectionType::Code
    &&& sec.offset <= f.code_offset
    &&& f.code_offset + f.code_size <= sec.offset + sec.size
}

/// After loading, the code of every function lies within the bytes of a code
/// section of the file.
pub proof fn lemma_loaded_code_in_code_section(s: Seq<u8>)
    requires
        spec_load(s) matches Some(Ok(_)),
    ensures
        forall|i: int|
            #![trigger spec_load(s)->Some_0->Ok_0.3[i]]
            0 <= i < spec_load(s)->Some_0->Ok_0.3.len() ==> exists|j: int|
                0 <= j < spec_load(s)->Some_0->Ok_0.1.len() && code_within(
                    spec_load(s)->Some_0->Ok_0.3[i],
                    #[trigger] spec_load(s)->Some_0->Ok_0.1[j],
                ),
{
    let parsed = spec_parsed(s)->Ok_0;
    let secs = parsed.1;
    let st = scan_sections(s, secs, secs.len())->Some_0->Ok_0;
    let v = spec_load(s)->Some_0->Ok_0;
    lemma_scan_mappings(s, secs, secs.len());
    lemma_relocated(st.1, st.2, st.1.len());
    assert forall|i: int| #![trigger v.3[i]] 0 <= i < v.3.len() implies exists|j: int| 0 <= j < v.1.len() && code_within(
        v.3[i],
        #[trigger] v.1[j],
    ) by {
        let k = choose|k: int| 0 <= k < st.2.len() && placed_by(st.1[i], v.3[i], #[trigger] st.2[k]);
        let j = choose|j: int| 0 <= j < secs.len() && maps_section(#[trigger] st.2[k], secs[j]);
        assert(code_within(v.3[i], v.1[j]));
    }
}

/// Relocating a function changes only where its code is: every other field
/// of its entry is kept.
pub proof fn lemma_relocation_keeps_fields(f: FunctionDescriptor, maps: Seq<CodeSectionMapping>, i: int)
    ensures
        relocate_one(f, maps, i) matches Some(Ok(g)) ==> {
            &&& g.symbol == f.symbol
            &&& g.code_size == f.code_size
            &&& g.frame_size == f.frame_size
            &&& g.flags == f.flags
            &&& g.param_type_id == f.param_type_id
            &&& g.return_type_id == f.return_type_id
        },
{
}

} // verus!
