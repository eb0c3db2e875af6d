//! The string table: positions of NUL-terminated strings elsewhere in the file.
use vstd::prelude::*;

use crate::parser::errors::LoadError;
use crate::parser::fields::{fits, fits_at, le64, read_u64_at};

verus! {

/// One entry of a string table: the position of the string and its bytes,
/// without the terminating NUL.
pub struct StringEntry {
    pub offset: u64,
    pub content: Vec<u8>,
}

/// The strings of one strings section.
pub struct StringTable {
    pub strings: Vec<StringEntry>,
}

/// The position of the first NUL byte at or after `p`, if there is one.
pub open spec fn null_end(s: Seq<u8>, p: int) -> Option<int>
    decreases s.len() - p,
{
    if p < 0 || p >= s.len() {
        None
    } else if s[p] == 0 {
        Some(p)
    } else {
        null_end(s, p + 1)
    }
}

/// The NUL-terminated string at `p`; a string that the bytes do not terminate
/// gives `IOError`.
pub open spec fn spec_null_string(s: Seq<u8>, p: int) -> Result<Seq<u8>, LoadError> {
    match null_end(s, p) {
        Some(k) => Ok(s.subrange(p, k)),
        None => Err(LoadError::IOError),
    }
}

/// The string table entry at position `p`: an 8-byte offset into the string
/// data area at `data`, then the string found there.
pub open spec fn spec_string_entry_at(s: Seq<u8>, p: int, data: int) -> Result<(u64, Seq<u8>), LoadError> {
    if !fits(s, p, 8) {
        Err(LoadError::IOError)
    } else {
        match spec_null_string(s, data + le64(s, p)) {
            Ok(c) => Ok((le64(s, p), c)),
            Err(e) => Err(e),
        }
    }
}

/// `n` consecutive string table entries starting at `p`, their strings in the
/// data area at `data`, or the first defect.
pub open spec fn spec_string_entries(s: Seq<u8>, p: int, n: nat, data: int) -> Result<Seq<(u64, Seq<u8>)>, LoadError>
    decreases n,
{
    if n == 0 {
        Ok(Seq::empty())
    } else {
        match spec_string_entry_at(s, p, data) {
            Err(e) => Err(e),
            Ok(d) => match spec_string_entries(s, p + 8, (n - 1) as nat, data) {
                Ok(rest) => Ok(seq![d] + rest),
                Err(e) => Err(e),
            },
        }
    }
}

/// The string table of a section of `size` bytes at `offset` holding `count`
/// strings: `count` entries of 8 bytes, then the string data area, which the
/// entries' offsets count from. Entries that do not fit in the section give
/// `IOError`.
pub open spec fn spec_string_table(s: Seq<u8>, offset: u64, size: u64, count: u32) -> Result<Seq<(u64, Seq<u8>)>, LoadError> {
    if 8 * count > size {
        Err(LoadError::IOError)
    } else {
        spec_string_entries(s, offset as int, count as nat, offset + 8 * count)
    }
}

/// The entries' positions and bytes.
pub open spec fn entries_view(v: Seq<StringEntry>) -> Seq<(u64, Seq<u8>)> {
    v.map_values(|e: StringEntry| (e.offset, e.content@))
}

/// Reads the NUL-terminated string at `p`.
pub fn read_null_string(s: &[u8], p: u64) -> (res: Result<Vec<u8>, LoadError>)
    ensures
        match spec_null_string(s@, p as int) {
            Ok(c) => res matches Ok(v) && v@ == c,
            Err(e) => res matches Err(e2) && e2 == e,
        },
{
    let n = s.len();
    if p >= n as u64 {
        return Err(LoadError::IOError);
    }
    let start = p as usize;
    let mut k: usize = start;
    let mut content: Vec<u8> = Vec::new();
    while k < n
        invariant
            n == s@.len(),
            start == p,
            start <= k <= n,
            null_end(s@, start as int) == null_end(s@, k as int),
            content@ == s@.subrange(start as int, k as int),
        decreases n - k,
    {
        if s[k] == 0 {
            return Ok(content);
        }
        content.push(s[k]);
        assert(content@ =~= s@.subrange(start as int, k + 1));
        k = k + 1;
    }
    Err(LoadError::IOError)
}

/// Decodes the string table entry at position `p`, whose string lies in the
/// data area at `data`.
pub fn decode_string_entry(s: &[u8], p: u64, data: u64) -> (res: Result<StringEntry, LoadError>)
    ensures
        match spec_string_entry_at(s@, p as int, data as int) {
            Ok(d) => res matches Ok(e) && e.offset == d.0 && e.content@ == d.1,
            Err(e) => res matches Err(e2) && e2 == e,
        },
{
    if !fits_at(s, p, 8) {
        return Err(LoadError::IOError);
    }
    let n = s.len();
    assert(p + 8 <= n);
    let offset = read_u64_at(s, p as usize);
    let at = match data.checked_add(offset) {
        Some(x) => x,
        None => {
            return Err(LoadError::IOError);
        },
    };
    match read_null_string(s, at) {
        Ok(content) => Ok(StringEntry { offset, content }),
        Err(e) => Err(e),
    }
}

/// Decodes the string table of a section of `size` bytes at `offset` holding
/// `count` strings.
pub fn decode_string_table(source: &[u8], offset: u64, size: u64, count: u32) -> (res: Result<StringTable, LoadError>)
    ensures
        match spec_string_table(source@, offset, size, count) {
            Ok(v) => res matches Ok(t) && entries_view(t.strings@) == v,
            Err(e) => res matches Err(e2) && e2 == e,
        },
{
    let table_len: u64 = 8 * (count as u64);
    if table_len > size {
        return Err(LoadError::IOError);
    }
    let n = source.len();
    if count > 0 && (offset > n as u64 || table_len > n as u64 - offset) {
        proof {
            lemma_entries_past_end(source@, offset as int, count as nat, offset + 8 * count);
        }
        return Err(LoadError::IOError);
    }
    let data: u64 = offset + table_len;
    let ghost total = spec_string_table(source@, offset, size, count);
    let mut strings: Vec<StringEntry> = Vec::new();
    let mut pos: u64 = offset;
    let mut i: u32 = 0;
    while i < count
        invariant
            n == source@.len(),
            data == offset + 8 * count,
            i <= count,
            pos == offset + 8 * i,
            total == spec_string_entries(source@, offset as int, count as nat, data as int),
            match spec_string_entries(source@, pos as int, (count - i) as nat, data as int) {
                Ok(rest) => total == Ok::<Seq<(u64, Seq<u8>)>, LoadError>(entries_view(strings@) + rest),
                Err(e) => total == Err::<Seq<(u64, Seq<u8>)>, LoadError>(e),
            },
        decreases count - i,
    {
        match decode_string_entry(source, pos, data) {
            Ok(d) => {
                let ghost old_view = entries_view(strings@);
                let ghost dv = (d.offset, d.content@);
                proof {
                    match spec_string_entries(source@, pos + 8, (count - i - 1) as nat, data as int) {
                        Ok(rest) => {
                            assert(old_view + (seq![dv] + rest) =~= old_view.push(dv) + rest);
                        },
                        Err(e) => {},
                    }
                }
                strings.push(d);
                assert(entries_view(strings@) =~= old_view.push(dv));
                pos = pos + 8;
                i = i + 1;
            },
            Err(e) => {
                return Err(e);
            },
        }
    }
    assert(entries_view(strings@) + Seq::<(u64, Seq<u8>)>::empty() =~= entries_view(strings@));
    Ok(StringTable { strings })
}

/// Entries that run past the end of the bytes give `IOError`: the first
/// entry past the end fails to fit, or an earlier entry's string fails first.
proof fn lemma_entries_past_end(s: Seq<u8>, p: int, n: nat, data: int)
    requires
        0 <= p,
        n > 0,
        p + 8 * n > s.len(),
    ensures
        spec_string_entries(s, p, n, data) is Err,
    decreases n,
{
    if fits(s, p, 8) {
        lemma_entries_past_end(s, p + 8, (n - 1) as nat, data);
    }
}

} // verus!
