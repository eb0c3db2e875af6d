//! Why a `.hive` file could not be loaded.
use vstd::prelude::*;

verus! {

/// A defect in the bytes of a `.hive` file.
///
/// `IOError` means that the bytes ended before a structure that the file
/// promised was complete.
#[derive(Debug, Clone, PartialEq, Eq, Structural)]
pub enum LoadError {
    InvalidMagic,
    InvalidHeaderSize(u16),
    InvalidVersion(u16),
    InvalidFileType(u16),
    InvalidSectionType(u32),
    InvalidSymbolType(u16),
    InvalidSymbolBindings(u16),
    IOError,
    TryFromSliceError,
    UTF8Error,
    BadFlags,
    ReservedBytesNotNull,
    BadAlignment,
    BadNullString,
}

} // verus!
