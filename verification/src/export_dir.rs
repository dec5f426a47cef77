//! The export directory reader: locating and buffering the export span and
//! finding the name table inside it.

use vstd::prelude::*;

use crate::bytes::{copy_range, read_u32, u32_le};
use crate::error::PeError;
use crate::headers::SpecHeaders;
use crate::headers::Headers;
use crate::sections::spec_rva_to_foa;

verus! {

/// The buffered export directory span with the name table located inside it.
pub struct ExportDir {
    /// The `export_size` bytes that start at the export directory's FOA.
    pub bytes: Vec<u8>,
    /// Where the name table starts, relative to `bytes`.
    pub names_offset: u32,
    /// How many names the directory advertises.
    pub number_of_names: u32,
}

/// The mathematical content of `ExportDir`.
pub struct SpecExportDir {
    /// The buffered export directory bytes.
    pub bytes: Seq<u8>,
    /// Where the name table starts, relative to `bytes`.
    pub names_offset: int,
    /// How many names the directory advertises.
    pub count: int,
}

impl View for ExportDir {
    type V = SpecExportDir;

    open spec fn view(&self) -> SpecExportDir {
        SpecExportDir {
            bytes: self.bytes@,
            names_offset: self.names_offset as int,
            count: self.number_of_names as int,
        }
    }
}

/// How the export directory span is found and read: the export RVA is
/// translated (failure is `RvaTranslationFailed`), exactly `export_size`
/// bytes are taken at the resulting offset (`IoError` past the end of the
/// image, `TruncatedNameTable` when the span cannot hold the fields at
/// `0x0C` and `0x18`), the name-table RVA at `0x0C` is translated the same
/// way, and its offset relative to the buffered span must lie within that
/// span before any byte of it is touched.
pub open spec fn spec_read_export(d: Seq<u8>, h: SpecHeaders) -> Result<SpecExportDir, PeError> {
    match spec_rva_to_foa(h.sections, h.export_rva) {
        None => Err(PeError::RvaTranslationFailed),
        Some(export_foa) => {
            if export_foa + h.export_size > d.len() {
                Err(PeError::IoError)
            } else if h.export_size < 0x1C {
                Err(PeError::TruncatedNameTable)
            } else {
                let dir = d.subrange(export_foa as int, export_foa + h.export_size);
                let names_rva = u32_le(dir, 0x0C);
                let count = u32_le(dir, 0x18);
                match spec_rva_to_foa(h.sections, names_rva as u32) {
                    None => Err(PeError::RvaTranslationFailed),
                    Some(names_foa) => {
                        if names_foa < export_foa || names_foa - export_foa > h.export_size {
                            Err(PeError::TruncatedNameTable)
                        } else {
                            Ok(
                                SpecExportDir {
                                    bytes: dir,
                                    names_offset: names_foa - export_foa,
                                    count: count,
                                },
                            )
                        }
                    },
                }
            }
        },
    }
}

/// Buffers the export directory span named by the validated headers and
/// locates the name table inside it, exactly as `spec_read_export` states.
pub fn read_export_directory(data: &Vec<u8>, h: &Headers) -> (r: Result<ExportDir, PeError>)
    ensures
        match r {
            Ok(x) => spec_read_export(data@, h@) == Ok::<SpecExportDir, PeError>(x@),
            Err(e) => spec_read_export(data@, h@) == Err::<SpecExportDir, PeError>(e),
        },
{
    proof {
        assert(data@.len() == data.len());
    }
    let export_foa = match crate::sections::rva2foa(h.export_rva, &h.sections) {
        None => {
            return Err(PeError::RvaTranslationFailed);
        },
        Some(f) => f,
    };
    proof {
        crate::sections::lemma_rva_to_foa_characterized(h@.sections, h.export_rva);
    }
    if export_foa + h.export_size as u64 > data.len() as u64 {
        return Err(PeError::IoError);
    }
    if h.export_size < 0x1C {
        return Err(PeError::TruncatedNameTable);
    }
    let dir = copy_range(data, export_foa as usize, h.export_size as usize);
    let names_rva = read_u32(&dir, 0x0C);
    let count = read_u32(&dir, 0x18);
    let names_foa = match crate::sections::rva2foa(names_rva, &h.sections) {
        None => {
            return Err(PeError::RvaTranslationFailed);
        },
        Some(f) => f,
    };
    if names_foa < export_foa || names_foa - export_foa > h.export_size as u64 {
        return Err(PeError::TruncatedNameTable);
    }
    Ok(
        ExportDir {
            bytes: dir,
            names_offset: (names_foa - export_foa) as u32,
            number_of_names: count,
        },
    )
}

} // verus!
