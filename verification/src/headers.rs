//! The header validator: DOS and NT signatures, the PE32+ magic, the export
//! directory entry and the section table.

use vstd::prelude::*;

use crate::bytes::{read_u16, read_u32, u16_le, u32_le};
use crate::error::PeError;
use crate::sections::Section;

verus! {

/// What the header validator establishes: the section table in file order
/// and the export directory's RVA and size, both known non-zero.
pub struct Headers {
    /// The section descriptors, in the order the section table lists them.
    pub sections: Vec<Section>,
    /// The RVA of the export directory, from data-directory entry 0.
    pub export_rva: u32,
    /// The size in bytes of the export directory span.
    pub export_size: u32,
}

/// The mathematical content of `Headers`.
pub struct SpecHeaders {
    /// The section descriptors, in table order.
    pub sections: Seq<Section>,
    /// The RVA of the export directory.
    pub export_rva: u32,
    /// The size in bytes of the export directory span.
    pub export_size: u32,
}

impl View for Headers {
    type V = SpecHeaders;

    open spec fn view(&self) -> SpecHeaders {
        SpecHeaders {
            sections: self.sections@,
            export_rva: self.export_rva,
            export_size: self.export_size,
        }
    }
}

/// The section descriptor whose 40-byte record starts at byte offset `off`:
/// its virtual address, virtual size and raw-data pointer sit at relative
/// offsets `0x0C`, `0x10` and `0x14`.
pub open spec fn section_at(d: Seq<u8>, off: int) -> Section {
    Section {
        virtual_address: u32_le(d, off + 0x0C) as u32,
        virtual_size: u32_le(d, off + 0x10) as u32,
        file_pointer: u32_le(d, off + 0x14) as u32,
    }
}

/// The `n`-entry section table whose first record starts at `base`.
pub open spec fn spec_section_table(d: Seq<u8>, base: int, n: int) -> Seq<Section> {
    Seq::new(n as nat, |i: int| section_at(d, base + 40 * i))
}

/// Everything the header validator checks, in order, each failure with its
/// own error: the MZ signature, the PE signature at `e_lfanew`, a non-zero
/// optional-header size, the PE32+ magic `0x020B`, a non-zero export
/// directory entry, and a section table that lies within the image. A read
/// past the end of the image is `IoError`.
pub open spec fn spec_validate(d: Seq<u8>) -> Result<SpecHeaders, PeError> {
    if d.len() < 2 || d[0] != 0x4D || d[1] != 0x5A {
        Err(PeError::InvalidDosHeader)
    } else if d.len() < 0x40 {
        Err(PeError::IoError)
    } else {
        let nt = u32_le(d, 0x3C);
        if nt + 2 > d.len() {
            Err(PeError::IoError)
        } else if d[nt] != 0x50 || d[nt + 1] != 0x45 {
            Err(PeError::InvalidNtHeader)
        } else if nt + 0x16 > d.len() {
            Err(PeError::IoError)
        } else {
            let number_of_sections = u16_le(d, nt + 0x06);
            let size_of_optional_header = u16_le(d, nt + 0x14);
            if size_of_optional_header == 0 {
                Err(PeError::MissingOptionalHeader)
            } else if nt + 0x1A > d.len() {
                Err(PeError::IoError)
            } else if d[nt + 0x18] != 0x0B || d[nt + 0x19] != 0x02 {
                Err(PeError::UnsupportedImageFormat)
            } else if nt + 0x90 > d.len() {
                Err(PeError::IoError)
            } else {
                let export_rva = u32_le(d, nt + 0x88);
                let export_size = u32_le(d, nt + 0x8C);
                if export_rva == 0 || export_size == 0 {
                    Err(PeError::NoExportTable)
                } else {
                    let table_base = nt + 0x18 + size_of_optional_header;
                    if table_base + 40 * number_of_sections > d.len() {
                        Err(PeError::IoError)
                    } else {
                        Ok(
                            SpecHeaders {
                                sections: spec_section_table(d, table_base, number_of_sections),
                                export_rva: export_rva as u32,
                                export_size: export_size as u32,
                            },
                        )
                    }
                }
            }
        }
    }
}

/// Reads the `n` 40-byte section records that start at `base`.
fn parse_section_table(d: &Vec<u8>, base: usize, n: usize) -> (r: Vec<Section>)
    requires
        base + 40 * n <= d@.len(),
    ensures
        r@ == spec_section_table(d@, base as int, n as int),
{
    let mut r: Vec<Section> = Vec::new();
    let mut i: usize = 0;
    proof {
        assert(d@.len() == d.len());
        assert(r@ =~= spec_section_table(d@, base as int, 0));
    }
    while i < n
        invariant
            i <= n,
            base + 40 * n <= d@.len(),
            d@.len() <= usize::MAX,
            r@ == spec_section_table(d@, base as int, i as int),
        decreases n - i,
    {
        let off = base + 40 * i;
        let s = Section {
            virtual_address: read_u32(d, off + 0x0C),
            virtual_size: read_u32(d, off + 0x10),
            file_pointer: read_u32(d, off + 0x14),
        };
        r.push(s);
        proof {
            assert(r@ =~= spec_section_table(d@, base as int, i + 1));
        }
        i = i + 1;
    }
    r
}

/// Validates the DOS and NT headers of the image and extracts the section
/// table and the export directory entry, exactly as `spec_validate` states.
pub fn validate_headers(data: &Vec<u8>) -> (r: Result<Headers, PeError>)
    ensures
        match r {
            Ok(h) => spec_validate(data@) == Ok::<SpecHeaders, PeError>(h@),
            Err(e) => spec_validate(data@) == Err::<SpecHeaders, PeError>(e),
        },
{
    let file_len: u64 = data.len() as u64;
    if data.len() < 2 || data[0] != 0x4D || data[1] != 0x5A {
        return Err(PeError::InvalidDosHeader);
    }
    if data.len() < 0x40 {
        return Err(PeError::IoError);
    }
    let nt32 = read_u32(data, 0x3C);
    if nt32 as u64 + 2 > file_len {
        return Err(PeError::IoError);
    }
    let nt = nt32 as usize;
    if data[nt] != 0x50 || data[nt + 1] != 0x45 {
        return Err(PeError::InvalidNtHeader);
    }
    if nt32 as u64 + 0x16 > file_len {
        return Err(PeError::IoError);
    }
    let number_of_sections = read_u16(data, nt + 0x06);
    let size_of_optional_header = read_u16(data, nt + 0x14);
    if size_of_optional_header == 0 {
        return Err(PeError::MissingOptionalHeader);
    }
    if nt32 as u64 + 0x1A > file_len {
        return Err(PeError::IoError);
    }
    if data[nt + 0x18] != 0x0B || data[nt + 0x19] != 0x02 {
        return Err(PeError::UnsupportedImageFormat);
    }
    if nt32 as u64 + 0x90 > file_len {
        return Err(PeError::IoError);
    }
    let export_rva = read_u32(data, nt + 0x88);
    let export_size = read_u32(data, nt + 0x8C);
    if export_rva == 0 || export_size == 0 {
        return Err(PeError::NoExportTable);
    }
    let table_base64: u64 = nt32 as u64 + 0x18 + size_of_optional_header as u64;
    if table_base64 + 40 * (number_of_sections as u64) > file_len {
        return Err(PeError::IoError);
    }
    let sections = parse_section_table(
        data,
        table_base64 as usize,
        number_of_sections as usize,
    );
    Ok(
        Headers {
            sections,
            export_rva,
            export_size,
        },
    )
}

} // verus!
