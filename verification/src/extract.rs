//! The whole pipeline: header validation, export directory reading and name
//! decoding, composed over an in-memory image.

use vstd::prelude::*;

use crate::error::PeError;
use crate::export_dir::read_export_directory;
use crate::export_dir::spec_read_export;
use crate::headers::spec_validate;
use crate::headers::validate_headers;
use crate::names::decode_name_table;
use crate::names::lemma_decode_names_count;
use crate::names::lemma_decode_names_no_nul;
use crate::names::names_view;
use crate::names::spec_decode_names;
use crate::sections::spec_rva_to_foa;

verus! {

/// What extraction returns for an image `d`: the ordered sequence of export
/// names when every stage succeeds, and the first stage's error otherwise.
pub open spec fn spec_extract(d: Seq<u8>) -> Result<Seq<Seq<char>>, PeError> {
    match spec_validate(d) {
        Err(e) => Err(e),
        Ok(h) => match spec_read_export(d, h) {
            Err(e) => Err(e),
            Ok(x) => match spec_decode_names(x.bytes, x.names_offset, x.count) {
                None => Err(PeError::TruncatedNameTable),
                Some(names) => Ok(names),
            },
        },
    }
}

/// Extracts the export names of the PE32+ image held in `data`, in table
/// order, or the error of the first stage that fails. The outcome is
/// exactly `spec_extract(data@)`; decoding is all-or-nothing, so no partial
/// name list is ever returned.
pub fn extract_export_names(data: &Vec<u8>) -> (r: Result<Vec<String>, PeError>)
    ensures
        match r {
            Ok(names) => spec_extract(data@) == Ok::<Seq<Seq<char>>, PeError>(names_view(names@)),
            Err(e) => spec_extract(data@) == Err::<Seq<Seq<char>>, PeError>(e),
        },
{
    let h = match validate_headers(data) {
        Err(e) => {
            return Err(e);
        },
        Ok(h) => h,
    };
    let x = match read_export_directory(data, &h) {
        Err(e) => {
            return Err(e);
        },
        Ok(x) => x,
    };
    match decode_name_table(&x.bytes, x.names_offset as usize, x.number_of_names) {
        Err(e) => Err(e),
        Ok(names) => Ok(names),
    }
}

/// Extraction is a function of the image bytes alone: two runs over the
/// same unmodified bytes yield the same outcome.
pub proof fn lemma_extract_deterministic(d1: Seq<u8>, d2: Seq<u8>)
    requires
        d1 == d2,
    ensures
        spec_extract(d1) == spec_extract(d2),
{
}

/// On any image the pipeline accepts, the name list holds exactly as many
/// strings as the export directory's `number_of_names` field advertises, in
/// table order, and none of them contains a NUL character.
pub proof fn lemma_extract_shape(d: Seq<u8>)
    requires
        spec_extract(d) is Ok,
    ensures
        spec_extract(d)->Ok_0.len() == spec_read_export(d, spec_validate(d)->Ok_0)->Ok_0.count,
        forall|i: int|
            0 <= i < spec_extract(d)->Ok_0.len() ==> !spec_extract(d)->Ok_0[i].contains('\0'),
{
    let x = spec_read_export(d, spec_validate(d)->Ok_0)->Ok_0;
    lemma_decode_names_count(x.bytes, x.names_offset, x.count);
    lemma_decode_names_no_nul(x.bytes, x.names_offset, x.count);
}

/// On any image the pipeline accepts, every RVA the pipeline itself uses —
/// the export directory's and the name table's — translates successfully
/// through the section table.
pub proof fn lemma_accepted_image_translates(d: Seq<u8>)
    requires
        spec_extract(d) is Ok,
    ensures
        spec_validate(d) is Ok,
        spec_rva_to_foa(spec_validate(d)->Ok_0.sections, spec_validate(d)->Ok_0.export_rva)
            is Some,
        spec_read_export(d, spec_validate(d)->Ok_0) is Ok,
{
}

} // verus!
