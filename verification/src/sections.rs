//! The address translator: sections and RVA-to-FOA translation.

use vstd::prelude::*;

verus! {

/// One section of the image, reduced to the three fields the translation
/// needs, in the order the section table lists them.
#[derive(Clone, Copy, Debug, PartialEq, Eq, Structural)]
pub struct Section {
    /// The RVA at which the section begins when the image is loaded.
    pub virtual_address: u32,
    /// The section's extent in virtual memory.
    pub virtual_size: u32,
    /// The file offset of the section's raw bytes.
    pub file_pointer: u32,
}

/// Whether `rva` falls in `s`: `virtual_address <= rva <= virtual_address +
/// virtual_size`, over the unbounded integers.
pub open spec fn section_contains(s: Section, rva: u32) -> bool {
    s.virtual_address <= rva <= s.virtual_address + s.virtual_size
}

/// The file offset `rva` maps to inside `s`.
pub open spec fn section_foa(s: Section, rva: u32) -> int {
    s.file_pointer + rva - s.virtual_address
}

/// Translation of `rva` through `sections` in table order: the file offset
/// given by the first section that contains `rva`, or `None` when no section
/// does.
pub open spec fn spec_rva_to_foa(sections: Seq<Section>, rva: u32) -> Option<u64>
    decreases sections.len(),
{
    if sections.len() == 0 {
        None
    } else if section_contains(sections[0], rva) {
        Some(section_foa(sections[0], rva) as u64)
    } else {
        spec_rva_to_foa(sections.drop_first(), rva)
    }
}

/// Translation fails exactly when no section contains the RVA; when it
/// succeeds the offset is the one of the first containing section.
pub proof fn lemma_rva_to_foa_characterized(sections: Seq<Section>, rva: u32)
    ensures
        spec_rva_to_foa(sections, rva) is None <==> (forall|i: int|
            0 <= i < sections.len() ==> !section_contains(sections[i], rva)),
        spec_rva_to_foa(sections, rva) matches Some(foa) ==> (exists|i: int|
            0 <= i < sections.len() && section_contains(sections[i], rva)
                && foa == section_foa(sections[i], rva) && (forall|j: int|
                0 <= j < i ==> !section_contains(sections[j], rva))),
    decreases sections.len(),
{
    if sections.len() > 0 {
        lemma_rva_to_foa_characterized(sections.drop_first(), rva);
        assert(forall|j: int|
            1 <= j < sections.len() ==> sections[j] == sections.drop_first()[j - 1]);
        if !section_contains(sections[0], rva) {
            match spec_rva_to_foa(sections, rva) {
                None => {},
                Some(foa) => {
                    let i = choose|i: int|
                        0 <= i < sections.drop_first().len()
                            && section_contains(sections.drop_first()[i], rva)
                            && foa == section_foa(sections.drop_first()[i], rva) && (forall|j: int|
                            0 <= j < i ==> !section_contains(sections.drop_first()[j], rva));
                    assert(sections[i + 1] == sections.drop_first()[i]);
                    assert(forall|j: int| 0 <= j < i + 1 ==> !section_contains(sections[j], rva))
                        by {
                        assert(forall|j: int|
                            1 <= j < i + 1 ==> sections[j] == sections.drop_first()[j - 1]);
                    }
                },
            }
        }
    }
}

/// Maps an RVA to a file offset by a linear scan of the section table,
/// returning `None` when no section contains it. The first containing
/// section, in table order, decides the offset.
pub fn rva2foa(rva: u32, sections: &Vec<Section>) -> (r: Option<u64>)
    ensures
        r == spec_rva_to_foa(sections@, rva),
{
    let n = sections.len();
    proof {
        assert(sections@.skip(0) =~= sections@);
    }
    for i in 0..n
        invariant
            n == sections@.len(),
            spec_rva_to_foa(sections@, rva) == spec_rva_to_foa(sections@.skip(i as int), rva),
    {
        let s = sections[i];
        proof {
            assert(sections@.skip(i as int)[0] == sections@[i as int]);
            assert(sections@.skip(i as int).drop_first() =~= sections@.skip(i + 1));
        }
        if rva >= s.virtual_address && rva - s.virtual_address <= s.virtual_size {
            let off: u64 = s.file_pointer as u64 + (rva - s.virtual_address) as u64;
            return Some(off);
        }
    }
    proof {
        assert(sections@.skip(n as int) =~= Seq::<Section>::empty());
    }
    None
}

} // verus!
