//! The name table decoder: back-to-back NUL-terminated ASCII strings.

use vstd::prelude::*;

use crate::error::PeError;

verus! {

/// Relies on `String::push`: appends the given `char` to the end of the
/// string, so the new view is the old view with that character appended.
pub assume_specification[ String::push ](s: &mut String, ch: char)
    ensures
        final(s)@ == old(s)@.push(ch),
;

/// Each byte read as one character (a single code point, not UTF-8 decoded).
pub open spec fn bytes_to_chars(s: Seq<u8>) -> Seq<char> {
    s.map_values(|b: u8| b as char)
}

/// The position of the first NUL byte at or after `pos`, if any.
pub open spec fn find_nul(d: Seq<u8>, pos: int) -> Option<int>
    decreases d.len() - pos,
{
    if pos < 0 || pos >= d.len() {
        None
    } else if d[pos] == 0 {
        Some(pos)
    } else {
        find_nul(d, pos + 1)
    }
}

/// What `find_nul` returns: the first NUL at or after `pos`, or `None` when
/// no byte up to the end of the run is NUL.
pub proof fn lemma_find_nul(d: Seq<u8>, pos: int)
    ensures
        find_nul(d, pos) matches Some(n) ==> pos <= n < d.len() && d[n] == 0 && (forall|p: int|
            pos <= p < n ==> d[p] != 0),
        find_nul(d, pos) is None && 0 <= pos ==> (forall|p: int|
            pos <= p < d.len() ==> d[p] != 0),
    decreases d.len() - pos,
{
    if 0 <= pos < d.len() && d[pos] != 0 {
        lemma_find_nul(d, pos + 1);
    }
}

/// Decoding of `count` NUL-terminated names from `d`, starting at `pos`:
/// the bytes before each NUL become one name, the scan resumes past the NUL,
/// and the whole decode fails when the run is exhausted before a NUL.
pub open spec fn spec_decode_names(d: Seq<u8>, pos: int, count: int) -> Option<Seq<Seq<char>>>
    decreases count,
{
    if count <= 0 {
        Some(Seq::empty())
    } else {
        match find_nul(d, pos) {
            None => None,
            Some(nul) => match spec_decode_names(d, nul + 1, count - 1) {
                None => None,
                Some(rest) => Some(seq![bytes_to_chars(d.subrange(pos, nul))] + rest),
            },
        }
    }
}

/// The views of a vector of decoded names.
pub open spec fn names_view(names: Seq<String>) -> Seq<Seq<char>> {
    names.map_values(|s: String| s@)
}

/// `decoded` completed by a decode of the remaining names, when that succeeds.
pub open spec fn prepend_names(decoded: Seq<Seq<char>>, rest: Option<Seq<Seq<char>>>) -> Option<
    Seq<Seq<char>>,
> {
    match rest {
        None => None,
        Some(r) => Some(decoded + r),
    }
}

/// A successful decode yields exactly `count` names.
pub proof fn lemma_decode_names_count(d: Seq<u8>, pos: int, count: int)
    requires
        count >= 0,
    ensures
        spec_decode_names(d, pos, count) matches Some(names) ==> names.len() == count,
    decreases count,
{
    if count > 0 {
        match find_nul(d, pos) {
            None => {},
            Some(nul) => {
                lemma_decode_names_count(d, nul + 1, count - 1);
            },
        }
    }
}

/// No decoded name contains a NUL character: each name stops at the first
/// NUL byte of its run.
pub proof fn lemma_decode_names_no_nul(d: Seq<u8>, pos: int, count: int)
    requires
        count >= 0,
    ensures
        spec_decode_names(d, pos, count) matches Some(names) ==> (forall|i: int|
            0 <= i < names.len() ==> !names[i].contains('\0')),
    decreases count,
{
    if count > 0 {
        match find_nul(d, pos) {
            None => {},
            Some(nul) => {
                lemma_find_nul(d, pos);
                lemma_decode_names_no_nul(d, nul + 1, count - 1);
                match spec_decode_names(d, nul + 1, count - 1) {
                    None => {},
                    Some(rest) => {
                        let head = bytes_to_chars(d.subrange(pos, nul));
                        assert(!head.contains('\0')) by {
                            assert(forall|j: int| 0 <= j < head.len() ==> head[j] != '\0') by {
                                assert(forall|j: int|
                                    0 <= j < head.len() ==> #[trigger] head[j] == d[pos + j] as char);
                            }
                        }
                        let names = seq![head] + rest;
                        assert(forall|i: int|
                            1 <= i < names.len() ==> names[i] == rest[i - 1]);
                    },
                }
            },
        }
    }
}

/// A successful decode of at least one name consumes at least one byte per
/// name: a `count` larger than the bytes that remain cannot decode.
pub proof fn lemma_decode_needs_bytes(d: Seq<u8>, pos: int, count: int)
    requires
        count >= 1,
    ensures
        spec_decode_names(d, pos, count) is Some ==> pos + count <= d.len(),
    decreases count,
{
    match find_nul(d, pos) {
        None => {},
        Some(nul) => {
            lemma_find_nul(d, pos);
            if count > 1 {
                lemma_decode_needs_bytes(d, nul + 1, count - 1);
            }
        },
    }
}

/// Walks `count` back-to-back NUL-terminated names starting at `start`,
/// reading each byte as one character. Buffer exhaustion before a NUL is a
/// hard error, never a silent stop or an out-of-bounds read.
pub fn decode_name_table(d: &Vec<u8>, start: usize, count: u32) -> (r: Result<
    Vec<String>,
    PeError,
>)
    ensures
        match r {
            Ok(names) => spec_decode_names(d@, start as int, count as int) == Some(
                names_view(names@),
            ),
            Err(e) => e == PeError::TruncatedNameTable && spec_decode_names(
                d@,
                start as int,
                count as int,
            ) is None,
        },
{
    if count == 0 {
        let names: Vec<String> = Vec::new();
        proof {
            assert(names_view(names@) =~= Seq::<Seq<char>>::empty());
        }
        return Ok(names);
    }
    if start >= d.len() {
        return Err(PeError::TruncatedNameTable);
    }
    let mut names: Vec<String> = Vec::new();
    let mut pos = start;
    let mut k: u32 = 0;
    proof {
        assert(names_view(names@) =~= Seq::<Seq<char>>::empty());
        assert(names_view(names@) + spec_decode_names(d@, pos as int, count as int)->Some_0
            =~= spec_decode_names(d@, pos as int, count as int)->Some_0);
    }
    while k < count
        invariant
            k <= count,
            names@.len() == k,
            pos <= d@.len(),
            spec_decode_names(d@, start as int, count as int) == prepend_names(
                names_view(names@),
                spec_decode_names(d@, pos as int, (count - k) as int),
            ),
        decreases count - k,
    {
        let ghost pos0 = pos as int;
        let mut name = String::new();
        while pos < d.len() && d[pos] != 0
            invariant
                0 <= pos0 <= pos <= d@.len(),
                find_nul(d@, pos0) == find_nul(d@, pos as int),
                name@ == bytes_to_chars(d@.subrange(pos0, pos as int)),
            decreases d@.len() - pos,
        {
            let b = d[pos];
            name.push(b as char);
            proof {
                let s1 = d@.subrange(pos0, pos as int);
                let s2 = d@.subrange(pos0, pos as int + 1);
                assert(s2 =~= s1.push(d@[pos as int]));
                assert(bytes_to_chars(s2) =~= bytes_to_chars(s1).push(d@[pos as int] as char));
                assert(find_nul(d@, pos as int) == find_nul(d@, pos as int + 1));
            }
            pos = pos + 1;
        }
        if pos == d.len() {
            proof {
                assert(find_nul(d@, pos as int) is None);
                assert(spec_decode_names(d@, pos0, (count - k) as int) is None);
            }
            return Err(PeError::TruncatedNameTable);
        }
        proof {
            assert(find_nul(d@, pos as int) == Some(pos as int));
            let m = (count - k) as int;
            let rest = spec_decode_names(d@, pos as int + 1, m - 1);
            assert(spec_decode_names(d@, pos0, m) == prepend_names(seq![name@], rest));
            match rest {
                None => {},
                Some(r) => {
                    assert(names_view(names@.push(name)) =~= names_view(names@) + seq![name@]);
                    assert((names_view(names@) + seq![name@]) + r =~= names_view(names@) + (
                    seq![name@] + r));
                },
            }
        }
        names.push(name);
        k = k + 1;
        pos = pos + 1;
    }
    proof {
        assert(spec_decode_names(d@, pos as int, 0) == Some(Seq::<Seq<char>>::empty()));
        assert(names_view(names@) + Seq::<Seq<char>>::empty() =~= names_view(names@));
    }
    Ok(names)
}

} // verus!
