//! Marker scanner: content-based discovery of the shared structure.
//!
//! The host has no symbols and no known load address for the guest binary,
//! so the only way to find the structure is a signature match over the
//! module's raw byte image. A pattern is a sequence of positions, each a
//! fixed byte or an "any byte" wildcard, matched by a plain linear scan.
use vstd::prelude::*;
use vstd::bytes::{spec_u64_to_le_bytes, spec_u64_to_le_bytes_open, spec_u64_to_le_bytes_to_open};
use crate::layout::GlobalBufferHost;
use crate::layout::MARKER;
use crate::wire::{spec_encode_global_buffer, LAYOUT_SIZE};

verus! {

/// Whether pattern position `j` is satisfied at haystack position `i + j`:
/// a wildcard always is, a fixed byte when the haystack byte equals it.
pub open spec fn pos_matches(hay: Seq<u8>, pat: Seq<Option<u8>>, i: int, j: int) -> bool {
    match pat[j] {
        Some(b) => hay[i + j] == b,
        None => true,
    }
}

/// Whether the pattern matches the haystack at position `i`: every fixed
/// position agrees and the whole pattern fits.
pub open spec fn pat_matches_at(hay: Seq<u8>, pat: Seq<Option<u8>>, i: int) -> bool {
    &&& 0 <= i
    &&& i + pat.len() <= hay.len()
    &&& forall|j: int| 0 <= j < pat.len() ==> #[trigger] pos_matches(hay, pat, i, j)
}

/// Whether the pattern matches the haystack exactly at `i`, checked by a
/// straight walk over the pattern.
fn matches_at(hay: &[u8], pat: &Vec<Option<u8>>, i: usize) -> (r: bool)
    requires
        i + pat@.len() <= hay@.len(),
    ensures
        r == pat_matches_at(hay@, pat@, i as int),
{
    let n = pat.len();
    let hay_len = hay.len();
    let mut j: usize = 0;
    while j < n
        invariant
            j <= n,
            n == pat@.len(),
            hay_len == hay@.len(),
            i + n <= hay_len,
            forall|k: int| 0 <= k < j ==> #[trigger] pos_matches(hay@, pat@, i as int, k),
        decreases n - j,
    {
        match pat[j] {
            Some(b) => {
                if hay[i + j] != b {
                    proof {
                        assert(!pos_matches(hay@, pat@, i as int, j as int));
                    }
                    return false;
                }
            },
            None => {},
        }
        j = j + 1;
    }
    proof {
        assert(pat_matches_at(hay@, pat@, i as int));
    }
    true
}

/// Scans the haystack for the pattern and returns the first match in scan
/// order, or nothing when no position matches.
pub fn scan(hay: &[u8], pat: &Vec<Option<u8>>) -> (r: Option<usize>)
    ensures
        match r {
            Some(i) => {
                &&& pat_matches_at(hay@, pat@, i as int)
                &&& forall|k: int| 0 <= k < i ==> !pat_matches_at(hay@, pat@, k)
            },
            None => forall|k: int| !pat_matches_at(hay@, pat@, k),
        },
{
    let n = pat.len();
    if n > hay.len() {
        return None;
    }
    if n == 0 {
        return Some(0);
    }
    let hay_len = hay.len();
    let last = hay_len - n;
    let mut i: usize = 0;
    while i <= last
        invariant
            n == pat@.len(),
            1 <= n <= hay_len,
            hay_len == hay@.len(),
            last == hay_len - n,
            i <= last + 1,
            forall|k: int| 0 <= k < i ==> !pat_matches_at(hay@, pat@, k),
        decreases last + 1 - i,
    {
        if matches_at(hay, pat, i) {
            return Some(i);
        }
        i = i + 1;
    }
    proof {
        assert forall|k: int| !pat_matches_at(hay@, pat@, k) by {
            if 0 <= k <= last {
                assert(!pat_matches_at(hay@, pat@, k));
            }
        }
    }
    None
}

/// The discovery signature: the eight marker bytes, then for each of the two
/// 64-bit dimension words four wildcard bytes followed by four zero bytes —
/// realistic resolutions fit in 32 bits, so the high halves of `width` and
/// `height` must be zero. The trailing-zero constraint sharply reduces false
/// positives compared with matching the marker alone.
pub open spec fn spec_resolution_pattern() -> Seq<Option<u8>> {
    seq![
        Some(0x0Du8),
        Some(0x0Eu8),
        Some(0x0Au8),
        Some(0x0Du8),
        Some(0x0Bu8),
        Some(0x0Au8),
        Some(0x0Bu8),
        Some(0x0Eu8),
        None,
        None,
        None,
        None,
        Some(0u8),
        Some(0u8),
        Some(0u8),
        Some(0u8),
        None,
        None,
        None,
        None,
        Some(0u8),
        Some(0u8),
        Some(0u8),
        Some(0u8),
    ]
}

/// Builds the discovery signature as a runtime pattern.
pub fn resolution_pattern() -> (p: Vec<Option<u8>>)
    ensures
        p@ == spec_resolution_pattern(),
{
    let mut p: Vec<Option<u8>> = Vec::new();
    p.push(Some(0x0D));
    p.push(Some(0x0E));
    p.push(Some(0x0A));
    p.push(Some(0x0D));
    p.push(Some(0x0B));
    p.push(Some(0x0A));
    p.push(Some(0x0B));
    p.push(Some(0x0E));
    let mut half: usize = 0;
    while half < 2
        invariant
            half <= 2,
            p@ == spec_resolution_pattern().subrange(0, 8 + 8 * half),
        decreases 2 - half,
    {
        p.push(None);
        p.push(None);
        p.push(None);
        p.push(None);
        p.push(Some(0));
        p.push(Some(0));
        p.push(Some(0));
        p.push(Some(0));
        proof {
            assert(p@ =~= spec_resolution_pattern().subrange(0, 8 + 8 * (half + 1)));
        }
        half = half + 1;
    }
    proof {
        assert(p@ =~= spec_resolution_pattern());
    }
    p
}

/// Wherever a well-formed shared structure's byte image sits inside a module
/// image, the discovery signature matches there: the marker bytes agree and
/// the high halves of both dimension words encode to zero whenever the
/// dimensions fit in 32 bits.
pub proof fn lemma_encoded_buffer_matches_pattern(
    g: GlobalBufferHost,
    hay: Seq<u8>,
    off: int,
)
    requires
        g.marker@ == MARKER@,
        g.width < 0x1_0000_0000,
        g.height < 0x1_0000_0000,
        0 <= off,
        off + LAYOUT_SIZE <= hay.len(),
        hay.subrange(off, off + LAYOUT_SIZE) == spec_encode_global_buffer(g),
    ensures
        pat_matches_at(hay, spec_resolution_pattern(), off),
{
    let s = spec_encode_global_buffer(g);
    let pat = spec_resolution_pattern();
    spec_u64_to_le_bytes_to_open(g.width);
    spec_u64_to_le_bytes_to_open(g.height);
    let w = g.width;
    assert((w >> 32) & 0xff == 0 && (w >> 40) & 0xff == 0 && (w >> 48) & 0xff == 0 && (w >> 56)
        & 0xff == 0) by (bit_vector)
        requires
            w < 0x1_0000_0000u64,
    ;
    let h = g.height;
    assert((h >> 32) & 0xff == 0 && (h >> 40) & 0xff == 0 && (h >> 48) & 0xff == 0 && (h >> 56)
        & 0xff == 0) by (bit_vector)
        requires
            h < 0x1_0000_0000u64,
    ;
    assert forall|j: int| 0 <= j < pat.len() implies #[trigger] pos_matches(hay, pat, off, j) by {
        assert(hay[off + j] == hay.subrange(off, off + LAYOUT_SIZE)[j]);
        assert(hay.subrange(off, off + LAYOUT_SIZE)[j] == s[j]);
        if j < 8 {
            assert(s[j] == g.marker@[j]);
        } else if 8 <= j < 16 {
            assert(s[j] == spec_u64_to_le_bytes(g.width)[j - 8]);
        } else if 16 <= j < 24 {
            assert(s[j] == spec_u64_to_le_bytes(g.height)[j - 16]);
        }
    }
}

} // verus!
