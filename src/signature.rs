use vstd::prelude::*;
use crate::memory::{ProcessMemory, read_region, read_spec, read_u32, read_u32_spec, address_span};

verus! {

/// `pat` matches `hay` at position `i`: the window fits and every non-wildcard byte is equal.
pub open spec fn matches_at(pat: Seq<Option<u8>>, hay: Seq<u8>, i: int) -> bool {
    &&& 0 <= i
    &&& i + pat.len() <= hay.len()
    &&& forall|j: int|
        0 <= j < pat.len() ==> match #[trigger] pat[j] {
            Some(b) => hay[i + j] == b,
            None => true,
        }
}

/// The first position at or after `i` where `pat` matches `hay`.
pub open spec fn first_match_from(pat: Seq<Option<u8>>, hay: Seq<u8>, i: int) -> Option<int>
    decreases hay.len() - i,
{
    if i < 0 || i + pat.len() > hay.len() {
        None
    } else if matches_at(pat, hay, i) {
        Some(i)
    } else {
        first_match_from(pat, hay, i + 1)
    }
}

pub open spec fn first_match(pat: Seq<Option<u8>>, hay: Seq<u8>) -> Option<int> {
    first_match_from(pat, hay, 0)
}

/// Where a scan of `[base, base + size)` finds `pat`: `None` when the region cannot be read.
pub open spec fn scan_region_spec<M: ProcessMemory>(
    m: &M,
    pat: Seq<Option<u8>>,
    base: int,
    size: int,
) -> Option<int> {
    match read_spec(m, base, size) {
        Some(hay) => match first_match(pat, hay) {
            Some(i) => Some(base + i),
            None => None,
        },
        None => None,
    }
}

/// A first match is a match, and no earlier position matches.
pub proof fn lemma_first_match_is_first(pat: Seq<Option<u8>>, hay: Seq<u8>, i: int)
    requires
        0 <= i,
    ensures
        match first_match_from(pat, hay, i) {
            Some(k) => i <= k && matches_at(pat, hay, k) && forall|j: int|
                i <= j < k ==> !matches_at(pat, hay, j),
            None => forall|j: int| i <= j ==> !matches_at(pat, hay, j),
        },
    decreases hay.len() - i,
{
    if i + pat.len() > hay.len() {
    } else if matches_at(pat, hay, i) {
    } else {
        lemma_first_match_is_first(pat, hay, i + 1);
    }
}

/// A byte pattern in which `None` is a wildcard.
pub struct Signature {
    pattern: Vec<Option<u8>>,
}

impl View for Signature {
    type V = Seq<Option<u8>>;

    closed spec fn view(&self) -> Seq<Option<u8>> {
        self.pattern@
    }
}

impl Signature {
    pub fn new(pattern: Vec<Option<u8>>) -> (r: Self)
        ensures
            r@ == pattern@,
    {
        Signature { pattern }
    }

    /// Whether the pattern matches `hay` at `i`.
    pub fn matches_at(&self, hay: &[u8], i: usize) -> (r: bool)
        ensures
            r == matches_at(self@, hay@, i as int),
    {
        let plen = self.pattern.len();
        let hlen = hay.len();
        if i > hlen || hlen - i < plen {
            return false;
        }
        let mut j: usize = 0;
        while j < plen
            invariant
                plen == self@.len(),
                hlen == hay@.len(),
                i + plen <= hay@.len(),
                j <= plen,
                forall|k: int|
                    0 <= k < j ==> match #[trigger] self@[k] {
                        Some(b) => hay@[i + k] == b,
                        None => true,
                    },
            decreases plen - j,
        {
            match self.pattern[j] {
                Some(b) => {
                    if hay[i + j] != b {
                        return false;
                    }
                },
                None => {},
            }
            j = j + 1;
        }
        true
    }

    /// The first position in `hay` where the pattern matches.
    pub fn scan(&self, hay: &[u8]) -> (r: Option<usize>)
        ensures
            match first_match(self@, hay@) {
                Some(i) => r == Some(i as usize),
                None => r is None,
            },
    {
        let plen = self.pattern.len();
        let hlen = hay.len();
        if plen > hlen {
            return None;
        }
        let mut i: usize = 0;
        while i <= hlen - plen
            invariant
                plen == self@.len(),
                hlen == hay@.len(),
                plen <= hlen,
                i <= hlen - plen + 1,
                first_match_from(self@, hay@, 0) == first_match_from(self@, hay@, i as int),
            decreases hlen - plen + 1 - i,
        {
            if self.matches_at(hay, i) {
                return Some(i);
            }
            i = i + 1;
        }
        None
    }

    /// Scans the readable region `[base, base + size)` of `m`; an unreadable region has no match.
    pub fn scan_region<M: ProcessMemory>(&self, m: &M, base: u64, size: usize) -> (r: Option<u64>)
        ensures
            match scan_region_spec(m, self@, base as int, size as int) {
                Some(a) => 0 <= a < address_span() && r == Some(a as u64),
                None => r is None,
            },
    {
        match read_region(m, base, size) {
            Some(hay) => {
                match self.scan(hay.as_slice()) {
                    Some(i) => {
                        proof {
                            lemma_first_match_is_first(self@, hay@, 0);
                        }
                        Some(base + i as u64)
                    },
                    None => None,
                }
            },
            None => None,
        }
    }
}

/// The address that a relative displacement found near a match leads to.
///
/// A signed 32-bit little-endian displacement is read at `at + disp_offset`; the target is
/// `at + anchor + displacement`. A null or out-of-range target is no target.
pub open spec fn relative_target<M: ProcessMemory>(
    m: &M,
    at: int,
    disp_offset: int,
    anchor: int,
) -> Option<u64> {
    match read_u32_spec(m, at + disp_offset) {
        Some(d) => {
            let t = at + anchor + (d as i32) as int;
            if 0 < t < address_span() {
                Some(t as u64)
            } else {
                None
            }
        },
        None => None,
    }
}

/// Reads the displacement near a match and computes the address it designates.
pub fn resolve_relative<M: ProcessMemory>(m: &M, at: u64, disp_offset: u64, anchor: u64) -> (r:
    Option<u64>)
    ensures
        at + disp_offset < address_span() ==> r == relative_target(
            m,
            at as int,
            disp_offset as int,
            anchor as int,
        ),
        at + disp_offset >= address_span() ==> r is None,
{
    if u64::MAX - at < disp_offset {
        return None;
    }
    match read_u32(m, at + disp_offset) {
        Some(d) => {
            let t: i128 = at as i128 + anchor as i128 + (d as i32) as i128;
            if 0 < t && t <= u64::MAX as i128 {
                Some(t as u64)
            } else {
                None
            }
        },
        None => None,
    }
}

} // verus!
