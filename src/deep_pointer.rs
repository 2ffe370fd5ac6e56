use vstd::prelude::*;
use crate::memory::{
    ProcessMemory, address_span, le_u16, read_region, read_spec, read_u8, read_u8_spec, read_u32,
    read_u32_spec, read_u64, read_u64_spec,
};

verus! {

/// The address reached after `k` dereferences: the base, then for each hop the pointer
/// read at the previous address plus that hop's offset.
pub open spec fn hop<M: ProcessMemory>(m: &M, base: u64, offsets: Seq<u64>, k: nat) -> Option<u64>
    decreases k,
{
    if k == 0 {
        Some(base)
    } else {
        match hop(m, base, offsets, (k - 1) as nat) {
            Some(a) => if a + offsets[k - 1] < address_span() {
                read_u64_spec(m, a + offsets[k - 1])
            } else {
                None
            },
            None => None,
        }
    }
}

/// The address of the final value: every offset but the last is dereferenced, the last is
/// only added. `None` when any link of the chain is broken.
pub open spec fn chain_address<M: ProcessMemory>(m: &M, base: u64, offsets: Seq<u64>) -> Option<
    u64,
> {
    if offsets.len() == 0 {
        Some(base)
    } else {
        match hop(m, base, offsets, (offsets.len() - 1) as nat) {
            Some(a) => if a + offsets.last() < address_span() {
                Some((a + offsets.last()) as u64)
            } else {
                None
            },
            None => None,
        }
    }
}

/// Once a link is broken, every later hop is broken too.
pub proof fn lemma_broken_stays_broken<M: ProcessMemory>(
    m: &M,
    base: u64,
    offsets: Seq<u64>,
    j: nat,
    k: nat,
)
    requires
        j <= k,
        hop(m, base, offsets, j) is None,
    ensures
        hop(m, base, offsets, k) is None,
    decreases k,
{
    if j < k {
        lemma_broken_stays_broken(m, base, offsets, j, (k - 1) as nat);
    }
}

/// A chain whose dereference at hop `k` fails resolves to nothing at all: no partially
/// chased address is returned, whatever the chain's length and wherever the fault is.
pub proof fn lemma_broken_link_fails_chain<M: ProcessMemory>(
    m: &M,
    base: u64,
    offsets: Seq<u64>,
    k: nat,
)
    requires
        k + 1 < offsets.len(),
        hop(m, base, offsets, k + 1) is None,
    ensures
        chain_address(m, base, offsets) is None,
{
    lemma_broken_stays_broken(m, base, offsets, k + 1, (offsets.len() - 1) as nat);
}

/// Little-endian 16-bit units of a byte sequence; a trailing odd byte is dropped.
pub open spec fn le_units(b: Seq<u8>) -> Seq<u16> {
    Seq::new((b.len() / 2) as nat, |i: int| le_u16(b.subrange(2 * i, 2 * i + 2)))
}

/// Splits bytes into little-endian 16-bit units.
pub fn units_from_bytes(b: &Vec<u8>) -> (r: Vec<u16>)
    ensures
        r@ == le_units(b@),
{
    let blen = b.len();
    let n = blen / 2;
    let mut r: Vec<u16> = Vec::new();
    let mut i: usize = 0;
    while i < n
        invariant
            n == b@.len() / 2,
            blen == b@.len(),
            i <= n,
            r@.len() == i,
            forall|k: int| 0 <= k < i ==> r@[k] == le_u16(#[trigger] b@.subrange(2 * k, 2 * k + 2)),
        decreases n - i,
    {
        let lo = b[2 * i];
        let hi = b[2 * i + 1];
        proof {
            let w = b@.subrange(2 * i, 2 * i + 2);
            assert(w[0] == lo && w[1] == hi);
        }
        r.push((lo as u16) | ((hi as u16) << 8u16));
        i = i + 1;
    }
    assert(r@ =~= le_units(b@));
    r
}

/// A root address and a list of byte offsets leading from it to a value.
pub struct DeepPointer {
    base: u64,
    offsets: Vec<u64>,
}

impl DeepPointer {
    pub closed spec fn base_spec(&self) -> u64 {
        self.base
    }

    pub closed spec fn offsets_spec(&self) -> Seq<u64> {
        self.offsets@
    }

    pub fn new(base: u64, offsets: Vec<u64>) -> (r: Self)
        ensures
            r.base_spec() == base,
            r.offsets_spec() == offsets@,
    {
        DeepPointer { base, offsets }
    }

    pub open spec fn address_spec<M: ProcessMemory>(&self, m: &M) -> Option<u64> {
        chain_address(m, self.base_spec(), self.offsets_spec())
    }

    /// Walks the chain to the address of the final value.
    pub fn address<M: ProcessMemory>(&self, m: &M) -> (r: Option<u64>)
        ensures
            r == self.address_spec(m),
    {
        let n = self.offsets.len();
        if n == 0 {
            return Some(self.base);
        }
        let mut a: u64 = self.base;
        let mut i: usize = 0;
        while i < n - 1
            invariant
                n == self.offsets@.len(),
                n >= 1,
                i <= n - 1,
                hop(m, self.base, self.offsets@, i as nat) == Some(a),
            decreases n - 1 - i,
        {
            let off = self.offsets[i];
            if u64::MAX - a < off {
                proof {
                    lemma_broken_stays_broken(m, self.base, self.offsets@, (i + 1) as nat, (n - 1) as nat);
                }
                return None;
            }
            match read_u64(m, a + off) {
                Some(next) => {
                    a = next;
                },
                None => {
                    proof {
                        lemma_broken_stays_broken(m, self.base, self.offsets@, (i + 1) as nat, (n - 1) as nat);
                    }
                    return None;
                },
            }
            i = i + 1;
        }
        let last = self.offsets[n - 1];
        if u64::MAX - a < last {
            return None;
        }
        Some(a + last)
    }

    pub fn deref_u8<M: ProcessMemory>(&self, m: &M) -> (r: Option<u8>)
        ensures
            r == match self.address_spec(m) {
                Some(a) => read_u8_spec(m, a as int),
                None => None,
            },
    {
        match self.address(m) {
            Some(a) => read_u8(m, a),
            None => None,
        }
    }

    pub fn deref_i32<M: ProcessMemory>(&self, m: &M) -> (r: Option<i32>)
        ensures
            r == match self.address_spec(m) {
                Some(a) => match read_u32_spec(m, a as int) {
                    Some(v) => Some(v as i32),
                    None => None,
                },
                None => None,
            },
    {
        match self.address(m) {
            Some(a) => match read_u32(m, a) {
                Some(v) => Some(v as i32),
                None => None,
            },
            None => None,
        }
    }

    pub fn deref_u64<M: ProcessMemory>(&self, m: &M) -> (r: Option<u64>)
        ensures
            r == match self.address_spec(m) {
                Some(a) => read_u64_spec(m, a as int),
                None => None,
            },
    {
        match self.address(m) {
            Some(a) => read_u64(m, a),
            None => None,
        }
    }

    /// Reads `n` little-endian UTF-16 units at the end of the chain.
    pub fn deref_units<M: ProcessMemory>(&self, m: &M, n: usize) -> (r: Option<Vec<u16>>)
        requires
            n <= usize::MAX / 2,
        ensures
            match self.address_spec(m) {
                Some(a) => match read_spec(m, a as int, 2 * n) {
                    Some(b) => r matches Some(v) && v@ == le_units(b),
                    None => r is None,
                },
                None => r is None,
            },
    {
        match self.deref_bytes(m, 2 * n) {
            Some(b) => Some(units_from_bytes(&b)),
            None => None,
        }
    }

    /// Reads `len` bytes at the end of the chain.
    pub fn deref_bytes<M: ProcessMemory>(&self, m: &M, len: usize) -> (r: Option<Vec<u8>>)
        ensures
            match self.address_spec(m) {
                Some(a) => match read_spec(m, a as int, len as int) {
                    Some(b) => r matches Some(v) && v@ == b,
                    None => r is None,
                },
                None => r is None,
            },
    {
        match self.address(m) {
            Some(a) => read_region(m, a, len),
            None => None,
        }
    }
}

} // verus!
