use vstd::prelude::*;

verus! {

/// One past the largest address: a region must end at or below it.
pub open spec fn address_span() -> int {
    0x1_0000_0000_0000_0000
}

/// The capability of reading a foreign process's memory.
///
/// `byte_at` is what the memory holds at an address, `None` where the address
/// cannot be read (unmapped, or the process is gone).
pub trait ProcessMemory {
    spec fn byte_at(&self, addr: int) -> Option<u8>;

    /// Reads `len` bytes starting at `addr`; fails unless every one of them is readable.
    fn read_bytes(&self, addr: u64, len: usize) -> (r: Option<Vec<u8>>)
        ensures
            match r {
                Some(v) => {
                    &&& addr + len <= address_span()
                    &&& v@.len() == len
                    &&& forall|i: int| 0 <= i < len ==> self.byte_at(addr + i) == Some(#[trigger] v@[i])
                },
                None => !(addr + len <= address_span() && forall|i: int|
                    0 <= i < len ==> (#[trigger] self.byte_at(addr + i)) is Some),
            },
    ;
}

/// Every byte of `[addr, addr + len)` is readable and the region ends within the address space.
pub open spec fn readable<M: ProcessMemory>(m: &M, addr: int, len: int) -> bool {
    &&& 0 <= addr
    &&& addr + len <= address_span()
    &&& forall|i: int| 0 <= i < len ==> (#[trigger] m.byte_at(addr + i)) is Some
}

/// The bytes of `[addr, addr + len)`, or `None` where any of them is unreadable.
pub open spec fn read_spec<M: ProcessMemory>(m: &M, addr: int, len: int) -> Option<Seq<u8>> {
    if readable(m, addr, len) {
        Some(Seq::new(len as nat, |i: int| m.byte_at(addr + i)->Some_0))
    } else {
        None
    }
}

/// Little-endian value of the first two bytes.
pub open spec fn le_u16(b: Seq<u8>) -> u16 {
    (b[0] as u16) | ((b[1] as u16) << 8u16)
}

/// Little-endian value of the first four bytes.
pub open spec fn le_u32(b: Seq<u8>) -> u32 {
    (b[0] as u32) | ((b[1] as u32) << 8u32) | ((b[2] as u32) << 16u32) | ((b[3] as u32) << 24u32)
}

/// Little-endian value of the first eight bytes.
pub open spec fn le_u64(b: Seq<u8>) -> u64 {
    (b[0] as u64) | ((b[1] as u64) << 8u64) | ((b[2] as u64) << 16u64) | ((b[3] as u64)
        << 24u64) | ((b[4] as u64) << 32u64) | ((b[5] as u64) << 40u64) | ((b[6] as u64)
        << 48u64) | ((b[7] as u64) << 56u64)
}

pub open spec fn read_u8_spec<M: ProcessMemory>(m: &M, addr: int) -> Option<u8> {
    match read_spec(m, addr, 1) {
        Some(b) => Some(b[0]),
        None => None,
    }
}

pub open spec fn read_u16_spec<M: ProcessMemory>(m: &M, addr: int) -> Option<u16> {
    match read_spec(m, addr, 2) {
        Some(b) => Some(le_u16(b)),
        None => None,
    }
}

pub open spec fn read_u32_spec<M: ProcessMemory>(m: &M, addr: int) -> Option<u32> {
    match read_spec(m, addr, 4) {
        Some(b) => Some(le_u32(b)),
        None => None,
    }
}

pub open spec fn read_u64_spec<M: ProcessMemory>(m: &M, addr: int) -> Option<u64> {
    match read_spec(m, addr, 8) {
        Some(b) => Some(le_u64(b)),
        None => None,
    }
}

/// Reads a region, stated over `read_spec`.
pub fn read_region<M: ProcessMemory>(m: &M, addr: u64, len: usize) -> (r: Option<Vec<u8>>)
    ensures
        match r {
            Some(v) => read_spec(m, addr as int, len as int) == Some(v@),
            None => read_spec(m, addr as int, len as int) is None,
        },
{
    let r = m.read_bytes(addr, len);
    match r {
        Some(v) => {
            assert forall|i: int| 0 <= i < len implies (#[trigger] m.byte_at(addr + i)) is Some by {
                assert(m.byte_at(addr + i) == Some(v@[i]));
            }
            assert(v@ =~= Seq::new(len as nat, |i: int| m.byte_at(addr + i)->Some_0));
            Some(v)
        },
        None => None,
    }
}

pub fn read_u8<M: ProcessMemory>(m: &M, addr: u64) -> (r: Option<u8>)
    ensures
        r == read_u8_spec(m, addr as int),
{
    match read_region(m, addr, 1) {
        Some(b) => Some(b[0]),
        None => None,
    }
}

pub fn read_u16<M: ProcessMemory>(m: &M, addr: u64) -> (r: Option<u16>)
    ensures
        r == read_u16_spec(m, addr as int),
{
    match read_region(m, addr, 2) {
        Some(b) => Some((b[0] as u16) | ((b[1] as u16) << 8u16)),
        None => None,
    }
}

pub fn read_u32<M: ProcessMemory>(m: &M, addr: u64) -> (r: Option<u32>)
    ensures
        r == read_u32_spec(m, addr as int),
{
    match read_region(m, addr, 4) {
        Some(b) => Some(
            (b[0] as u32) | ((b[1] as u32) << 8u32) | ((b[2] as u32) << 16u32) | ((b[3] as u32)
                << 24u32),
        ),
        None => None,
    }
}

pub fn read_u64<M: ProcessMemory>(m: &M, addr: u64) -> (r: Option<u64>)
    ensures
        r == read_u64_spec(m, addr as int),
{
    match read_region(m, addr, 8) {
        Some(b) => Some(
            (b[0] as u64) | ((b[1] as u64) << 8u64) | ((b[2] as u64) << 16u64) | ((b[3] as u64)
                << 24u64) | ((b[4] as u64) << 32u64) | ((b[5] as u64) << 40u64) | ((b[6] as u64)
                << 48u64) | ((b[7] as u64) << 56u64),
        ),
        None => None,
    }
}

/// A snapshot of memory: `bytes` laid out from address `base`; every other address is unreadable.
pub struct MemoryImage {
    base: u64,
    bytes: Vec<u8>,
}

impl MemoryImage {
    pub closed spec fn base_spec(&self) -> int {
        self.base as int
    }

    pub closed spec fn contents(&self) -> Seq<u8> {
        self.bytes@
    }

    pub fn new(base: u64, bytes: Vec<u8>) -> (r: Self)
        ensures
            r.base_spec() == base,
            r.contents() == bytes@,
    {
        MemoryImage { base, bytes }
    }
}

impl ProcessMemory for MemoryImage {
    open spec fn byte_at(&self, addr: int) -> Option<u8> {
        let off = addr - self.base_spec();
        if 0 <= off < self.contents().len() {
            Some(self.contents()[off])
        } else {
            None
        }
    }

    fn read_bytes(&self, addr: u64, len: usize) -> (r: Option<Vec<u8>>) {
        if len == 0 {
            return Some(Vec::new());
        }
        if u64::MAX - addr < (len - 1) as u64 {
            assert(!(self.byte_at(addr + 0) is Some) || !(addr + len <= address_span()));
            return None;
        }
        if addr < self.base || addr - self.base > self.bytes.len() as u64 || (self.bytes.len() as u64
            - (addr - self.base)) < len as u64 {
            assert(!(self.byte_at(addr + 0) is Some) || !(self.byte_at(addr + (len - 1)) is Some));
            return None;
        }
        let start = (addr - self.base) as usize;
        let n: usize = self.bytes.len();
        let mut out: Vec<u8> = Vec::new();
        let mut i: usize = 0;
        while i < len
            invariant
                start + len <= self.bytes@.len(),
                n == self.bytes@.len(),
                start == addr - self.base,
                addr + len <= address_span(),
                i <= len,
                out@.len() == i,
                forall|k: int| 0 <= k < i ==> out@[k] == self.bytes@[start + k],
            decreases len - i,
        {
            out.push(self.bytes[start + i]);
            i = i + 1;
        }
        Some(out)
    }
}

} // verus!
