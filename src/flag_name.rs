use vstd::prelude::*;
use vstd::utf8::*;
use std::collections::HashMap;
use crate::memory::{
    ProcessMemory, address_span, read_region, read_spec, readable, read_u16, read_u16_spec, read_u64,
    read_u64_spec,
};
use crate::deep_pointer::DeepPointer;

verus! {

broadcast use vstd::std_specs::hash::group_hash_axioms;

/// The most characters a flag name is read with.
pub const NAME_LENGTH_LIMIT: u16 = 64;

/// The identity of the newest save flag: the 64-bit value in slot `count - 1` of the flag
/// array whose address is held at `flags_at`. `None` for a non-positive count or a failed read.
pub open spec fn flag_identity<M: ProcessMemory>(m: &M, flags_at: Option<u64>, count: i32) -> Option<
    u64,
> {
    if count <= 0 {
        None
    } else {
        match flags_at {
            Some(at) => match read_u64_spec(m, at as int) {
                Some(array) => {
                    let slot = array + 8 * (count - 1);
                    if slot < address_span() {
                        read_u64_spec(m, slot)
                    } else {
                        None
                    }
                },
                None => None,
            },
            None => None,
        }
    }
}

/// The chunk index packed in the high half of a flag's 32-bit key.
pub open spec fn chunk_index(id: u64) -> u64 {
    (id >> 16u64) & 0xFFFFu64
}

/// The offset within its chunk packed in the low half of a flag's 32-bit key.
pub open spec fn name_offset(id: u64) -> u64 {
    id & 0xFFFFu64
}

/// The length a name entry header announces, clamped to the limit.
pub open spec fn clamped_length(header: u16) -> int {
    if (header >> 6u16) > NAME_LENGTH_LIMIT {
        NAME_LENGTH_LIMIT as int
    } else {
        (header >> 6u16) as int
    }
}

/// The text of some bytes, or the empty text where they are not valid UTF-8.
pub open spec fn text_or_empty(b: Seq<u8>) -> Seq<char> {
    if valid_utf8(b) {
        decode_utf8(b)
    } else {
        Seq::empty()
    }
}

/// The address of the name entry header for a flag identity, found through the name pool's
/// chunk table, or `None` where a read fails.
pub open spec fn header_address<M: ProcessMemory>(m: &M, pool: u64, id: u64) -> Option<int> {
    let entry = pool + 8 * (chunk_index(id) + 2);
    if entry < address_span() {
        match read_u64_spec(m, entry) {
            Some(chunk) => {
                let at = chunk + 2 * name_offset(id);
                if at + 2 < address_span() {
                    Some(at)
                } else {
                    None
                }
            },
            None => None,
        }
    } else {
        None
    }
}

/// The decoded name of a flag identity: the header's clamped length of bytes, read just
/// after the header, as text.
pub open spec fn decode_name_spec<M: ProcessMemory>(m: &M, pool: u64, id: u64) -> Option<Seq<char>> {
    match header_address(m, pool, id) {
        Some(at) => match read_u16_spec(m, at) {
            Some(h) => match read_spec(m, at + 2, clamped_length(h)) {
                Some(b) => Some(text_or_empty(b)),
                None => None,
            },
            None => None,
        },
        None => None,
    }
}

/// What a lookup does to a cache: a known identity is answered from the cache; an unknown
/// one is answered by decoding, which is remembered when it succeeds.
pub open spec fn lookup_outcome(
    cache: Map<u64, Seq<char>>,
    id: u64,
    decoded: Option<Seq<char>>,
) -> (Map<u64, Seq<char>>, Option<Seq<char>>) {
    if cache.contains_key(id) {
        (cache, Some(cache[id]))
    } else {
        match decoded {
            Some(s) => (cache.insert(id, s), Some(s)),
            None => (cache, None),
        }
    }
}

/// Looking up the same identity twice gives the same name both times, and the second
/// lookup is answered from the cache without decoding: its outcome does not depend on
/// what a decode would give, and it leaves the cache as it was.
pub proof fn lemma_lookup_idempotent(
    cache: Map<u64, Seq<char>>,
    id: u64,
    first: Option<Seq<char>>,
    second: Option<Seq<char>>,
)
    requires
        lookup_outcome(cache, id, first).1 is Some,
    ensures
        lookup_outcome(lookup_outcome(cache, id, first).0, id, second) == lookup_outcome(
            cache,
            id,
            first,
        ),
        lookup_outcome(cache, id, first).0.contains_key(id),
{
}

/// Decoding never yields more characters than bytes.
pub proof fn lemma_decoded_length(b: Seq<u8>)
    requires
        valid_utf8(b),
    ensures
        decode_utf8(b).len() <= b.len(),
    decreases b.len(),
{
    if b.len() != 0 {
        let n = length_of_first_scalar(b);
        assert(1 <= n <= b.len());
        assert(pop_first_scalar(b).len() == b.len() - n);
        lemma_decoded_length(pop_first_scalar(b));
    }
}

/// A decoded name never has more characters than the limit, whatever the header says.
pub proof fn lemma_name_clamp<M: ProcessMemory>(m: &M, pool: u64, id: u64)
    ensures
        decode_name_spec(m, pool, id) matches Some(s) ==> s.len() <= NAME_LENGTH_LIMIT,
{
    if let Some(at) = header_address(m, pool, id) {
        if let Some(h) = read_u16_spec(m, at) {
            if let Some(b) = read_spec(m, at + 2, clamped_length(h)) {
                if valid_utf8(b) {
                    lemma_decoded_length(b);
                }
            }
        }
    }
}

/// Only the clamped length of bytes after the header decides a name: two memories that
/// agree on the walk up to the header and on those bytes give the same name, whatever
/// either holds past the clamp.
pub proof fn lemma_name_ignores_bytes_past_clamp<M: ProcessMemory>(
    m1: &M,
    m2: &M,
    pool: u64,
    id: u64,
    at: int,
    h: u16,
)
    requires
        header_address(m1, pool, id) == Some(at),
        header_address(m2, pool, id) == Some(at),
        read_u16_spec(m1, at) == Some(h),
        read_u16_spec(m2, at) == Some(h),
        forall|a: int|
            at + 2 <= a < at + 2 + clamped_length(h) ==> #[trigger] m1.byte_at(a) == m2.byte_at(a),
    ensures
        decode_name_spec(m1, pool, id) == decode_name_spec(m2, pool, id),
{
    let n = clamped_length(h);
    assert forall|i: int| 0 <= i < n implies #[trigger] m1.byte_at(at + 2 + i) == m2.byte_at(
        at + 2 + i,
    ) by {
        assert(m1.byte_at(at + 2 + i) == m2.byte_at(at + 2 + i));
    }
    if readable(m1, at + 2, n) {
        assert forall|i: int| 0 <= i < n implies (#[trigger] m2.byte_at(at + 2 + i)) is Some by {
            assert(m1.byte_at(at + 2 + i) is Some);
        }
        assert(readable(m2, at + 2, n));
        assert(read_spec(m1, at + 2, n).unwrap() =~= read_spec(m2, at + 2, n).unwrap());
    } else if readable(m2, at + 2, n) {
        assert forall|i: int| 0 <= i < n implies (#[trigger] m1.byte_at(at + 2 + i)) is Some by {
            assert(m2.byte_at(at + 2 + i) is Some);
        }
        assert(readable(m1, at + 2, n));
    }
}

/// Relies on `String::from_utf8`: it succeeds exactly on valid UTF-8 and then holds the
/// decoded characters.
#[verifier::external_body]
fn text_from_utf8(b: Vec<u8>) -> (r: Option<String>)
    ensures
        match r {
            Some(s) => valid_utf8(b@) && s@ == decode_utf8(b@),
            None => !valid_utf8(b@),
        },
{
    String::from_utf8(b).ok()
}

/// The characters of an optional string.
pub open spec fn text_view(r: Option<String>) -> Option<Seq<char>> {
    match r {
        Some(s) => Some(s@),
        None => None,
    }
}

/// Decodes the name of a flag identity by walking the name pool.
pub fn decode_name<M: ProcessMemory>(m: &M, pool: u64, id: u64) -> (r: Option<String>)
    ensures
        text_view(r) == decode_name_spec(m, pool, id),
        r matches Some(s) ==> s@.len() <= NAME_LENGTH_LIMIT,
{
    proof {
        lemma_name_clamp(m, pool, id);
    }
    let chunk: u64 = (id >> 16u64) & 0xFFFFu64;
    let offset: u64 = id & 0xFFFFu64;
    assert(chunk <= 0xFFFF) by (bit_vector)
        requires
            chunk == (id >> 16u64) & 0xFFFFu64,
    ;
    assert(offset <= 0xFFFF) by (bit_vector)
        requires
            offset == id & 0xFFFFu64,
    ;
    let rel: u64 = 8 * (chunk + 2);
    if u64::MAX - pool < rel {
        return None;
    }
    let chunk_base = match read_u64(m, pool + rel) {
        Some(c) => c,
        None => return None,
    };
    if u64::MAX - chunk_base < 2 * offset + 2 {
        return None;
    }
    let at = chunk_base + 2 * offset;
    let header = match read_u16(m, at) {
        Some(h) => h,
        None => return None,
    };
    let announced = header >> 6u16;
    let len: u16 = if announced > NAME_LENGTH_LIMIT {
        NAME_LENGTH_LIMIT
    } else {
        announced
    };
    let bytes = match read_region(m, at + 2, len as usize) {
        Some(b) => b,
        None => return None,
    };
    match text_from_utf8(bytes) {
        Some(s) => Some(s),
        None => Some(String::new()),
    }
}

/// Resolves the newest save flag's name, remembering each name by the flag's identity.
pub struct FlagNameResolver {
    cache: HashMap<u64, String>,
}

impl View for FlagNameResolver {
    type V = Map<u64, Seq<char>>;

    closed spec fn view(&self) -> Map<u64, Seq<char>> {
        self.cache@.map_values(|s: String| s@)
    }
}

impl FlagNameResolver {
    pub fn new() -> (r: Self)
        ensures
            r@ == Map::<u64, Seq<char>>::empty(),
    {
        let r = FlagNameResolver { cache: HashMap::new() };
        assert(r@ =~= Map::<u64, Seq<char>>::empty());
        r
    }

    /// The name of the flag in the newest of `count` populated slots of the array that
    /// `flags` points to; `None` when there is no such flag or a read fails.
    pub fn newest_flag_name<M: ProcessMemory>(
        &mut self,
        m: &M,
        flags: &DeepPointer,
        pool: u64,
        count: i32,
    ) -> (r: Option<String>)
        ensures
            match flag_identity(m, flags.address_spec(m), count) {
                Some(id) => (final(self)@, text_view(r)) == lookup_outcome(
                    old(self)@,
                    id,
                    decode_name_spec(m, pool, id),
                ),
                None => r is None && final(self)@ == old(self)@,
            },
    {
        if count <= 0 {
            return None;
        }
        let at = match flags.address(m) {
            Some(a) => a,
            None => return None,
        };
        let array = match read_u64(m, at) {
            Some(a) => a,
            None => return None,
        };
        let rel: u64 = 8 * ((count - 1) as u64);
        if u64::MAX - array < rel {
            return None;
        }
        let id = match read_u64(m, array + rel) {
            Some(v) => v,
            None => return None,
        };
        match self.cache.get(&id) {
            Some(s) => {
                return Some(s.clone());
            },
            None => {},
        }
        let decoded = decode_name(m, pool, id);
        match decoded {
            Some(s) => {
                let kept = s.clone();
                self.cache.insert(id, s);
                proof {
                    assert(self@ =~= old(self)@.insert(id, kept@));
                }
                Some(kept)
            },
            None => None,
        }
    }
}

} // verus!
