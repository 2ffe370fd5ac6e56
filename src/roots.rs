use vstd::prelude::*;
use crate::memory::{ProcessMemory, address_span};
use crate::signature::{Signature, relative_target, resolve_relative, scan_region_spec};
use crate::deep_pointer::DeepPointer;

verus! {

/// Where the displacement to the name pool sits after its signature's match, and the
/// distance from the match that it is counted from.
pub const NAME_POOL_DISPLACEMENT_AT: u64 = 0x5;
pub const NAME_POOL_ANCHOR: u64 = 0x9;
/// The same two distances for the world root.
pub const WORLD_DISPLACEMENT_AT: u64 = 0x8;
pub const WORLD_ANCHOR: u64 = 0xC;

/// `74 09 48 8D 15 ?? ?? ?? ?? EB 16`
pub open spec fn name_pool_pattern() -> Seq<Option<u8>> {
    seq![
        Some(0x74u8), Some(0x09u8), Some(0x48u8), Some(0x8Du8), Some(0x15u8), None, None, None,
        None, Some(0xEBu8), Some(0x16u8),
    ]
}

/// `0F 2E ?? 74 ?? 48 8B 1D ?? ?? ?? ?? 48 85 DB 74`
pub open spec fn world_pattern() -> Seq<Option<u8>> {
    seq![
        Some(0x0Fu8), Some(0x2Eu8), None, Some(0x74u8), None, Some(0x48u8), Some(0x8Bu8),
        Some(0x1Du8), None, None, None, None, Some(0x48u8), Some(0x85u8), Some(0xDBu8),
        Some(0x74u8),
    ]
}

pub fn name_pool_signature() -> (r: Signature)
    ensures
        r@ == name_pool_pattern(),
{
    let p: Vec<Option<u8>> = vec![
        Some(0x74u8), Some(0x09u8), Some(0x48u8), Some(0x8Du8), Some(0x15u8), None, None, None,
        None, Some(0xEBu8), Some(0x16u8),
    ];
    assert(p@ =~= name_pool_pattern());
    Signature::new(p)
}

pub fn world_signature() -> (r: Signature)
    ensures
        r@ == world_pattern(),
{
    let p: Vec<Option<u8>> = vec![
        Some(0x0Fu8), Some(0x2Eu8), None, Some(0x74u8), None, Some(0x48u8), Some(0x8Bu8),
        Some(0x1Du8), None, None, None, None, Some(0x48u8), Some(0x85u8), Some(0xDBu8),
        Some(0x74u8),
    ];
    assert(p@ =~= world_pattern());
    Signature::new(p)
}

/// The root that a signature leads to within a module: the first match, then the
/// displacement read near it. `None` when there is no match or the target is null.
pub open spec fn root_spec<M: ProcessMemory>(
    m: &M,
    pat: Seq<Option<u8>>,
    disp_at: u64,
    anchor: u64,
    base: u64,
    size: usize,
) -> Option<u64> {
    match scan_region_spec(m, pat, base as int, size as int) {
        Some(a) => if a + disp_at < address_span() {
            relative_target(m, a, disp_at as int, anchor as int)
        } else {
            None
        },
        None => None,
    }
}

/// The two root addresses everything else is reached from.
#[derive(Clone, Copy, PartialEq, Eq, Structural, Debug)]
pub struct Roots {
    pub name_pool: u64,
    pub world: u64,
}

fn find_root<M: ProcessMemory>(
    m: &M,
    sig: &Signature,
    disp_at: u64,
    anchor: u64,
    base: u64,
    size: usize,
) -> (r: Option<u64>)
    ensures
        r == root_spec(m, sig@, disp_at, anchor, base, size),
{
    match sig.scan_region(m, base, size) {
        Some(a) => resolve_relative(m, a, disp_at, anchor),
        None => None,
    }
}

/// Locates both roots in the module `[base, base + size)`; succeeds only when both are found.
pub fn find_roots<M: ProcessMemory>(m: &M, base: u64, size: usize) -> (r: Option<Roots>)
    ensures
        match (
            root_spec(m, name_pool_pattern(), NAME_POOL_DISPLACEMENT_AT, NAME_POOL_ANCHOR, base, size),
            root_spec(m, world_pattern(), WORLD_DISPLACEMENT_AT, WORLD_ANCHOR, base, size),
        ) {
            (Some(p), Some(w)) => r == Some(Roots { name_pool: p, world: w }),
            _ => r is None,
        },
        r matches Some(roots) ==> roots.name_pool != 0 && roots.world != 0,
{
    let pool = find_root(m, &name_pool_signature(), NAME_POOL_DISPLACEMENT_AT, NAME_POOL_ANCHOR, base, size);
    let world = find_root(m, &world_signature(), WORLD_DISPLACEMENT_AT, WORLD_ANCHOR, base, size);
    match (pool, world) {
        (Some(p), Some(w)) => Some(Roots { name_pool: p, world: w }),
        _ => None,
    }
}

/// The offsets to each watched value. Chains start from address zero with the world root's
/// address as their first offset, so the root field itself is the first pointer read.
pub open spec fn game_state_chain(world: u64) -> Seq<u64> {
    seq![world, 0x128u64, 0x5E0u64]
}

pub open spec fn save_flag_count_chain(world: u64) -> Seq<u64> {
    seq![world, 0x188u64, 0x208u64]
}

pub open spec fn save_flag_array_chain(world: u64) -> Seq<u64> {
    seq![world, 0x188u64, 0x200u64]
}

pub open spec fn current_map_chain(world: u64) -> Seq<u64> {
    seq![world, 0x428u64, 0x0u64]
}

/// The chain from the world root to the game state byte.
pub fn game_state_pointer(world: u64) -> (r: DeepPointer)
    ensures
        r.base_spec() == 0,
        r.offsets_spec() == game_state_chain(world),
{
    let offsets: Vec<u64> = vec![world, 0x128u64, 0x5E0u64];
    DeepPointer::new(0, offsets)
}

/// The chain from the world root to the count of populated save flags.
pub fn save_flag_count_pointer(world: u64) -> (r: DeepPointer)
    ensures
        r.base_spec() == 0,
        r.offsets_spec() == save_flag_count_chain(world),
{
    let offsets: Vec<u64> = vec![world, 0x188u64, 0x208u64];
    DeepPointer::new(0, offsets)
}

/// The chain from the world root to the field that points at the save flag array.
pub fn save_flag_array_pointer(world: u64) -> (r: DeepPointer)
    ensures
        r.base_spec() == 0,
        r.offsets_spec() == save_flag_array_chain(world),
{
    let offsets: Vec<u64> = vec![world, 0x188u64, 0x200u64];
    DeepPointer::new(0, offsets)
}

/// The chain from the world root to the current map's path, a UTF-16 buffer.
pub fn current_map_pointer(world: u64) -> (r: DeepPointer)
    ensures
        r.base_spec() == 0,
        r.offsets_spec() == current_map_chain(world),
{
    let offsets: Vec<u64> = vec![world, 0x428u64, 0x0u64];
    DeepPointer::new(0, offsets)
}

} // verus!
