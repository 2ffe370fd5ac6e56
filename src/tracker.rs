use vstd::prelude::*;
use crate::memory::{ProcessMemory, read_spec, read_u8_spec, read_u32_spec};
use crate::deep_pointer::{chain_address, le_units};
use crate::flag_name::{FlagNameResolver, decode_name_spec, flag_identity, lookup_outcome};
use crate::roots::{
    Roots, current_map_chain, current_map_pointer, game_state_chain, game_state_pointer,
    save_flag_array_chain, save_flag_array_pointer, save_flag_count_chain, save_flag_count_pointer,
};
use crate::splitter::{Session, Settings, TimerAction, tick, tick_spec};
use crate::watcher::{Watcher, watch_step};

verus! {

/// The number of UTF-16 units of the current map's path that are read.
pub const MAP_PATH_UNITS: usize = 35;

/// The byte at the end of a chain from address zero.
pub open spec fn chain_u8<M: ProcessMemory>(m: &M, offsets: Seq<u64>) -> Option<u8> {
    match chain_address(m, 0, offsets) {
        Some(a) => read_u8_spec(m, a as int),
        None => None,
    }
}

/// The signed 32-bit value at the end of a chain from address zero.
pub open spec fn chain_i32<M: ProcessMemory>(m: &M, offsets: Seq<u64>) -> Option<i32> {
    match chain_address(m, 0, offsets) {
        Some(a) => match read_u32_spec(m, a as int) {
            Some(v) => Some(v as i32),
            None => None,
        },
        None => None,
    }
}

/// The `n` UTF-16 units at the end of a chain from address zero.
pub open spec fn chain_units<M: ProcessMemory>(m: &M, offsets: Seq<u64>, n: nat) -> Option<
    Seq<u16>,
> {
    match chain_address(m, 0, offsets) {
        Some(a) => match read_spec(m, a as int, 2 * n as int) {
            Some(b) => Some(le_units(b)),
            None => None,
        },
        None => None,
    }
}

pub open spec fn units_view(p: Option<(Vec<u16>, Vec<u16>)>) -> Option<(Seq<u16>, Seq<u16>)> {
    match p {
        Some((o, c)) => Some((o@, c@)),
        None => None,
    }
}

pub open spec fn names_view(p: Option<(String, String)>) -> Option<(Seq<char>, Seq<char>)> {
    match p {
        Some((o, c)) => Some((o@, c@)),
        None => None,
    }
}

/// The name lookup a poll makes once the flag count has a pair: the cache after it, and the
/// newest flag's name.
pub open spec fn newest_flag_lookup<M: ProcessMemory>(
    m: &M,
    roots: Roots,
    names: Map<u64, Seq<char>>,
    count: Option<(i32, i32)>,
) -> (Map<u64, Seq<char>>, Option<Seq<char>>) {
    match count {
        Some((_, c)) => match flag_identity(
            m,
            chain_address(m, 0, save_flag_array_chain(roots.world)),
            c,
        ) {
            Some(id) => lookup_outcome(names, id, decode_name_spec(m, roots.name_pool, id)),
            None => (names, None),
        },
        None => (names, None),
    }
}

/// Everything kept about one attached process: its roots, the watchers, the flag name
/// cache and the trigger session.
pub struct Tracker {
    pub roots: Roots,
    pub game_state: Watcher<u8>,
    pub flag_count: Watcher<i32>,
    pub current_map: Watcher<Vec<u16>>,
    pub newest_flag: Watcher<String>,
    pub names: FlagNameResolver,
    pub session: Session,
}

impl Tracker {
    pub fn new(roots: Roots) -> (r: Self)
        ensures
            r.roots == roots,
            r.game_state@ is None,
            r.flag_count@ is None,
            r.current_map@ is None,
            r.newest_flag@ is None,
            r.names@ == Map::<u64, Seq<char>>::empty(),
            r.session == (Session {
                start_on_gain_control: false,
                split_on_lose_control: false,
                boss_splits_triggered: 0,
            }),
    {
        Tracker {
            roots,
            game_state: Watcher::new(),
            flag_count: Watcher::new(),
            current_map: Watcher::new(),
            newest_flag: Watcher::new(),
            names: FlagNameResolver::new(),
            session: Session::new(),
        }
    }

    /// One tick: refreshes every watcher from memory, resolves the newest flag's name and
    /// runs the trigger rules; returns the timer actions to perform, in order.
    pub fn poll<M: ProcessMemory>(&mut self, m: &M, settings: &Settings) -> (r: Vec<TimerAction>)
        ensures
            final(self).roots == old(self).roots,
            final(self).game_state@ == watch_step(
                old(self).game_state@,
                chain_u8(m, game_state_chain(old(self).roots.world)),
            ),
            final(self).flag_count@ == watch_step(
                old(self).flag_count@,
                chain_i32(m, save_flag_count_chain(old(self).roots.world)),
            ),
            units_view(final(self).current_map@) == watch_step(
                units_view(old(self).current_map@),
                chain_units(m, current_map_chain(old(self).roots.world), MAP_PATH_UNITS as nat),
            ),
            final(self).names@ == newest_flag_lookup(
                m,
                old(self).roots,
                old(self).names@,
                final(self).flag_count@,
            ).0,
            names_view(final(self).newest_flag@) == watch_step(
                names_view(old(self).newest_flag@),
                newest_flag_lookup(m, old(self).roots, old(self).names@, final(self).flag_count@).1,
            ),
            (final(self).session, r@) == tick_spec(
                *settings,
                old(self).session,
                final(self).game_state@,
                final(self).flag_count@,
                units_view(final(self).current_map@),
                names_view(final(self).newest_flag@),
            ),
    {
        let world = self.roots.world;
        let gs = game_state_pointer(world).deref_u8(m);
        self.game_state.update(gs);
        let count = save_flag_count_pointer(world).deref_i32(m);
        self.flag_count.update(count);
        let map = current_map_pointer(world).deref_units(m, MAP_PATH_UNITS);
        self.current_map.update(map);
        match self.flag_count.pair() {
            Some((_, c)) => {
                let c: i32 = *c;
                let flags = save_flag_array_pointer(world);
                let name = self.names.newest_flag_name(m, &flags, self.roots.name_pool, c);
                self.newest_flag.update(name);
            },
            None => {},
        }
        let gs_pair = match self.game_state.pair() {
            Some((o, c)) => Some((*o, *c)),
            None => None,
        };
        let count_pair = match self.flag_count.pair() {
            Some((o, c)) => Some((*o, *c)),
            None => None,
        };
        let mut session = self.session;
        let actions = tick(
            settings,
            &mut session,
            gs_pair,
            count_pair,
            self.current_map.pair(),
            self.newest_flag.pair(),
        );
        self.session = session;
        actions
    }
}

} // verus!
