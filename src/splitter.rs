use vstd::prelude::*;
use vstd::string::StringSliceAdditionalSpecFns;
use crate::text::{
    contains_name, contains_text, names_contain, same_units, text_contains,
    wide_equals, wide_matches,
};

verus! {

/// The map whose entry arms the run start and resets the timer.
pub open spec fn intro_map() -> &'static str {
    "/Game/Maps/Cutscenes/Opening_Master"
}

/// The title menu map.
pub open spec fn title_map() -> &'static str {
    "/Game/Maps/TitleNMainMenu"
}

/// The substring of a flag name that announces the bad ending.
pub open spec fn bad_ending_marker() -> &'static str {
    "DISABLE_SAVING"
}

/// The save flags set when a boss is killed.
pub open spec fn boss_kill_flags() -> Seq<&'static str> {
    seq![
        "Vale_Starseed_Remnant",
        "Woods_OldCity_Remnant",
        "Woods_IronRootBasin_Remnant",
        "Shroom_GhostCoppice_Remnant",
        "Beach_AcidLagoon_SwordRemnant",
        "Shroom_Overflow_Remnant",
    ]
}

/// The save flags set when a static remnant is completed.
pub open spec fn eye_flags() -> Seq<&'static str> {
    seq![
        "Vale_Starseed_StaticRemnantB",
        "Vale_Starseed_StaticRemnantC",
        "Vale_StaticRemnantD",
        "Woods_Cliffside_StaticRemnantA",
        "Woods_ClockTower_StaticRemnantA",
        "Woods_OldCity_StaticRemnantA",
        "Woods_OldCity_StaticRemnantB",
        "Woods_ForestAltar_StaticRemnantA",
        "Woods_IronRootHighlands_StaticRemnantA",
        "Woods_IronRootHighlands_StaticRemnantB",
        "Woods_IronRootBasin_StaticRemnantA",
        "Shroom_MagmaOutlets_StaticRemnantB",
        "Shroom_GhostCoppice_StaticRemnantA",
        "Shroom_Cathedral_StaticRemnantA",
        "Shroom_Archives_StaticRemnantA",
        "Shroom_MagmaOutlets_StaticRemnantA",
        "Beach_AcidLagoon_StaticRemnantA",
        "Beach_Pavilion_StaticRemnantA",
        "Beach_Frigate_StaticRemnantA",
        "Beach_PalaceGrounds_StaticRemnantA",
        "Beach_PalaceUnderGround_StaticRemnantA",
        "Shroom_Overflow_StaticRemnantA",
        "Shroom_FungusTowers_StaticRemnantA",
        "Shroom_ShatteredPeak_StaticRemnantA",
        "Shroom_Graveyard_MinorRemnantA",
        "Shroom_Overflow_StaticRemnantB",
    ]
}

pub fn boss_kill_flag_list() -> (r: Vec<&'static str>)
    ensures
        r@ == boss_kill_flags(),
{
    let r: Vec<&'static str> = vec![
        "Vale_Starseed_Remnant",
        "Woods_OldCity_Remnant",
        "Woods_IronRootBasin_Remnant",
        "Shroom_GhostCoppice_Remnant",
        "Beach_AcidLagoon_SwordRemnant",
        "Shroom_Overflow_Remnant",
    ];
    assert(r@ =~= boss_kill_flags());
    r
}

pub fn eye_flag_list() -> (r: Vec<&'static str>)
    ensures
        r@ == eye_flags(),
{
    let r: Vec<&'static str> = vec![
        "Vale_Starseed_StaticRemnantB",
        "Vale_Starseed_StaticRemnantC",
        "Vale_StaticRemnantD",
        "Woods_Cliffside_StaticRemnantA",
        "Woods_ClockTower_StaticRemnantA",
        "Woods_OldCity_StaticRemnantA",
        "Woods_OldCity_StaticRemnantB",
        "Woods_ForestAltar_StaticRemnantA",
        "Woods_IronRootHighlands_StaticRemnantA",
        "Woods_IronRootHighlands_StaticRemnantB",
        "Woods_IronRootBasin_StaticRemnantA",
        "Shroom_MagmaOutlets_StaticRemnantB",
        "Shroom_GhostCoppice_StaticRemnantA",
        "Shroom_Cathedral_StaticRemnantA",
        "Shroom_Archives_StaticRemnantA",
        "Shroom_MagmaOutlets_StaticRemnantA",
        "Beach_AcidLagoon_StaticRemnantA",
        "Beach_Pavilion_StaticRemnantA",
        "Beach_Frigate_StaticRemnantA",
        "Beach_PalaceGrounds_StaticRemnantA",
        "Beach_PalaceUnderGround_StaticRemnantA",
        "Shroom_Overflow_StaticRemnantA",
        "Shroom_FungusTowers_StaticRemnantA",
        "Shroom_ShatteredPeak_StaticRemnantA",
        "Shroom_Graveyard_MinorRemnantA",
        "Shroom_Overflow_StaticRemnantB",
    ];
    assert(r@ =~= eye_flags());
    r
}

/// An action on the timer.
#[derive(Clone, Copy, PartialEq, Eq, Structural, Debug)]
pub enum TimerAction {
    Reset,
    Start,
    Split,
    PauseGameTime,
    ResumeGameTime,
}

/// The user's toggles, read at the start of every tick.
#[derive(Clone, Copy, PartialEq, Eq, Structural, Debug)]
pub struct Settings {
    pub split_on_boss_kills: bool,
    pub split_on_bad_ending: bool,
    pub split_on_eye_complete: bool,
}

impl Default for Settings {
    fn default() -> (r: Self)
        ensures
            r.split_on_boss_kills && !r.split_on_bad_ending && !r.split_on_eye_complete,
    {
        Settings { split_on_boss_kills: true, split_on_bad_ending: false, split_on_eye_complete: false }
    }
}

/// The state the trigger rules keep between ticks of one attached process.
#[derive(Clone, Copy, PartialEq, Eq, Structural, Debug)]
pub struct Session {
    /// Armed when the intro map is seen; the next gain of control starts the run.
    pub start_on_gain_control: bool,
    /// Armed by the bad ending's flag; the next loss of control splits.
    pub split_on_lose_control: bool,
    /// Boss-kill splits issued since the run started.
    pub boss_splits_triggered: u64,
}

impl Session {
    pub fn new() -> (r: Self)
        ensures
            r == (Session {
                start_on_gain_control: false,
                split_on_lose_control: false,
                boss_splits_triggered: 0,
            }),
    {
        Session { start_on_gain_control: false, split_on_lose_control: false, boss_splits_triggered: 0 }
    }
}

pub open spec fn action_if(b: bool, a: TimerAction) -> Seq<TimerAction> {
    if b {
        seq![a]
    } else {
        seq![]
    }
}

/// `(old, current)` of the map buffers, as unit sequences.
pub open spec fn units_pair(p: Option<(&Vec<u16>, &Vec<u16>)>) -> Option<(Seq<u16>, Seq<u16>)> {
    match p {
        Some((o, c)) => Some((o@, c@)),
        None => None,
    }
}

/// `(old, current)` of the newest flag names, as character sequences.
pub open spec fn text_pair(p: Option<(&String, &String)>) -> Option<(Seq<char>, Seq<char>)> {
    match p {
        Some((o, c)) => Some((o@, c@)),
        None => None,
    }
}

pub open spec fn map_is(map: Option<(Seq<u16>, Seq<u16>)>, path: &str) -> bool {
    map matches Some((_, c)) && wide_matches(c, path.spec_bytes())
}

/// One tick of the trigger rules, in their fixed order, on this tick's watcher pairs
/// (`None` where a watcher has no pair). Gives the next session and the actions issued.
pub open spec fn tick_spec(
    settings: Settings,
    s: Session,
    game_state: Option<(u8, u8)>,
    count: Option<(i32, i32)>,
    map: Option<(Seq<u16>, Seq<u16>)>,
    flag: Option<(Seq<char>, Seq<char>)>,
) -> (Session, Seq<TimerAction>) {
    // map-based arming and reset
    let at_intro = map_is(map, intro_map());
    let at_title = !at_intro && map_is(map, title_map());
    let reset = at_intro && (map matches Some((o, c)) && o != c);
    let armed = s.start_on_gain_control || at_intro;
    // run start
    let start = armed && (game_state matches Some((o, c)) && o == 3 && c == 4);
    let armed = armed && !start;
    let lose = s.split_on_lose_control && !start;
    let boss = if start { 0 } else { s.boss_splits_triggered };
    // load removal
    let playing = game_state matches Some((_, c)) && (c == 3 || c == 4);
    let pause = !playing || at_title;
    // boss kills
    let changed = flag matches Some((o, c)) && o != c;
    let boss_split = settings.split_on_boss_kills && changed && (flag matches Some((_, c))
        && names_contain(boss_kill_flags(), c));
    let boss = if boss_split && boss < u64::MAX {
        (boss + 1) as u64
    } else {
        boss
    };
    // static remnants
    let eye_split = settings.split_on_eye_complete && boss < boss_kill_flags().len() && changed
        && (flag matches Some((_, c)) && names_contain(eye_flags(), c));
    // bad ending
    let arm = settings.split_on_bad_ending && changed && (flag matches Some((o, _))
        && text_contains(o, bad_ending_marker())) && (count matches Some((_, c)) && c == 2);
    let lose = lose || arm;
    let bad_split = settings.split_on_bad_ending && lose && (game_state matches Some((o, c)) && o
        == 4 && c == 3);
    let abandon = map_is(map, title_map()) || (count matches Some((_, c)) && c > 10);
    let lose = lose && !(settings.split_on_bad_ending && (bad_split || abandon));
    (
        Session {
            start_on_gain_control: armed,
            split_on_lose_control: lose,
            boss_splits_triggered: boss,
        },
        action_if(reset, TimerAction::Reset) + action_if(start, TimerAction::Start) + seq![
            if pause {
                TimerAction::PauseGameTime
            } else {
                TimerAction::ResumeGameTime
            },
        ] + action_if(boss_split, TimerAction::Split) + action_if(eye_split, TimerAction::Split)
            + action_if(bad_split, TimerAction::Split),
    )
}

fn push_if(actions: &mut Vec<TimerAction>, b: bool, a: TimerAction)
    ensures
        final(actions)@ == old(actions)@ + action_if(b, a),
{
    if b {
        actions.push(a);
    } else {
        assert(old(actions)@ + action_if(b, a) =~= old(actions)@);
    }
}

/// Runs the trigger rules for one tick on the watchers' pairs and returns the timer
/// actions to perform, in order.
pub fn tick(
    settings: &Settings,
    session: &mut Session,
    game_state: Option<(u8, u8)>,
    count: Option<(i32, i32)>,
    map: Option<(&Vec<u16>, &Vec<u16>)>,
    flag: Option<(&String, &String)>,
) -> (r: Vec<TimerAction>)
    ensures
        (*final(session), r@) == tick_spec(
            *settings,
            *old(session),
            game_state,
            count,
            units_pair(map),
            text_pair(flag),
        ),
{
    let mut at_intro = false;
    let mut at_title = false;
    let mut reset = false;
    match map {
        Some((o, c)) => {
            if wide_equals(c, "/Game/Maps/Cutscenes/Opening_Master") {
                at_intro = true;
                reset = !same_units(o, c);
            } else if wide_equals(c, "/Game/Maps/TitleNMainMenu") {
                at_title = true;
            }
        },
        None => {},
    }
    let mut armed = session.start_on_gain_control || at_intro;
    let mut lose = session.split_on_lose_control;
    let mut boss = session.boss_splits_triggered;
    let start = armed && match game_state {
        Some((o, c)) => o == 3 && c == 4,
        None => false,
    };
    if start {
        armed = false;
        lose = false;
        boss = 0;
    }
    let playing = match game_state {
        Some((_, c)) => c == 3 || c == 4,
        None => false,
    };
    let pause = !playing || at_title;
    let changed = match flag {
        Some((o, c)) => *o != *c,
        None => false,
    };
    let bosses = boss_kill_flag_list();
    let boss_split = settings.split_on_boss_kills && changed && match flag {
        Some((_, c)) => contains_name(&bosses, c),
        None => false,
    };
    if boss_split && boss < u64::MAX {
        boss = boss + 1;
    }
    let eye_split = settings.split_on_eye_complete && boss < bosses.len() as u64 && changed
        && match flag {
        Some((_, c)) => contains_name(&eye_flag_list(), c),
        None => false,
    };
    let arm = settings.split_on_bad_ending && changed && match flag {
        Some((o, _)) => contains_text(o, "DISABLE_SAVING"),
        None => false,
    } && match count {
        Some((_, c)) => c == 2,
        None => false,
    };
    lose = lose || arm;
    let bad_split = settings.split_on_bad_ending && lose && match game_state {
        Some((o, c)) => o == 4 && c == 3,
        None => false,
    };
    let abandon = match map {
        Some((_, c)) => wide_equals(c, "/Game/Maps/TitleNMainMenu"),
        None => false,
    } || match count {
        Some((_, c)) => c > 10,
        None => false,
    };
    if settings.split_on_bad_ending && (bad_split || abandon) {
        lose = false;
    }
    *session = Session {
        start_on_gain_control: armed,
        split_on_lose_control: lose,
        boss_splits_triggered: boss,
    };
    let mut actions: Vec<TimerAction> = Vec::new();
    push_if(&mut actions, reset, TimerAction::Reset);
    push_if(&mut actions, start, TimerAction::Start);
    if pause {
        actions.push(TimerAction::PauseGameTime);
    } else {
        actions.push(TimerAction::ResumeGameTime);
    }
    push_if(&mut actions, boss_split, TimerAction::Split);
    push_if(&mut actions, eye_split, TimerAction::Split);
    push_if(&mut actions, bad_split, TimerAction::Split);
    actions
}

} // verus!
