use solar_split::splitter::{tick, Session, Settings, TimerAction};

const INTRO: &str = "/Game/Maps/Cutscenes/Opening_Master";
const TITLE: &str = "/Game/Maps/TitleNMainMenu";

fn wide(s: &str) -> Vec<u16> {
    let mut v: Vec<u16> = s.encode_utf16().collect();
    v.resize(35, 0);
    v
}

fn settings(boss: bool, bad: bool, eye: bool) -> Settings {
    Settings { split_on_boss_kills: boss, split_on_bad_ending: bad, split_on_eye_complete: eye }
}

fn session(armed: bool, lose: bool, boss: u64) -> Session {
    Session { start_on_gain_control: armed, split_on_lose_control: lose, boss_splits_triggered: boss }
}

fn count(actions: &[TimerAction], a: TimerAction) -> usize {
    actions.iter().filter(|x| **x == a).count()
}

#[test]
fn default_settings_split_on_bosses_only() {
    assert_eq!(Settings::default(), settings(true, false, false));
    assert_eq!(Session::new(), session(false, false, 0));
}

#[test]
fn run_start_on_gain_of_control() {
    let mut s = session(true, true, 4);
    let r = tick(&Settings::default(), &mut s, Some((3, 4)), None, None, None);
    assert_eq!(count(&r, TimerAction::Start), 1);
    assert_eq!(r, vec![TimerAction::Start, TimerAction::ResumeGameTime]);
    assert_eq!(s, session(false, false, 0));
}

#[test]
fn no_start_when_not_armed() {
    let mut s = session(false, false, 2);
    let r = tick(&Settings::default(), &mut s, Some((3, 4)), None, None, None);
    assert_eq!(r, vec![TimerAction::ResumeGameTime]);
    assert_eq!(s, session(false, false, 2));
}

#[test]
fn boss_kill_splits_once() {
    let mut s = session(false, false, 1);
    let old = "X".to_string();
    let cur = "Vale_Starseed_Remnant".to_string();
    let r = tick(&Settings::default(), &mut s, Some((4, 4)), Some((5, 6)), None, Some((&old, &cur)));
    assert_eq!(count(&r, TimerAction::Split), 1);
    assert_eq!(r, vec![TimerAction::ResumeGameTime, TimerAction::Split]);
    assert_eq!(s.boss_splits_triggered, 2);
}

#[test]
fn unchanged_flag_does_not_split() {
    let mut s = session(false, false, 1);
    let cur = "Vale_Starseed_Remnant".to_string();
    let r = tick(&Settings::default(), &mut s, Some((4, 4)), None, None, Some((&cur, &cur)));
    assert_eq!(count(&r, TimerAction::Split), 0);
    assert_eq!(s.boss_splits_triggered, 1);
}

#[test]
fn boss_split_off_when_disabled() {
    let mut s = session(false, false, 1);
    let old = "X".to_string();
    let cur = "Shroom_Overflow_Remnant".to_string();
    let r = tick(&settings(false, false, false), &mut s, Some((4, 4)), None, None, Some((&old, &cur)));
    assert_eq!(count(&r, TimerAction::Split), 0);
    assert_eq!(s.boss_splits_triggered, 1);
}

#[test]
fn eye_split_only_below_boss_total() {
    let old = "X".to_string();
    let cur = "Vale_StaticRemnantD".to_string();
    let mut s = session(false, false, 5);
    let r = tick(&settings(true, false, true), &mut s, Some((4, 4)), None, None, Some((&old, &cur)));
    assert_eq!(r, vec![TimerAction::ResumeGameTime, TimerAction::Split]);
    let mut done = session(false, false, 6);
    let r = tick(&settings(true, false, true), &mut done, Some((4, 4)), None, None, Some((&old, &cur)));
    assert_eq!(r, vec![TimerAction::ResumeGameTime]);
}

#[test]
fn bad_ending_arms_and_splits_on_loss_of_control() {
    let set = settings(true, true, false);
    let mut s = session(false, false, 6);
    let old = "Final_DISABLE_SAVING_Flag".to_string();
    let cur = "Next".to_string();
    let r = tick(&set, &mut s, Some((4, 4)), Some((1, 2)), None, Some((&old, &cur)));
    assert_eq!(count(&r, TimerAction::Split), 0);
    assert!(s.split_on_lose_control);
    let r = tick(&set, &mut s, Some((4, 3)), Some((2, 2)), None, Some((&cur, &cur)));
    assert_eq!(r, vec![TimerAction::ResumeGameTime, TimerAction::Split]);
    assert!(!s.split_on_lose_control);
}

#[test]
fn bad_ending_needs_exact_flag_count() {
    let set = settings(true, true, false);
    let mut s = session(false, false, 6);
    let old = "Final_DISABLE_SAVING_Flag".to_string();
    let cur = "Next".to_string();
    tick(&set, &mut s, Some((4, 4)), Some((2, 3)), None, Some((&old, &cur)));
    assert!(!s.split_on_lose_control);
}

#[test]
fn bad_ending_abandoned_at_title() {
    let set = settings(true, true, false);
    let mut s = session(false, true, 6);
    let title = wide(TITLE);
    let r = tick(&set, &mut s, Some((4, 4)), None, Some((&title, &title)), None);
    assert!(!s.split_on_lose_control);
    assert_eq!(count(&r, TimerAction::Split), 0);
    let r = tick(&set, &mut s, Some((4, 3)), None, Some((&title, &title)), None);
    assert_eq!(count(&r, TimerAction::Split), 0);
}

#[test]
fn bad_ending_abandoned_past_ten_flags() {
    let set = settings(true, true, false);
    let mut s = session(false, true, 6);
    tick(&set, &mut s, Some((4, 4)), Some((10, 11)), None, None);
    assert!(!s.split_on_lose_control);
}

#[test]
fn pause_when_game_state_absent() {
    let mut s = session(false, false, 0);
    let r = tick(&Settings::default(), &mut s, None, None, None, None);
    assert_eq!(count(&r, TimerAction::PauseGameTime), 1);
    assert_eq!(count(&r, TimerAction::ResumeGameTime), 0);
}

#[test]
fn pause_outside_play_and_at_title() {
    let mut s = session(false, false, 0);
    let r = tick(&Settings::default(), &mut s, Some((4, 2)), None, None, None);
    assert_eq!(r, vec![TimerAction::PauseGameTime]);
    let title = wide(TITLE);
    let r = tick(&Settings::default(), &mut s, Some((4, 4)), None, Some((&title, &title)), None);
    assert_eq!(r, vec![TimerAction::PauseGameTime]);
}

#[test]
fn reset_on_entering_intro() {
    let mut s = session(false, false, 3);
    let title = wide(TITLE);
    let intro = wide(INTRO);
    let r = tick(&Settings::default(), &mut s, Some((3, 3)), None, Some((&title, &intro)), None);
    assert_eq!(count(&r, TimerAction::Reset), 1);
    assert_eq!(r, vec![TimerAction::Reset, TimerAction::ResumeGameTime]);
    assert!(s.start_on_gain_control);
    let r = tick(&Settings::default(), &mut s, Some((3, 3)), None, Some((&intro, &intro)), None);
    assert_eq!(count(&r, TimerAction::Reset), 0);
    assert!(s.start_on_gain_control);
}

#[test]
fn map_match_needs_terminator_or_full_buffer() {
    let mut s = session(false, false, 0);
    let mut near = wide(TITLE);
    near[TITLE.len()] = u16::from(b'X');
    let r = tick(&Settings::default(), &mut s, Some((4, 4)), None, Some((&near, &near)), None);
    assert_eq!(r, vec![TimerAction::ResumeGameTime]);
}
