use ams_timeline::model::{
    clamp_bar_number, seconds_from_field, total_seconds_after_edit, BlockIds, TimelineController,
    TimelineView, TrackManager,
};
use ams_timeline::str_map::StrMap;

fn s(x: &str) -> String {
    x.to_string()
}

fn demo() -> TrackManager {
    let mut t = TrackManager::new();
    t.add_track(s("track1"), s("Track 1"));
    t.add_track(s("track2"), s("Track 2"));
    t
}

#[test]
fn str_map_insert_get_remove() {
    let mut m: StrMap<String> = StrMap::new();
    assert_eq!(m.len(), 0);
    m.insert(s("a"), s("one"));
    m.insert(s("b"), s("two"));
    m.insert(s("a"), s("uno"));
    assert_eq!(m.len(), 2);
    assert_eq!(m.get(&s("a")), Some(&s("uno")));
    assert!(m.contains_key(&s("b")));
    assert!(m.contains_value(&s("two")));
    assert!(!m.contains_value(&s("one")));
    m.remove(&s("a"));
    assert_eq!(m.get(&s("a")), None);
    assert_eq!(m.len(), 1);
    m.remove(&s("zzz"));
    assert_eq!(m.len(), 1);
}

#[test]
fn demo_tracks() {
    let t = demo();
    assert_eq!(t.track_count(), 2);
    assert_eq!(t.track_ids(), &vec![s("track1"), s("track2")]);
    assert_eq!(t.name_of(&s("track2")), "Track 2");
    assert_eq!(t.name_of(&s("ghost")), "Track ghost");
    assert!(!t.is_solo(&s("track1")));
    assert!(!t.is_mute(&s("track1")));
    assert!(!t.has_selected_track());
    assert_eq!(t.selected_track_id(), None);
}

#[test]
fn add_track_waits_for_the_next_frame() {
    let c = TimelineController::new();
    let _v = TimelineView::new();
    let mut t = demo();
    c.process_pending_add_track(&mut t);
    assert_eq!(t.track_count(), 2);
    c.request_add_track(&mut t);
    assert_eq!(t.track_count(), 2);
    c.process_pending_add_track(&mut t);
    assert_eq!(t.track_count(), 3);
    assert_eq!(t.track_ids()[2], "track3");
    assert_eq!(t.name_of(&s("track3")), "Track 3");
    c.process_pending_add_track(&mut t);
    assert_eq!(t.track_count(), 3);
}

#[test]
fn added_track_skips_names_in_use() {
    let c = TimelineController::new();
    let mut t = demo();
    t.rename(s("track1"), s("Track 3"));
    t.rename(s("track2"), s("Track 4"));
    c.request_add_track(&mut t);
    c.process_pending_add_track(&mut t);
    assert_eq!(t.track_ids()[2], "track5");
    assert_eq!(t.name_of(&s("track5")), "Track 5");
}

#[test]
fn added_track_may_reuse_an_id_whose_name_changed() {
    let c = TimelineController::new();
    let mut t = demo();
    t.select_track(s("track1"), false);
    let removed = c.remove_selected_track(&mut t);
    assert_eq!(removed, vec![s("track1")]);
    t.rename(s("track2"), s("Lead"));
    c.request_add_track(&mut t);
    c.process_pending_add_track(&mut t);
    assert_eq!(t.track_ids(), &vec![s("track2"), s("track2")]);
    assert_eq!(t.name_of(&s("track2")), "Track 2");
}

#[test]
fn selection_by_click_and_shift_click() {
    let mut t = demo();
    t.select_track(s("track1"), false);
    assert!(t.is_selected(&s("track1")));
    assert_eq!(t.selected_track_id(), Some(s("track1")));
    t.select_track(s("track2"), true);
    assert!(t.is_selected(&s("track1")));
    assert!(t.is_selected(&s("track2")));
    assert_eq!(t.selected_track_id(), Some(s("track2")));
    t.select_track(s("track1"), true);
    assert_eq!(t.selected_track_id(), Some(s("track1")));
    t.select_track(s("track2"), false);
    assert!(!t.is_selected(&s("track1")));
    assert!(t.has_selected_track());
}

#[test]
fn removing_selected_tracks() {
    let c = TimelineController::new();
    let mut t = demo();
    t.add_track(s("track3"), s("Track 3"));
    t.toggle_solo(s("track2"));
    t.select_track(s("track1"), false);
    t.select_track(s("track2"), true);
    let removed = c.remove_selected_track(&mut t);
    assert_eq!(removed, vec![s("track1"), s("track2")]);
    assert_eq!(t.track_ids(), &vec![s("track3")]);
    assert_eq!(t.name_of(&s("track2")), "Track track2");
    assert!(!t.is_solo(&s("track2")));
    assert!(!t.has_selected_track());
    assert_eq!(t.selected_track_id(), None);
}

#[test]
fn removing_without_selection_does_nothing() {
    let c = TimelineController::new();
    let mut t = demo();
    let removed = c.remove_selected_track(&mut t);
    assert!(removed.is_empty());
    assert_eq!(t.track_count(), 2);
}

#[test]
fn solo_and_mute_toggle_back() {
    let mut t = demo();
    t.toggle_solo(s("track1"));
    assert!(t.is_solo(&s("track1")));
    assert!(!t.is_mute(&s("track1")));
    t.toggle_solo(s("track1"));
    assert!(!t.is_solo(&s("track1")));
    t.toggle_mute(s("new"));
    assert!(t.is_mute(&s("new")));
    t.toggle_mute(s("new"));
    assert!(!t.is_mute(&s("new")));
}

#[test]
fn block_ids_count_up_from_one() {
    let mut ids = BlockIds::new();
    assert_eq!(ids.peek(), 1);
    assert_eq!(ids.next_id(), "BLK00001");
    assert_eq!(ids.next_id(), "BLK00002");
    assert_eq!(ids.peek(), 3);
}

#[test]
fn total_seconds_rules() {
    assert_eq!(seconds_from_field(3), 16);
    assert_eq!(seconds_from_field(-5), 16);
    assert_eq!(seconds_from_field(40), 40);
    assert_eq!(total_seconds_after_edit(20, 0), 20);
    assert_eq!(total_seconds_after_edit(10, 0), 16);
    assert_eq!(total_seconds_after_edit(20, 31), 31);
    assert_eq!(total_seconds_after_edit(500, 31), 500);
}

#[test]
fn bar_numbers_stay_on_the_timeline() {
    assert_eq!(clamp_bar_number(3, 500), 3);
    assert_eq!(clamp_bar_number(499, 500), 499);
    assert_eq!(clamp_bar_number(500, 500), 499);
    assert_eq!(clamp_bar_number(9000, 16), 15);
}
