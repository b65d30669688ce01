use ams_timeline::interaction::{
    block_press, delta_source, panel_at, panel_name, scroll_action, track_response, BlockPress,
    DeltaSource, Panel, PanelProbe, ScrollAction, SelectionStep, TrackDragState, TrackPointer,
};
use ams_timeline::ruler::{becomes_last_line, label_number, ruler_mark, RulerLabels, RulerMark};
use ams_timeline::types::TimeSig;

fn pointer() -> TrackPointer {
    TrackPointer {
        has_pos: true,
        pressed: false,
        down: false,
        released: false,
        secondary_pressed: false,
        over_track: true,
        over_timeline: true,
    }
}

fn drag() -> TrackDragState {
    TrackDragState {
        has_selection_api: true,
        has_playhead_api: true,
        dragging_this_track: false,
        dragging_block: false,
        on_block: false,
    }
}

#[test]
fn press_on_track_moves_playhead_and_starts_selection() {
    let r = track_response(TrackPointer { pressed: true, down: true, ..pointer() }, drag());
    assert!(r.set_playhead);
    assert_eq!(r.selection, SelectionStep::StartDrag);
}

#[test]
fn press_on_block_does_not_start_selection() {
    let r = track_response(
        TrackPointer { pressed: true, ..pointer() },
        TrackDragState { on_block: true, ..drag() },
    );
    assert!(r.set_playhead);
    assert_eq!(r.selection, SelectionStep::Keep);
}

#[test]
fn block_drag_freezes_playhead() {
    let r = track_response(
        TrackPointer { down: true, ..pointer() },
        TrackDragState { dragging_block: true, ..drag() },
    );
    assert!(!r.set_playhead);
    let r = track_response(
        TrackPointer { pressed: true, down: true, ..pointer() },
        TrackDragState { dragging_block: true, ..drag() },
    );
    assert!(r.set_playhead);
}

#[test]
fn right_click_clears_selection() {
    let r = track_response(
        TrackPointer { secondary_pressed: true, pressed: true, over_track: false, ..pointer() },
        drag(),
    );
    assert!(!r.set_playhead);
    assert_eq!(r.selection, SelectionStep::ClearAll);
}

#[test]
fn drag_updates_then_finishes() {
    let d = TrackDragState { dragging_this_track: true, ..drag() };
    let r = track_response(TrackPointer { down: true, over_track: false, ..pointer() }, d);
    assert_eq!(r.selection, SelectionStep::UpdateDrag);
    assert!(!r.set_playhead);
    let r = track_response(TrackPointer { released: true, ..pointer() }, d);
    assert_eq!(r.selection, SelectionStep::FinishDrag);
    let r = track_response(TrackPointer { released: true, ..pointer() }, drag());
    assert_eq!(r.selection, SelectionStep::Keep);
}

#[test]
fn no_pointer_or_no_handlers_means_nothing() {
    let r = track_response(TrackPointer { has_pos: false, pressed: true, ..pointer() }, drag());
    assert!(!r.set_playhead);
    assert_eq!(r.selection, SelectionStep::Keep);
    let r = track_response(
        TrackPointer { pressed: true, ..pointer() },
        TrackDragState { has_selection_api: false, has_playhead_api: false, ..drag() },
    );
    assert!(!r.set_playhead);
    assert_eq!(r.selection, SelectionStep::Keep);
}

#[test]
fn scroll_delta_preference() {
    assert_eq!(delta_source(true, false, false), DeltaSource::Raw);
    assert_eq!(delta_source(true, true, false), DeltaSource::Smooth);
    assert_eq!(delta_source(false, false, false), DeltaSource::Smooth);
    assert_eq!(delta_source(false, false, true), DeltaSource::Raw);
}

#[test]
fn scroll_actions() {
    assert_eq!(scroll_action(false, true, false, true, true), ScrollAction::Ignore);
    assert_eq!(scroll_action(true, true, false, false, true), ScrollAction::Zoom);
    assert_eq!(scroll_action(true, true, false, false, false), ScrollAction::Ignore);
    assert_eq!(scroll_action(true, false, true, true, false), ScrollAction::ScrollHorizontally);
    assert_eq!(scroll_action(true, false, false, true, true), ScrollAction::ScrollHorizontally);
    assert_eq!(scroll_action(true, false, true, false, true), ScrollAction::Ignore);
    assert_eq!(scroll_action(true, false, false, false, true), ScrollAction::Ignore);
}

#[test]
fn block_press_targets() {
    assert_eq!(block_press(true, true, true, true, true), Some(BlockPress::LeftEdge));
    assert_eq!(block_press(true, true, false, true, true), Some(BlockPress::RightEdge));
    assert_eq!(block_press(true, false, false, false, true), Some(BlockPress::Body));
    assert_eq!(block_press(false, true, true, true, true), Some(BlockPress::Body));
    assert_eq!(block_press(true, true, false, false, false), None);
}

fn probe() -> PanelProbe {
    PanelProbe {
        in_top_panel: false,
        in_bottom_bar: false,
        outside_content_rows: false,
        left_of_timeline: false,
        within_timeline_right: true,
        above_tracks: false,
        within_tracks_bottom: true,
    }
}

#[test]
fn panels_under_the_pointer() {
    assert_eq!(panel_at(PanelProbe { in_top_panel: true, in_bottom_bar: true, ..probe() }), Some(Panel::TopPanel));
    assert_eq!(panel_at(PanelProbe { in_bottom_bar: true, ..probe() }), Some(Panel::BottomBar));
    assert_eq!(panel_at(PanelProbe { outside_content_rows: true, ..probe() }), None);
    assert_eq!(panel_at(PanelProbe { left_of_timeline: true, above_tracks: true, ..probe() }), Some(Panel::HeaderRulerMarker));
    assert_eq!(panel_at(PanelProbe { left_of_timeline: true, ..probe() }), Some(Panel::TrackHeader));
    assert_eq!(panel_at(PanelProbe { above_tracks: true, ..probe() }), Some(Panel::RulerMarker));
    assert_eq!(panel_at(probe()), Some(Panel::Tracks));
    assert_eq!(panel_at(PanelProbe { within_tracks_bottom: false, ..probe() }), Some(Panel::BelowTracks));
    assert_eq!(panel_at(PanelProbe { within_timeline_right: false, ..probe() }), None);
}

#[test]
fn panel_names() {
    assert_eq!(panel_name(Panel::TopPanel), "Top Panel");
    assert_eq!(panel_name(Panel::BottomBar), "Bottom Bar (Global)");
    assert_eq!(panel_name(Panel::HeaderRulerMarker), "Header (Ruler/Marker)");
    assert_eq!(panel_name(Panel::TrackHeader), "Track Header");
    assert_eq!(panel_name(Panel::RulerMarker), "Ruler/Marker");
    assert_eq!(panel_name(Panel::Tracks), "Tracks");
    assert_eq!(panel_name(Panel::BelowTracks), "Timeline Area Below Tracks");
}

#[test]
fn ruler_marks() {
    assert_eq!(ruler_mark(true, true, 3), RulerMark::BarLine);
    assert_eq!(ruler_mark(false, true, 3), RulerMark::Skip);
    assert_eq!(ruler_mark(false, false, 4), RulerMark::StepEven);
    assert_eq!(ruler_mark(false, false, 7), RulerMark::StepOdd);
    assert!(becomes_last_line(true, true));
    assert!(becomes_last_line(false, false));
    assert!(!becomes_last_line(false, true));
}

#[test]
fn ruler_label_numbers() {
    assert_eq!(label_number(7, Some(16)), 7);
    assert_eq!(label_number(16, Some(16)), 16);
    assert_eq!(label_number(17, Some(16)), 16);
    assert_eq!(label_number(600, None), 500);
    assert_eq!(label_number(12, None), 12);
}

#[test]
fn ruler_never_repeats_a_number() {
    let mut labels = RulerLabels::new();
    assert!(labels.should_draw(0));
    labels.record(0);
    assert!(!labels.should_draw(0));
    assert!(labels.should_draw(1));
    labels.record(1);
    assert!(!labels.should_draw(1));
}

#[test]
fn time_signature_fields() {
    let sig = TimeSig { top: 3, bottom: 4 };
    let copy = sig;
    assert_eq!(copy, TimeSig { top: 3, bottom: 4 });
    assert_ne!(copy, TimeSig { top: 4, bottom: 4 });
}
