//! The decisions that the timeline widgets take on pointer and keyboard input.
//!
//! Geometry is measured by the caller; these functions receive the outcome of each
//! measurement (is the pointer over the track, is a line too close to the previous one)
//! and decide what the widget does.

use vstd::prelude::*;

verus! {

/// The pointer as seen by a track in one frame.
#[derive(Clone, Copy, Debug, PartialEq, Eq, Structural)]
pub struct TrackPointer {
    /// The pointer has a position this frame.
    pub has_pos: bool,
    /// The primary button went down this frame.
    pub pressed: bool,
    /// The primary button is held.
    pub down: bool,
    /// The primary button went up this frame.
    pub released: bool,
    /// The secondary button went down this frame.
    pub secondary_pressed: bool,
    /// The pointer is over this track's own area.
    pub over_track: bool,
    /// The pointer is over the timeline area of all tracks.
    pub over_timeline: bool,
}

/// What a track knows of the drag state when the pointer arrives.
#[derive(Clone, Copy, Debug, PartialEq, Eq, Structural)]
pub struct TrackDragState {
    /// A selection handler is attached.
    pub has_selection_api: bool,
    /// A playhead handler is attached.
    pub has_playhead_api: bool,
    /// A selection drag that started on this track is in progress.
    pub dragging_this_track: bool,
    /// A block is being moved or resized.
    pub dragging_block: bool,
    /// The pointer is over a block of this track.
    pub on_block: bool,
}

/// The step that the selection of a track takes.
#[derive(Clone, Copy, Debug, PartialEq, Eq, Structural)]
pub enum SelectionStep {
    /// Nothing changes.
    Keep,
    /// Every selection is cleared.
    ClearAll,
    /// All selections are cleared and a new drag starts at the pointer.
    StartDrag,
    /// The drag in progress is extended to the pointer.
    UpdateDrag,
    /// The drag in progress ends: a short one clears the selections, a longer one
    /// becomes the only selection.
    FinishDrag,
}

/// What a track does with the pointer in one frame.
#[derive(Clone, Copy, Debug, PartialEq, Eq, Structural)]
pub struct TrackResponse {
    /// The playhead moves to the pointer.
    pub set_playhead: bool,
    /// The step of the selection.
    pub selection: SelectionStep,
}

/// Whether a track moves the playhead to the pointer: on a primary press over the
/// track, or while the button is held over it unless a block is being dragged.
pub open spec fn moves_playhead(p: TrackPointer, d: TrackDragState) -> bool {
    &&& d.has_playhead_api
    &&& p.has_pos
    &&& p.over_track
    &&& !p.secondary_pressed
    &&& (p.pressed || (p.down && !d.dragging_block))
}

/// The selection step of a track for this frame.
pub open spec fn selection_step(p: TrackPointer, d: TrackDragState) -> SelectionStep {
    if !d.has_selection_api || !p.has_pos {
        SelectionStep::Keep
    } else if p.secondary_pressed && p.over_timeline {
        SelectionStep::ClearAll
    } else if p.pressed && p.over_track && !p.secondary_pressed {
        if d.on_block {
            SelectionStep::Keep
        } else {
            SelectionStep::StartDrag
        }
    } else if p.down && d.dragging_this_track && !p.secondary_pressed {
        SelectionStep::UpdateDrag
    } else if p.released && d.dragging_this_track {
        SelectionStep::FinishDrag
    } else {
        SelectionStep::Keep
    }
}

/// Decides what a track does with the pointer: move the playhead, and which step the
/// selection takes.
pub fn track_response(pointer: TrackPointer, drag: TrackDragState) -> (r: TrackResponse)
    ensures
        r.set_playhead == moves_playhead(pointer, drag),
        r.selection == selection_step(pointer, drag),
        drag.has_playhead_api && pointer.has_pos && pointer.over_track && !pointer.secondary_pressed
            && pointer.down && !drag.dragging_block ==> r.set_playhead,
{
    let set_playhead = drag.has_playhead_api && pointer.has_pos && pointer.over_track
        && !pointer.secondary_pressed && (pointer.pressed || (pointer.down
        && !drag.dragging_block));
    let selection = if !drag.has_selection_api || !pointer.has_pos {
        SelectionStep::Keep
    } else if pointer.secondary_pressed && pointer.over_timeline {
        SelectionStep::ClearAll
    } else if pointer.pressed && pointer.over_track && !pointer.secondary_pressed {
        if drag.on_block {
            SelectionStep::Keep
        } else {
            SelectionStep::StartDrag
        }
    } else if pointer.down && drag.dragging_this_track && !pointer.secondary_pressed {
        SelectionStep::UpdateDrag
    } else if pointer.released && drag.dragging_this_track {
        SelectionStep::FinishDrag
    } else {
        SelectionStep::Keep
    };
    TrackResponse { set_playhead, selection }
}

/// Which of the two scroll deltas that the input reports is used.
#[derive(Clone, Copy, Debug, PartialEq, Eq, Structural)]
pub enum DeltaSource {
    /// The unsmoothed delta.
    Raw,
    /// The smoothed delta.
    Smooth,
}

/// With ctrl held the raw delta is preferred (for an immediate zoom), otherwise the
/// smooth one; the other is taken when the preferred one is zero.
pub open spec fn delta_source_spec(ctrl: bool, raw_is_zero: bool, smooth_is_zero: bool) -> DeltaSource {
    if ctrl {
        if !raw_is_zero {
            DeltaSource::Raw
        } else {
            DeltaSource::Smooth
        }
    } else {
        if !smooth_is_zero {
            DeltaSource::Smooth
        } else {
            DeltaSource::Raw
        }
    }
}

/// Chooses the scroll delta to act on.
pub fn delta_source(ctrl: bool, raw_is_zero: bool, smooth_is_zero: bool) -> (s: DeltaSource)
    ensures
        s == delta_source_spec(ctrl, raw_is_zero, smooth_is_zero),
{
    if ctrl {
        if !raw_is_zero {
            DeltaSource::Raw
        } else {
            DeltaSource::Smooth
        }
    } else {
        if !smooth_is_zero {
            DeltaSource::Smooth
        } else {
            DeltaSource::Raw
        }
    }
}

/// What a scroll over the timeline does.
#[derive(Clone, Copy, Debug, PartialEq, Eq, Structural)]
pub enum ScrollAction {
    /// Nothing.
    Ignore,
    /// Zoom by the vertical minus the horizontal delta.
    Zoom,
    /// Shift the visible range horizontally by the horizontal delta.
    ScrollHorizontally,
}

/// Ctrl with any movement zooms; otherwise a horizontal movement scrolls the timeline
/// (vertical movement is left to the track list).
pub open spec fn scroll_action_spec(
    pointer_over: bool,
    ctrl: bool,
    shift: bool,
    dx_nonzero: bool,
    dy_nonzero: bool,
) -> ScrollAction {
    if !pointer_over {
        ScrollAction::Ignore
    } else if ctrl {
        if dx_nonzero || dy_nonzero {
            ScrollAction::Zoom
        } else {
            ScrollAction::Ignore
        }
    } else if (shift || dx_nonzero) && dx_nonzero {
        ScrollAction::ScrollHorizontally
    } else {
        ScrollAction::Ignore
    }
}

/// Decides what a scroll over the timeline does.
pub fn scroll_action(
    pointer_over: bool,
    ctrl: bool,
    shift: bool,
    dx_nonzero: bool,
    dy_nonzero: bool,
) -> (a: ScrollAction)
    ensures
        a == scroll_action_spec(pointer_over, ctrl, shift, dx_nonzero, dy_nonzero),
        pointer_over && !ctrl && dx_nonzero ==> a == ScrollAction::ScrollHorizontally,
{
    if !pointer_over {
        ScrollAction::Ignore
    } else if ctrl {
        if dx_nonzero || dy_nonzero {
            ScrollAction::Zoom
        } else {
            ScrollAction::Ignore
        }
    } else if shift || dx_nonzero {
        if dx_nonzero {
            ScrollAction::ScrollHorizontally
        } else {
            ScrollAction::Ignore
        }
    } else {
        ScrollAction::Ignore
    }
}

/// Where a primary press on a block lands.
#[derive(Clone, Copy, Debug, PartialEq, Eq, Structural)]
pub enum BlockPress {
    /// On the left edge: resizing from the left starts.
    LeftEdge,
    /// On the right edge: resizing from the right starts.
    RightEdge,
    /// Inside the block: moving the block starts.
    Body,
}

/// A press in the zone around a block's edges resizes from the nearer edge when that
/// edge is close enough (the left edge only when it is strictly nearer); otherwise a
/// press inside the block moves it.
pub open spec fn block_press_spec(
    in_edge_zone: bool,
    near_left: bool,
    left_nearer: bool,
    near_right: bool,
    in_block: bool,
) -> Option<BlockPress> {
    if in_edge_zone && near_left && left_nearer {
        Some(BlockPress::LeftEdge)
    } else if in_edge_zone && near_right {
        Some(BlockPress::RightEdge)
    } else if in_block {
        Some(BlockPress::Body)
    } else {
        None
    }
}

/// Decides where a press on a block lands.
pub fn block_press(
    in_edge_zone: bool,
    near_left: bool,
    left_nearer: bool,
    near_right: bool,
    in_block: bool,
) -> (r: Option<BlockPress>)
    ensures
        r == block_press_spec(in_edge_zone, near_left, left_nearer, near_right, in_block),
        in_edge_zone && near_right && !(near_left && left_nearer) ==> r == Some(BlockPress::RightEdge),
{
    let mut r: Option<BlockPress> = None;
    if in_edge_zone {
        if near_left && left_nearer {
            r = Some(BlockPress::LeftEdge);
        } else if near_right {
            r = Some(BlockPress::RightEdge);
        }
    }
    if r.is_none() && in_block {
        r = Some(BlockPress::Body);
    }
    r
}

/// The area of the timeline widget under the pointer.
#[derive(Clone, Copy, Debug, PartialEq, Eq, Structural)]
pub enum Panel {
    TopPanel,
    BottomBar,
    HeaderRulerMarker,
    TrackHeader,
    RulerMarker,
    Tracks,
    BelowTracks,
}

/// Where the pointer stands relative to the parts of the widget.
#[derive(Clone, Copy, Debug, PartialEq, Eq, Structural)]
pub struct PanelProbe {
    /// Inside the top panel.
    pub in_top_panel: bool,
    /// Inside the bottom bar.
    pub in_bottom_bar: bool,
    /// Above the top or below the bottom of the content rows.
    pub outside_content_rows: bool,
    /// Left of the timeline area (over the headers).
    pub left_of_timeline: bool,
    /// Not right of the timeline area.
    pub within_timeline_right: bool,
    /// Above the first track.
    pub above_tracks: bool,
    /// Not below the last track.
    pub within_tracks_bottom: bool,
}

/// The panel under the pointer; the top panel wins over the bottom bar, which wins
/// over the content rows.
pub open spec fn panel_at_spec(p: PanelProbe) -> Option<Panel> {
    if p.in_top_panel {
        Some(Panel::TopPanel)
    } else if p.in_bottom_bar {
        Some(Panel::BottomBar)
    } else if p.outside_content_rows {
        None
    } else if p.left_of_timeline {
        if p.above_tracks {
            Some(Panel::HeaderRulerMarker)
        } else {
            Some(Panel::TrackHeader)
        }
    } else if p.within_timeline_right {
        if p.above_tracks {
            Some(Panel::RulerMarker)
        } else if p.within_tracks_bottom {
            Some(Panel::Tracks)
        } else {
            Some(Panel::BelowTracks)
        }
    } else {
        None
    }
}

/// The panel under the pointer.
pub fn panel_at(p: PanelProbe) -> (r: Option<Panel>)
    ensures
        r == panel_at_spec(p),
        !p.in_top_panel && !p.in_bottom_bar && !p.outside_content_rows && p.left_of_timeline
            && !p.above_tracks ==> r == Some(Panel::TrackHeader),
{
    if p.in_top_panel {
        return Some(Panel::TopPanel);
    }
    if p.in_bottom_bar {
        return Some(Panel::BottomBar);
    }
    if p.outside_content_rows {
        return None;
    }
    if p.left_of_timeline {
        if p.above_tracks {
            Some(Panel::HeaderRulerMarker)
        } else {
            Some(Panel::TrackHeader)
        }
    } else if p.within_timeline_right {
        if p.above_tracks {
            Some(Panel::RulerMarker)
        } else if p.within_tracks_bottom {
            Some(Panel::Tracks)
        } else {
            Some(Panel::BelowTracks)
        }
    } else {
        None
    }
}

/// The name of a panel as shown to the user.
pub open spec fn panel_name_text(p: Panel) -> Seq<char> {
    match p {
        Panel::TopPanel => "Top Panel"@,
        Panel::BottomBar => "Bottom Bar (Global)"@,
        Panel::HeaderRulerMarker => "Header (Ruler/Marker)"@,
        Panel::TrackHeader => "Track Header"@,
        Panel::RulerMarker => "Ruler/Marker"@,
        Panel::Tracks => "Tracks"@,
        Panel::BelowTracks => "Timeline Area Below Tracks"@,
    }
}

/// The name of a panel as shown to the user.
pub fn panel_name(p: Panel) -> (s: &'static str)
    ensures
        s@ == panel_name_text(p),
{
    match p {
        Panel::TopPanel => "Top Panel",
        Panel::BottomBar => "Bottom Bar (Global)",
        Panel::HeaderRulerMarker => "Header (Ruler/Marker)",
        Panel::TrackHeader => "Track Header",
        Panel::RulerMarker => "Ruler/Marker",
        Panel::Tracks => "Tracks",
        Panel::BelowTracks => "Timeline Area Below Tracks",
    }
}

/// While the primary button is held over a track (no secondary press, no block being
/// dragged) and a playhead handler is attached, the playhead follows the pointer, whether or
/// not the press happened this frame.
pub proof fn lemma_held_button_moves_playhead(p: TrackPointer, d: TrackDragState)
    requires
        d.has_playhead_api,
        p.has_pos,
        p.over_track,
        !p.secondary_pressed,
        p.down,
        !d.dragging_block,
    ensures
        moves_playhead(p, d),
{
}

/// Over the timeline without ctrl, a nonzero horizontal delta scrolls the timeline
/// horizontally, whatever shift and the vertical delta are.
pub proof fn lemma_horizontal_delta_scrolls(shift: bool, dy_nonzero: bool)
    ensures
        scroll_action_spec(true, false, shift, true, dy_nonzero) == ScrollAction::ScrollHorizontally,
{
}

/// Without ctrl, a scroll with no horizontal movement never moves the timeline sideways
/// (vertical movement is left to the track list), and with ctrl a scroll never does.
pub proof fn lemma_no_sideways_scroll_without_dx(pointer_over: bool, ctrl: bool, shift: bool, dx_nonzero: bool, dy_nonzero: bool)
    requires
        !dx_nonzero || ctrl,
    ensures
        scroll_action_spec(pointer_over, ctrl, shift, dx_nonzero, dy_nonzero) != ScrollAction::ScrollHorizontally,
{
}

/// A press in the edge zone near the right edge, and not on a left edge that is near and
/// nearer, resizes from the right edge, whether or not the left edge is also near and
/// whether or not the press is inside the block.
pub proof fn lemma_right_edge_press(near_left: bool, left_nearer: bool, in_block: bool)
    requires
        !(near_left && left_nearer),
    ensures
        block_press_spec(true, near_left, left_nearer, true, in_block) == Some(BlockPress::RightEdge),
{
}

/// A press in the edge zone on a left edge that is near and nearer resizes from the left.
pub proof fn lemma_left_edge_press(near_right: bool, in_block: bool)
    ensures
        block_press_spec(true, true, true, near_right, in_block) == Some(BlockPress::LeftEdge),
{
}

/// Inside the content rows and left of the timeline, a pointer not above the tracks is on
/// the track header column, whatever its position relative to the last track's bottom and
/// to the timeline's right edge.
pub proof fn lemma_header_column_below_ruler(within_timeline_right: bool, within_tracks_bottom: bool)
    ensures
        panel_at_spec(
            PanelProbe {
                in_top_panel: false,
                in_bottom_bar: false,
                outside_content_rows: false,
                left_of_timeline: true,
                within_timeline_right,
                above_tracks: false,
                within_tracks_bottom,
            },
        ) == Some(Panel::TrackHeader),
{
}

} // verus!
