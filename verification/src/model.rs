//! The track model of the timeline editor and the controller rules that change it.

use vstd::prelude::*;
use crate::labels::{
    block_id, block_id_text, fallback_name, fallback_name_text, lemma_track_names_distinct,
    track_id, track_id_text, track_name, track_name_text,
};
use crate::str_map::StrMap;

verus! {

/// The strings of a sequence, each by its view.
pub open spec fn views(v: Seq<String>) -> Seq<Seq<char>> {
    v.map_values(|s: String| s@)
}

/// An optional string by its view.
pub open spec fn opt_view(o: Option<String>) -> Option<Seq<char>> {
    match o {
        Some(s) => Some(s@),
        None => None,
    }
}

/// What the track model holds.
pub ghost struct TrackState {
    /// The tracks in display order (an id may occur more than once).
    pub ids: Seq<Seq<char>>,
    /// The name of each track, by id.
    pub names: Map<Seq<char>, Seq<char>>,
    /// The solo switch of each track, by id (absent means off).
    pub solo: Map<Seq<char>, bool>,
    /// The mute switch of each track, by id (absent means off).
    pub mute: Map<Seq<char>, bool>,
    /// The primary selected track.
    pub selected: Option<Seq<char>>,
    /// All selected tracks, in the order they were selected.
    pub selected_ids: Seq<Seq<char>>,
    /// Whether adding a track was requested and not yet done.
    pub pending_add: bool,
}

/// A switch stored in `m` for `id`; a missing entry reads as off.
pub open spec fn flag(m: Map<Seq<char>, bool>, id: Seq<char>) -> bool {
    m.contains_key(id) && m[id]
}

/// The name shown for track `id`: its stored name, else `"Track "` and the id.
pub open spec fn shown_name(s: TrackState, id: Seq<char>) -> Seq<char> {
    if s.names.contains_key(id) {
        s.names[id]
    } else {
        fallback_name_text(id)
    }
}

/// Whether some track already carries `name`.
pub open spec fn name_taken(names: Map<Seq<char>, Seq<char>>, name: Seq<char>) -> bool {
    names.values().contains(name)
}

/// `num` is the first number from `start` on whose generated name no track carries.
pub open spec fn first_free_number(names: Map<Seq<char>, Seq<char>>, start: nat, num: nat) -> bool {
    &&& start <= num
    &&& !name_taken(names, track_name_text(num))
    &&& forall|k: nat| start <= k < num ==> name_taken(names, #[trigger] track_name_text(k))
}

/// The tracks that removing the selection removes: all selected tracks, or else the
/// primary selected one.
pub open spec fn removal_targets(s: TrackState) -> Seq<Seq<char>> {
    if s.selected_ids.len() > 0 {
        s.selected_ids
    } else {
        match s.selected {
            Some(id) => seq![id],
            None => Seq::empty(),
        }
    }
}

/// The selection after clicking track `id`, with or without shift held.
pub open spec fn selection_after_click(selected_ids: Seq<Seq<char>>, id: Seq<char>, shift: bool) -> Seq<
    Seq<char>,
> {
    if shift {
        if selected_ids.contains(id) {
            selected_ids
        } else {
            selected_ids.push(id)
        }
    } else {
        seq![id]
    }
}

/// A switch map with the switch of `id` flipped.
pub open spec fn toggled(m: Map<Seq<char>, bool>, id: Seq<char>) -> Map<Seq<char>, bool> {
    m.insert(id, !flag(m, id))
}

/// The model after track number `num` was added for a pending request.
pub open spec fn after_add(s: TrackState, num: nat) -> TrackState {
    TrackState {
        ids: s.ids.push(track_id_text(num)),
        names: s.names.insert(track_id_text(num), track_name_text(num)),
        pending_add: false,
        ..s
    }
}

/// The model after the selected tracks were removed.
pub open spec fn after_removal(s: TrackState) -> TrackState {
    let targets = removal_targets(s);
    if targets.len() == 0 {
        s
    } else {
        TrackState {
            ids: s.ids.filter(|id: Seq<char>| !targets.contains(id)),
            names: s.names.remove_keys(targets.to_set()),
            solo: s.solo.remove_keys(targets.to_set()),
            mute: s.mute.remove_keys(targets.to_set()),
            selected: None,
            selected_ids: Seq::empty(),
            pending_add: s.pending_add,
        }
    }
}

/// Keys of tracks whose name is a generated name with a number of at least `num`.
pub open spec fn numbered_from(names: Map<Seq<char>, Seq<char>>, num: nat) -> Set<Seq<char>> {
    Set::new(
        |k: Seq<char>|
            names.dom().contains(k) && exists|j: nat| j >= num && names[k] == #[trigger] track_name_text(j),
    )
}

/// Whether `v` holds a string equal to `s`.
fn contains_str(v: &Vec<String>, s: &String) -> (b: bool)
    ensures
        b == views(v@).contains(s@),
{
    let mut i: usize = 0;
    while i < v.len()
        invariant
            i <= v@.len(),
            forall|j: int| 0 <= j < i ==> v@[j]@ != s@,
        decreases v@.len() - i,
    {
        if v[i] == *s {
            assert(views(v@)[i as int] == s@);
            return true;
        }
        i = i + 1;
    }
    proof {
        if views(v@).contains(s@) {
            let j = choose|j: int| 0 <= j < views(v@).len() && views(v@)[j] == s@;
            assert(v@[j]@ == s@);
        }
    }
    false
}

/// A copy of a vector of strings.
fn clone_strings(v: &Vec<String>) -> (r: Vec<String>)
    ensures
        views(r@) == views(v@),
{
    let mut r: Vec<String> = Vec::new();
    let mut i: usize = 0;
    while i < v.len()
        invariant
            i <= v@.len(),
            views(r@) == views(v@).take(i as int),
        decreases v@.len() - i,
    {
        let ghost before = r@;
        assert(views(before).len() == before.len());
        assert(before.len() == i);
        let c = v[i].clone();
        assert(c@ == v@[i as int]@);
        r.push(c);
        assert(r@ == before.push(c));
        assert forall|k: int| 0 <= k < i + 1 implies views(r@)[k] == views(v@).take(i + 1)[k] by {
            if k < i {
                assert(views(before)[k] == views(v@).take(i as int)[k]);
            }
        }
        assert(views(r@) =~= views(v@).take(i + 1));
        i = i + 1;
    }
    assert(views(v@).take(v@.len() as int) =~= views(v@));
    r
}

/// The tracks of the timeline: their order, names, solo and mute switches and selection.
pub struct TrackManager {
    track_names: StrMap<String>,
    track_ids: Vec<String>,
    selected_track_id: Option<String>,
    selected_track_ids: Vec<String>,
    pending_add_track: bool,
    track_solo: StrMap<bool>,
    track_mute: StrMap<bool>,
}

impl View for TrackManager {
    type V = TrackState;

    closed spec fn view(&self) -> TrackState {
        TrackState {
            ids: views(self.track_ids@),
            names: self.track_names@,
            solo: self.track_solo@,
            mute: self.track_mute@,
            selected: opt_view(self.selected_track_id),
            selected_ids: views(self.selected_track_ids@),
            pending_add: self.pending_add_track,
        }
    }
}

impl TrackManager {
    /// A model with no tracks.
    pub fn new() -> (m: Self)
        ensures
            m@ == (TrackState {
                ids: Seq::empty(),
                names: Map::empty(),
                solo: Map::empty(),
                mute: Map::empty(),
                selected: None,
                selected_ids: Seq::empty(),
                pending_add: false,
            }),
    {
        let m = TrackManager {
            track_names: StrMap::new(),
            track_ids: Vec::new(),
            selected_track_id: None,
            selected_track_ids: Vec::new(),
            pending_add_track: false,
            track_solo: StrMap::new(),
            track_mute: StrMap::new(),
        };
        assert(views(m.track_ids@) =~= Seq::empty());
        assert(views(m.selected_track_ids@) =~= Seq::empty());
        m
    }

    /// Adds a track with the given id and name, with solo and mute off.
    pub fn add_track(&mut self, track_id: String, track_name: String)
        ensures
            final(self)@ == (TrackState {
                ids: old(self)@.ids.push(track_id@),
                names: old(self)@.names.insert(track_id@, track_name@),
                solo: old(self)@.solo.insert(track_id@, false),
                mute: old(self)@.mute.insert(track_id@, false),
                ..old(self)@
            }),
    {
        let ghost old_ids = self.track_ids@;
        self.track_ids.push(track_id.clone());
        assert(views(self.track_ids@) =~= views(old_ids).push(track_id@));
        self.track_names.insert(track_id.clone(), track_name);
        self.track_solo.insert(track_id.clone(), false);
        self.track_mute.insert(track_id, false);
    }

    /// The number of tracks.
    pub fn track_count(&self) -> (n: usize)
        ensures
            n == self@.ids.len(),
    {
        self.track_ids.len()
    }

    /// The number of tracks that have a stored name.
    pub fn name_count(&self) -> (n: usize)
        ensures
            n == self@.names.len(),
    {
        self.track_names.len()
    }

    /// The track ids in display order.
    pub fn track_ids(&self) -> (ids: &Vec<String>)
        ensures
            views(ids@) == self@.ids,
    {
        &self.track_ids
    }

    /// The name shown for track `id`.
    pub fn name_of(&self, id: &String) -> (name: String)
        ensures
            name@ == shown_name(self@, id@),
    {
        match self.track_names.get(id) {
            Some(name) => name.clone(),
            None => fallback_name(id),
        }
    }

    /// Stores a new name for track `id`.
    pub fn rename(&mut self, id: String, name: String)
        ensures
            final(self)@ == (TrackState { names: old(self)@.names.insert(id@, name@), ..old(self)@ }),
    {
        self.track_names.insert(id, name);
    }

    /// Whether track `id` is soloed.
    pub fn is_solo(&self, id: &String) -> (b: bool)
        ensures
            b == flag(self@.solo, id@),
    {
        match self.track_solo.get(id) {
            Some(b) => *b,
            None => false,
        }
    }

    /// Whether track `id` is muted.
    pub fn is_mute(&self, id: &String) -> (b: bool)
        ensures
            b == flag(self@.mute, id@),
    {
        match self.track_mute.get(id) {
            Some(b) => *b,
            None => false,
        }
    }

    /// Flips the solo switch of track `id`.
    pub fn toggle_solo(&mut self, id: String)
        ensures
            final(self)@ == (TrackState { solo: toggled(old(self)@.solo, id@), ..old(self)@ }),
    {
        let state = self.is_solo(&id);
        self.track_solo.insert(id, !state);
    }

    /// Flips the mute switch of track `id`.
    pub fn toggle_mute(&mut self, id: String)
        ensures
            final(self)@ == (TrackState { mute: toggled(old(self)@.mute, id@), ..old(self)@ }),
    {
        let state = self.is_mute(&id);
        self.track_mute.insert(id, !state);
    }

    /// Selects track `id` after a click on it: with shift held the track joins the
    /// selection, otherwise it becomes the only selected track. Either way it becomes
    /// the primary selection.
    pub fn select_track(&mut self, id: String, shift: bool)
        ensures
            final(self)@ == (TrackState {
                selected: Some(id@),
                selected_ids: selection_after_click(old(self)@.selected_ids, id@, shift),
                ..old(self)@
            }),
            old(self)@.selected_ids.no_duplicates() ==> final(self)@.selected_ids.no_duplicates(),
    {
        let ghost old_sel = self.selected_track_ids@;
        if shift {
            if !contains_str(&self.selected_track_ids, &id) {
                self.selected_track_ids.push(id.clone());
                assert(views(self.selected_track_ids@) =~= views(old_sel).push(id@));
            }
        } else {
            self.selected_track_ids = vec![id.clone()];
            assert(views(self.selected_track_ids@) =~= seq![id@]);
        }
        self.selected_track_id = Some(id);
    }

    /// Whether track `id` is among the selected tracks.
    pub fn is_selected(&self, id: &String) -> (b: bool)
        ensures
            b == self@.selected_ids.contains(id@),
    {
        contains_str(&self.selected_track_ids, id)
    }

    /// Whether any track is selected.
    pub fn has_selected_track(&self) -> (b: bool)
        ensures
            b == (self@.selected_ids.len() > 0),
    {
        self.selected_track_ids.len() > 0
    }

    /// The primary selected track.
    pub fn selected_track_id(&self) -> (id: Option<String>)
        ensures
            opt_view(id) == self@.selected,
    {
        match &self.selected_track_id {
            Some(id) => Some(id.clone()),
            None => None,
        }
    }
}

/// The rules that change the model in response to the toolbar.
pub struct TimelineController;

impl TimelineController {
    pub fn new() -> (c: Self) {
        TimelineController
    }

    /// Asks for a track to be added at the start of the next frame.
    pub fn request_add_track(&self, tracks: &mut TrackManager)
        ensures
            final(tracks)@ == (TrackState { pending_add: true, ..old(tracks)@ }),
    {
        tracks.pending_add_track = true;
    }

    /// Adds the requested track, if one was requested: it is numbered from the track
    /// count plus one upwards, skipping every number whose name a track already carries,
    /// and gets the id `track` followed by that number.
    pub fn process_pending_add_track(&self, tracks: &mut TrackManager)
        requires
            old(tracks)@.ids.len() + old(tracks)@.names.len() < usize::MAX,
        ensures
            !old(tracks)@.pending_add ==> final(tracks)@ == old(tracks)@,
            old(tracks)@.pending_add ==> exists|num: nat|
                {
                    &&& #[trigger] first_free_number(old(tracks)@.names, old(tracks)@.ids.len() + 1, num)
                    &&& final(tracks)@ == after_add(old(tracks)@, num)
                },
    {
        if !tracks.pending_add_track {
            return;
        }
        tracks.pending_add_track = false;
        let ghost pre = tracks@;
        let ghost names = tracks@.names;
        proof {
            tracks.track_names.lemma_finite();
        }
        let start = tracks.track_ids.len() + 1;
        let mut num = start;
        let mut name = track_name(num);
        proof {
            vstd::set_lib::lemma_len_subset(numbered_from(names, num as nat), names.dom());
        }
        while tracks.track_names.contains_value(&name)
            invariant
                tracks@ == pre,
                names == pre.names,
                names.dom().finite(),
                start == pre.ids.len() + 1,
                start <= num,
                name@ == track_name_text(num as nat),
                forall|k: nat| start <= k < num ==> name_taken(names, #[trigger] track_name_text(k)),
                numbered_from(names, num as nat).finite(),
                (num - start) + numbered_from(names, num as nat).len() <= names.dom().len(),
                pre.ids.len() + names.len() < usize::MAX,
            decreases numbered_from(names, num as nat).len(),
        {
            proof {
                let now = numbered_from(names, num as nat);
                let next = numbered_from(names, (num + 1) as nat);
                let k0 = choose|k: Seq<char>| names.dom().contains(k) && names[k] == name@;
                assert(now.contains(k0));
                assert forall|k: Seq<char>| next.contains(k) implies now.remove(k0).contains(k) by {
                    let j = choose|j: nat| j >= num + 1 && names[k] == #[trigger] track_name_text(j);
                    assert(now.contains(k));
                    if k == k0 {
                        lemma_track_names_distinct(j, num as nat);
                    }
                }
                vstd::set_lib::lemma_len_subset(next, now.remove(k0));
            }
            num = num + 1;
            name = track_name(num);
        }
        let new_id = track_id(num);
        let ghost old_ids = tracks.track_ids@;
        tracks.track_ids.push(new_id.clone());
        assert(views(tracks.track_ids@) =~= views(old_ids).push(new_id@));
        tracks.track_names.insert(new_id, name);
        proof {
            assert(first_free_number(pre.names, pre.ids.len() + 1, num as nat));
        }
    }

    /// Removes the selected tracks (or, with no multi-selection, the primary selected
    /// track) together with their names and switches, and clears the selection.
    /// Returns the ids it removed, so that data kept elsewhere for them can go too.
    pub fn remove_selected_track(&self, tracks: &mut TrackManager) -> (removed: Vec<String>)
        ensures
            views(removed@) == removal_targets(old(tracks)@),
            final(tracks)@ == after_removal(old(tracks)@),
    {
        let ghost pre = tracks@;
        let ghost targets = removal_targets(pre);
        let mut ids_to_remove = clone_strings(&tracks.selected_track_ids);
        if ids_to_remove.len() == 0 {
            match &tracks.selected_track_id {
                Some(id) => {
                    ids_to_remove.push(id.clone());
                },
                None => {},
            }
        }
        assert(views(ids_to_remove@) =~= targets);
        if ids_to_remove.len() == 0 {
            return ids_to_remove;
        }
        let ghost keep = |id: Seq<char>| !targets.contains(id);
        let mut kept: Vec<String> = Vec::new();
        let mut i: usize = 0;
        while i < tracks.track_ids.len()
            invariant
                tracks@ == pre,
                views(ids_to_remove@) == targets,
                keep == (|id: Seq<char>| !targets.contains(id)),
                i <= pre.ids.len(),
                views(kept@) == pre.ids.take(i as int).filter(keep),
            decreases pre.ids.len() - i,
        {
            let ghost before = kept@;
            if !contains_str(&ids_to_remove, &tracks.track_ids[i]) {
                kept.push(tracks.track_ids[i].clone());
                assert(views(kept@) =~= views(before).push(pre.ids[i as int]));
            }
            proof {
                reveal(Seq::filter);
                assert(pre.ids.take(i + 1).drop_last() =~= pre.ids.take(i as int));
            }
            i = i + 1;
        }
        assert(pre.ids.take(pre.ids.len() as int) =~= pre.ids);
        tracks.track_ids = kept;
        let mut j: usize = 0;
        while j < ids_to_remove.len()
            invariant
                views(ids_to_remove@) == targets,
                j <= targets.len(),
                tracks@.names == pre.names.remove_keys(targets.take(j as int).to_set()),
                tracks@.solo == pre.solo.remove_keys(targets.take(j as int).to_set()),
                tracks@.mute == pre.mute.remove_keys(targets.take(j as int).to_set()),
                tracks@.ids == pre.ids.filter(keep),
                tracks@.selected == pre.selected,
                tracks@.selected_ids == pre.selected_ids,
                tracks@.pending_add == pre.pending_add,
            decreases targets.len() - j,
        {
            let id = &ids_to_remove[j];
            tracks.track_names.remove(id);
            tracks.track_solo.remove(id);
            tracks.track_mute.remove(id);
            proof {
                let before = targets.take(j as int).to_set();
                let after = targets.take(j + 1).to_set();
                assert(targets.take(j + 1) =~= targets.take(j as int).push(targets[j as int]));
                assert(after =~= before.insert(targets[j as int])) by {
                    targets.take(j as int).lemma_push_to_set_commute(targets[j as int]);
                }
                assert(tracks@.names =~= pre.names.remove_keys(after));
                assert(tracks@.solo =~= pre.solo.remove_keys(after));
                assert(tracks@.mute =~= pre.mute.remove_keys(after));
            }
            j = j + 1;
        }
        assert(targets.take(targets.len() as int) =~= targets);
        tracks.selected_track_ids = Vec::new();
        tracks.selected_track_id = None;
        assert(views(tracks.selected_track_ids@) =~= Seq::<Seq<char>>::empty());
        ids_to_remove
    }
}

/// Flipping a switch twice leaves every track's switch as it was.
pub proof fn lemma_toggle_twice(m: Map<Seq<char>, bool>, id: Seq<char>, other: Seq<char>)
    ensures
        flag(toggled(toggled(m, id), id), other) == flag(m, other),
{
}

/// The name of an added track is carried by no track before it, and the track list grows
/// by exactly that track.
pub proof fn lemma_added_track_is_new(s: TrackState, num: nat)
    requires
        first_free_number(s.names, s.ids.len() + 1, num),
    ensures
        forall|k: Seq<char>| s.names.contains_key(k) ==> s.names[k] != track_name_text(num),
        after_add(s, num).ids.len() == s.ids.len() + 1,
        after_add(s, num).ids.last() == track_id_text(num),
        after_add(s, num).names[track_id_text(num)] == track_name_text(num),
        !after_add(s, num).pending_add,
{
    assert forall|k: Seq<char>| s.names.contains_key(k) implies s.names[k] != track_name_text(
        num,
    ) by {
        if s.names[k] == track_name_text(num) {
            assert(s.names.values().contains(track_name_text(num)));
        }
    }
}

/// Removing the selection removes every targeted track with its name and switches,
/// keeps every other track in its order, and leaves nothing selected.
pub proof fn lemma_removal_removes_targets(s: TrackState)
    requires
        removal_targets(s).len() > 0,
    ensures
        forall|t: Seq<char>|
            removal_targets(s).contains(t) ==> {
                &&& !after_removal(s).ids.contains(t)
                &&& !after_removal(s).names.contains_key(t)
                &&& !after_removal(s).solo.contains_key(t)
                &&& !after_removal(s).mute.contains_key(t)
            },
        forall|t: Seq<char>|
            s.ids.contains(t) && !removal_targets(s).contains(t) ==> after_removal(s).ids.contains(t),
        after_removal(s).selected_ids.len() == 0,
        after_removal(s).selected == None::<Seq<char>>,
{
    let targets = removal_targets(s);
    let keep = |id: Seq<char>| !targets.contains(id);
    broadcast use vstd::seq_lib::group_filter_ensures;

    assert forall|t: Seq<char>| targets.contains(t) implies !after_removal(s).ids.contains(t) by {
        if after_removal(s).ids.contains(t) {
            let i = choose|i: int| 0 <= i < s.ids.filter(keep).len() && s.ids.filter(keep)[i] == t;
            s.ids.lemma_filter_pred(keep, i);
        }
    }
    assert forall|t: Seq<char>| s.ids.contains(t) && !targets.contains(t) implies after_removal(
        s,
    ).ids.contains(t) by {
        let i = choose|i: int| 0 <= i < s.ids.len() && s.ids[i] == t;
        s.ids.lemma_filter_contains(keep, i);
    }
}

/// The counter that names new blocks `BLK00001`, `BLK00002`, and so on.
pub struct BlockIds {
    next_block_id: u32,
}

impl BlockIds {
    /// Numbering starts at one.
    pub fn new() -> (ids: Self)
        ensures
            ids.next_number() == 1,
    {
        BlockIds { next_block_id: 1 }
    }

    /// The number that the next block will get.
    pub closed spec fn next_number(&self) -> nat {
        self.next_block_id as nat
    }

    /// The number that the next block will get.
    pub fn peek(&self) -> (n: u32)
        ensures
            n == self.next_number(),
    {
        self.next_block_id
    }

    /// Hands out the identifier of the next block and advances the counter.
    pub fn next_id(&mut self) -> (id: String)
        requires
            old(self).next_number() < u32::MAX,
        ensures
            id@ == block_id_text(old(self).next_number()),
            final(self).next_number() == old(self).next_number() + 1,
    {
        let id = block_id(self.next_block_id);
        self.next_block_id = self.next_block_id + 1;
        id
    }
}

/// The shortest timeline, in seconds.
pub const MIN_TOTAL_SECONDS: u32 = 16;

/// The length in seconds that the "Total" field asks for: never below the minimum.
pub fn seconds_from_field(value: i32) -> (seconds: u32)
    ensures
        seconds == if value < MIN_TOTAL_SECONDS { MIN_TOTAL_SECONDS as int } else { value as int },
{
    if value < 16 {
        16
    } else {
        value as u32
    }
}

/// The length in seconds that the timeline gets when `requested` is asked for: at least
/// the minimum, and never so short that the rightmost block (ending at
/// `rightmost_block_end` seconds, rounded up) falls off its end.
pub fn total_seconds_after_edit(requested: u32, rightmost_block_end: u32) -> (seconds: u32)
    ensures
        seconds >= requested,
        seconds >= rightmost_block_end,
        seconds >= MIN_TOTAL_SECONDS,
        seconds == requested || seconds == rightmost_block_end || seconds == MIN_TOTAL_SECONDS,
{
    let min_required = if rightmost_block_end > 16 {
        rightmost_block_end
    } else {
        16
    };
    if requested > min_required {
        requested
    } else {
        min_required
    }
}

/// The bar that a tick falls in, held to the last bar of a timeline of `total_seconds`
/// one-second bars.
pub fn clamp_bar_number(bar_number: u32, total_seconds: u32) -> (bar: u32)
    requires
        total_seconds >= 1,
    ensures
        bar == if bar_number < total_seconds { bar_number as int } else { total_seconds - 1 },
{
    if bar_number < total_seconds - 1 {
        bar_number
    } else {
        total_seconds - 1
    }
}

/// The view side of the editor holds no state of its own.
pub struct TimelineView;

impl TimelineView {
    pub fn new() -> (v: Self) {
        TimelineView
    }
}

} // verus!
