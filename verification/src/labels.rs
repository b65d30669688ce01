//! Text shown by the timeline: block identifiers, track names, the clock and button labels.

use vstd::prelude::*;
use vstd::string::*;
use crate::decimal::{
    decimal, lemma_decimal_injective, lemma_zero_padded_injective, push_decimal, push_zero_padded,
    zero_padded,
};

verus! {

/// `"BLK"` followed by the block number, zero-padded to five digits.
pub open spec fn block_id_text(n: nat) -> Seq<char> {
    seq!['B', 'L', 'K'] + zero_padded(n, 5)
}

/// `"Track "` followed by the track number.
pub open spec fn track_name_text(n: nat) -> Seq<char> {
    seq!['T', 'r', 'a', 'c', 'k', ' '] + decimal(n)
}

/// `"track"` followed by the track number.
pub open spec fn track_id_text(n: nat) -> Seq<char> {
    seq!['t', 'r', 'a', 'c', 'k'] + decimal(n)
}

/// The name shown for a track that has no stored name: `"Track "` followed by its id.
pub open spec fn fallback_name_text(id: Seq<char>) -> Seq<char> {
    seq!['T', 'r', 'a', 'c', 'k', ' '] + id
}

/// `mm:ss:cc`, each field zero-padded to at least two digits.
pub open spec fn clock_text(minutes: nat, seconds: nat, centiseconds: nat) -> Seq<char> {
    zero_padded(minutes, 2) + seq![':'] + zero_padded(seconds, 2) + seq![':'] + zero_padded(
        centiseconds,
        2,
    )
}

/// `"Add Track (n)"`.
pub open spec fn add_track_label_text(count: nat) -> Seq<char> {
    seq!['A', 'd', 'd', ' ', 'T', 'r', 'a', 'c', 'k', ' ', '('] + decimal(count) + seq![')']
}

/// Block identifiers of distinct block numbers differ.
pub proof fn lemma_block_ids_distinct(n: nat, m: nat)
    requires
        n != m,
    ensures
        block_id_text(n) != block_id_text(m),
{
    if block_id_text(n) == block_id_text(m) {
        assert(zero_padded(n, 5) =~= block_id_text(n).skip(3));
        assert(zero_padded(m, 5) =~= block_id_text(m).skip(3));
        lemma_zero_padded_injective(n, m, 5);
    }
}

/// Generated track names of distinct numbers differ.
pub proof fn lemma_track_names_distinct(n: nat, m: nat)
    requires
        n != m,
    ensures
        track_name_text(n) != track_name_text(m),
{
    if track_name_text(n) == track_name_text(m) {
        assert(decimal(n) =~= track_name_text(n).skip(6));
        assert(decimal(m) =~= track_name_text(m).skip(6));
        lemma_decimal_injective(n, m);
    }
}

/// Generated track ids of distinct numbers differ.
pub proof fn lemma_track_ids_distinct(n: nat, m: nat)
    requires
        n != m,
    ensures
        track_id_text(n) != track_id_text(m),
{
    if track_id_text(n) == track_id_text(m) {
        assert(decimal(n) =~= track_id_text(n).skip(5));
        assert(decimal(m) =~= track_id_text(m).skip(5));
        lemma_decimal_injective(n, m);
    }
}

/// The identifier of block number `n`, such as `BLK00001`.
pub fn block_id(n: u32) -> (s: String)
    ensures
        s@ == block_id_text(n as nat),
{
    let mut s = String::new();
    proof {
        reveal_strlit("BLK");
    }
    s.append("BLK");
    assert(s@ =~= seq!['B', 'L', 'K']);
    push_zero_padded(&mut s, n as u64, 5);
    s
}

/// The generated name of track number `n`, such as `Track 3`.
pub fn track_name(n: usize) -> (s: String)
    ensures
        s@ == track_name_text(n as nat),
{
    let mut s = String::new();
    proof {
        reveal_strlit("Track ");
    }
    s.append("Track ");
    assert(s@ =~= seq!['T', 'r', 'a', 'c', 'k', ' ']);
    push_decimal(&mut s, n as u64);
    s
}

/// The generated id of track number `n`, such as `track3`.
pub fn track_id(n: usize) -> (s: String)
    ensures
        s@ == track_id_text(n as nat),
{
    let mut s = String::new();
    proof {
        reveal_strlit("track");
    }
    s.append("track");
    assert(s@ =~= seq!['t', 'r', 'a', 'c', 'k']);
    push_decimal(&mut s, n as u64);
    s
}

/// The name shown for a track whose name is not stored.
pub fn fallback_name(id: &String) -> (s: String)
    ensures
        s@ == fallback_name_text(id@),
{
    let mut s = String::new();
    proof {
        reveal_strlit("Track ");
    }
    s.append("Track ");
    assert(s@ =~= seq!['T', 'r', 'a', 'c', 'k', ' ']);
    s.append(id.as_str());
    s
}

/// The playhead time as `mm:ss:cc`.
pub fn clock(minutes: u32, seconds: u32, centiseconds: u32) -> (s: String)
    ensures
        s@ == clock_text(minutes as nat, seconds as nat, centiseconds as nat),
{
    let mut s = String::new();
    push_zero_padded(&mut s, minutes as u64, 2);
    proof {
        reveal_strlit(":");
    }
    s.append(":");
    push_zero_padded(&mut s, seconds as u64, 2);
    s.append(":");
    push_zero_padded(&mut s, centiseconds as u64, 2);
    assert(":"@ =~= seq![':']);
    assert(s@ =~= clock_text(minutes as nat, seconds as nat, centiseconds as nat));
    s
}

/// The label of the button that adds a track, showing the current track count.
pub fn add_track_label(count: usize) -> (s: String)
    ensures
        s@ == add_track_label_text(count as nat),
{
    let mut s = String::new();
    proof {
        reveal_strlit("Add Track (");
        reveal_strlit(")");
    }
    s.append("Add Track (");
    assert(s@ =~= seq!['A', 'd', 'd', ' ', 'T', 'r', 'a', 'c', 'k', ' ', '(']);
    push_decimal(&mut s, count as u64);
    s.append(")");
    assert(")"@ =~= seq![')']);
    assert(s@ =~= add_track_label_text(count as nat));
    s
}

/// A number as text, as written next to a ruler bar line.
pub fn number_label(n: u32) -> (s: String)
    ensures
        s@ == decimal(n as nat),
{
    let mut s = String::new();
    push_decimal(&mut s, n as u64);
    assert(s@ =~= decimal(n as nat));
    s
}

} // verus!
