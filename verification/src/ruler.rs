//! The rules of the musical ruler: which mark each line gets and which bar numbers
//! are written.

use vstd::prelude::*;

verus! {

/// The bar number written when the timeline's end is unknown.
pub const FALLBACK_LAST_SECOND: u32 = 500;

/// The mark drawn for a line of the ruler.
#[derive(Clone, Copy, Debug, PartialEq, Eq, Structural)]
pub enum RulerMark {
    /// A whole second: a long line, drawn even when close to the previous one.
    BarLine,
    /// A tenth of a second with an even index: a medium line.
    StepEven,
    /// A tenth of a second with an odd index: a short line.
    StepOdd,
    /// Too close to the previous line: nothing is drawn.
    Skip,
}

/// Whole seconds are always marked; subdivisions only when not too close to the previous
/// line, alternating in length by the parity of their index.
pub open spec fn ruler_mark_spec(is_whole_second: bool, too_close: bool, subdivision_index: nat) -> RulerMark {
    if is_whole_second {
        RulerMark::BarLine
    } else if too_close {
        RulerMark::Skip
    } else if subdivision_index % 2 == 0 {
        RulerMark::StepEven
    } else {
        RulerMark::StepOdd
    }
}

/// The mark for a ruler line.
pub fn ruler_mark(is_whole_second: bool, too_close: bool, subdivision_index: usize) -> (m: RulerMark)
    ensures
        m == ruler_mark_spec(is_whole_second, too_close, subdivision_index as nat),
        is_whole_second ==> m == RulerMark::BarLine,
        !is_whole_second ==> m != RulerMark::BarLine,
        !is_whole_second && too_close ==> m == RulerMark::Skip,
{
    if is_whole_second {
        RulerMark::BarLine
    } else if too_close {
        RulerMark::Skip
    } else if subdivision_index % 2 == 0 {
        RulerMark::StepEven
    } else {
        RulerMark::StepOdd
    }
}

/// Whether a line becomes the reference for the "too close" test of the next one: any
/// line that was drawn.
pub fn becomes_last_line(is_whole_second: bool, too_close: bool) -> (b: bool)
    ensures
        b == (!too_close || is_whole_second),
{
    !too_close || is_whole_second
}

/// The bar number written at a whole second, held to the last second of the timeline
/// (or to the fallback when that is unknown).
pub open spec fn label_number_spec(bar_number: nat, last_second: Option<u32>) -> nat {
    let limit: nat = match last_second {
        Some(m) => m as nat,
        None => FALLBACK_LAST_SECOND as nat,
    };
    if bar_number > limit {
        limit
    } else {
        bar_number
    }
}

/// The bar number written at a whole second.
pub fn label_number(bar_number: u32, last_second: Option<u32>) -> (n: u32)
    ensures
        n == label_number_spec(bar_number as nat, last_second),
{
    let limit = match last_second {
        Some(m) => m,
        None => FALLBACK_LAST_SECOND,
    };
    if bar_number > limit {
        limit
    } else {
        bar_number
    }
}

/// Remembers the last bar number written on the ruler, so that no number is written
/// twice in a row.
pub struct RulerLabels {
    last_drawn: Option<u32>,
}

impl RulerLabels {
    /// No number written yet.
    pub fn new() -> (r: Self)
        ensures
            r.last() == None::<u32>,
    {
        RulerLabels { last_drawn: None }
    }

    /// The last number written.
    pub closed spec fn last(&self) -> Option<u32> {
        self.last_drawn
    }

    /// Whether `bar_number` may be written: it differs from the last number written.
    pub fn should_draw(&self, bar_number: u32) -> (b: bool)
        ensures
            b == (self.last() != Some(bar_number)),
    {
        match self.last_drawn {
            None => true,
            Some(last) => bar_number != last,
        }
    }

    /// Records that `bar_number` was written.
    pub fn record(&mut self, bar_number: u32)
        ensures
            final(self).last() == Some(bar_number),
    {
        self.last_drawn = Some(bar_number);
    }
}

/// Written bar numbers never repeat: the numbers proposed along the ruler do not
/// decrease (the label number is monotone in the bar number), so a number that passes
/// `should_draw` is strictly greater than the last one written.
pub proof fn lemma_written_numbers_increase(labels: RulerLabels, bar_number: u32)
    requires
        labels.last() matches Some(prev) && prev <= bar_number,
        labels.last() != Some(bar_number),
    ensures
        labels.last()->Some_0 < bar_number,
{
}

/// Later whole seconds never get a smaller bar number.
pub proof fn lemma_label_number_monotone(a: nat, b: nat, last_second: Option<u32>)
    requires
        a <= b,
    ensures
        label_number_spec(a, last_second) <= label_number_spec(b, last_second),
{
}

/// A whole-second line always gets the bar mark, whether or not it is too close to the
/// previous line and whatever its subdivision index; no other line gets it.
pub proof fn lemma_whole_seconds_get_bar_lines(is_whole_second: bool, too_close: bool, subdivision_index: nat)
    ensures
        is_whole_second <==> ruler_mark_spec(is_whole_second, too_close, subdivision_index)
            == RulerMark::BarLine,
{
}

/// A subdivision that is too close to the previous line is skipped; one that is not is
/// drawn, with the medium mark exactly when its index is even.
pub proof fn lemma_subdivision_marks(too_close: bool, subdivision_index: nat)
    ensures
        too_close ==> ruler_mark_spec(false, too_close, subdivision_index) == RulerMark::Skip,
        !too_close ==> (ruler_mark_spec(false, too_close, subdivision_index) == RulerMark::StepEven
            <==> subdivision_index % 2 == 0),
        !too_close ==> ruler_mark_spec(false, too_close, subdivision_index) != RulerMark::Skip,
{
}

} // verus!
