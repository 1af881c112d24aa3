//! Level-based (polling) debounce of the pushbutton.
//!
//! The caller reads the raw line level once per tick and hands it to
//! [`Button::handle_pressed`]. One bit of memory — whether the current press
//! has already been reported — distinguishes a fresh press from a held one,
//! so a press is reported exactly once however long the button stays down.

use vstd::prelude::*;

verus! {

/// Debounce state for one pushbutton whose line is polled by the caller.
///
/// The raw input line itself stays with the platform layer; each poll hands
/// the level read from it to [`Button::handle_pressed`].
pub struct Button {
    /// Whether the press currently in progress has already been reported.
    pub handled: bool,
}

/// Whether a poll that reads `level` reports a fresh press, given the
/// debounce memory `handled` from before the poll.
pub open spec fn fresh_press(handled: bool, level: bool) -> bool {
    level && !handled
}

/// The debounce memory after a poll that reads `level`: a high level means
/// the press in progress is (now) reported, a low level clears the memory.
pub open spec fn handled_next(handled: bool, level: bool) -> bool {
    level
}

/// The debounce memory after a whole sequence of polls reading `levels`,
/// starting from a freshly constructed button.
pub open spec fn handled_after(levels: Seq<bool>) -> bool
    decreases levels.len(),
{
    if levels.len() == 0 {
        false
    } else {
        handled_next(handled_after(levels.drop_last()), levels.last())
    }
}

/// What poll number `i` of the sequence `levels` reports, starting from a
/// freshly constructed button.
pub open spec fn poll_result(levels: Seq<bool>, i: int) -> bool {
    fresh_press(handled_after(levels.take(i)), levels[i])
}

impl Button {
    /// A button with no press in progress and nothing reported yet.
    pub fn new() -> (b: Button)
        ensures
            !b.handled,
    {
        Button { handled: false }
    }

    /// Answers "has the button produced a new press since I last asked?",
    /// given the level just read from the line: true exactly when the line
    /// is high and the press has not been reported before.
    pub fn handle_pressed(&mut self, level: bool) -> (fresh: bool)
        ensures
            fresh == fresh_press(old(self).handled, level),
            final(self).handled == handled_next(old(self).handled, level),
    {
        if level {
            if !self.handled {
                self.handled = true;
                return true;
            }
        } else {
            if self.handled {
                self.handled = false;
            }
        }
        false
    }
}

/// Law: over any sequence of polls starting from a fresh button,
/// `handle_pressed` reports a press at poll `i` exactly when the line reads
/// high at `i` and read low at the poll before (or there was no poll
/// before). So within each maximal run of consecutive high reads it reports
/// true at the first poll and false at every later one, and it reports
/// false at every poll of a low read: exactly once per contiguous press.
pub proof fn lemma_pressed_once_per_press(levels: Seq<bool>, i: int)
    requires
        0 <= i < levels.len(),
    ensures
        poll_result(levels, i) == (levels[i] && (i == 0 || !levels[i - 1])),
{
    if i == 0 {
        assert(levels.take(0).len() == 0);
    } else {
        assert(levels.take(i).last() == levels[i - 1]);
        assert(handled_after(levels.take(i)) == levels[i - 1]);
    }
}

} // verus!
