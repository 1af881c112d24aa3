//! The control loop's decisions: one tick of the chaser.
//!
//! Each tick the firmware polls the button, flips the direction of travel
//! on a fresh press, steps the lit position one place around the ring, and
//! drives the new position's line high before driving the old one low — in
//! that order, so the ring is never momentarily dark. The platform layer
//! runs the loop itself: it reads the line level, hands it to
//! [`Controller::tick`], mirrors the two level changes onto the physical
//! pins, and busy-waits out the tick interval.

use crate::led_wheel::{slot_of, LEDWheel};
use crate::polling::{fresh_press, handled_after, handled_next, Button};
use vstd::prelude::*;

verus! {

/// How many fresh presses a sequence of polls reading `levels` confirms,
/// starting from a fresh button: one per maximal run of high reads.
pub open spec fn press_count(levels: Seq<bool>) -> nat
    decreases levels.len(),
{
    if levels.len() == 0 {
        0
    } else {
        press_count(levels.drop_last()) + if fresh_press(
            handled_after(levels.drop_last()),
            levels.last(),
        ) {
            1nat
        } else {
            0nat
        }
    }
}

/// The direction after a sequence of polls reading `levels`, starting from
/// a fresh button and direction `delta`: flipped at each poll that confirms
/// a fresh press, kept at every other.
pub open spec fn delta_after(levels: Seq<bool>, delta: int) -> int
    decreases levels.len(),
{
    if levels.len() == 0 {
        delta
    } else {
        let before = delta_after(levels.drop_last(), delta);
        if fresh_press(handled_after(levels.drop_last()), levels.last()) {
            -before
        } else {
            before
        }
    }
}

/// Law: over any sequence of polls, the direction depends only on how many
/// fresh presses were confirmed — it flips exactly once per confirmed
/// press, so the polls of a held, already-reported press leave it alone.
pub proof fn lemma_direction_flips_once_per_press(levels: Seq<bool>, delta: int)
    ensures
        delta_after(levels, delta) == if press_count(levels) % 2 == 0 {
            delta
        } else {
            -delta
        },
    decreases levels.len(),
{
    if levels.len() > 0 {
        lemma_direction_flips_once_per_press(levels.drop_last(), delta);
    }
}

/// The position one step away from `index` in the direction `delta`,
/// wrapped around the ring.
pub fn next_index(index: usize, delta: i8) -> (next: usize)
    requires
        index < 8,
        delta == 1 || delta == -1,
    ensures
        next == slot_of(index + delta),
        next < 8,
        next != index,
{
    if delta == 1 {
        (index + 1) % 8
    } else {
        (index + 7) % 8
    }
}

/// The whole state the control loop carries from tick to tick: the
/// debounced button, the modelled ring, the lit position and the direction
/// of travel.
pub struct Controller {
    /// Debounce state of the user pushbutton.
    pub button: Button,
    /// The modelled levels of the eight ring lines.
    pub wheel: LEDWheel,
    /// The ring position the chaser stands at.
    pub index: usize,
    /// The signed unit step applied to the position each tick.
    pub delta: i8,
}

impl Controller {
    /// The state invariant: the position is a ring position and the
    /// direction is a signed unit.
    pub open spec fn wf(&self) -> bool {
        &&& self.index < 8
        &&& (self.delta == 1 || self.delta == -1)
    }

    /// No line except possibly the one at `slot` is lit.
    pub open spec fn lit_only_at(&self, slot: int) -> bool {
        forall|j: int| 0 <= j < 8 && j != slot ==> !self.wheel.lines()[j].high
    }

    /// Exactly the line at `slot` is lit.
    pub open spec fn lit_exactly_at(&self, slot: int) -> bool {
        forall|j: int| 0 <= j < 8 ==> (self.wheel.lines()[j].high <==> j == slot)
    }

    /// The loop state at power-on: nothing lit, direction forward, and the
    /// position at the last line so the first tick lights position 0.
    pub fn new() -> (c: Controller)
        ensures
            c.wf(),
            c.index == 7,
            c.delta == 1,
            !c.button.handled,
            c.lit_only_at(c.index as int),
            forall|j: int| 0 <= j < 8 ==> !c.wheel.lines()[j].high,
    {
        Controller { button: Button::new(), wheel: LEDWheel::new(), index: LEDWheel::COUNT - 1, delta: 1 }
    }

    /// One tick of the loop: polls the button with the level just read
    /// from the line, flips the direction exactly on a fresh press (a held,
    /// already-reported press leaves it alone), steps the position, and
    /// lights the new line before darkening the old one. Returns the two
    /// positions whose lines changed, new first, for the platform layer to
    /// mirror onto the pins in that order.
    pub fn tick(&mut self, level: bool) -> (changed: (usize, usize))
        requires
            old(self).wf(),
        ensures
            final(self).wf(),
            final(self).button.handled == handled_next(old(self).button.handled, level),
            final(self).delta == if fresh_press(old(self).button.handled, level) {
                -(old(self).delta as int)
            } else {
                old(self).delta as int
            },
            final(self).index == slot_of(old(self).index + final(self).delta),
            final(self).index != old(self).index,
            changed == (final(self).index, old(self).index),
            final(self).wheel.lines()[final(self).index as int].high,
            !final(self).wheel.lines()[old(self).index as int].high,
            forall|j: int|
                0 <= j < 8 && j != final(self).index && j != old(self).index
                    ==> final(self).wheel.lines()[j] == old(self).wheel.lines()[j],
            old(self).lit_only_at(old(self).index as int) ==> final(self).lit_exactly_at(
                final(self).index as int,
            ),
    {
        let fresh = self.button.handle_pressed(level);
        if fresh {
            self.delta = -self.delta;
        }
        let next = next_index(self.index, self.delta);
        let led = self.wheel.by_index(next);
        led.set_high();
        let led = self.wheel.by_index(self.index);
        led.set_low();
        let previous = self.index;
        self.index = next;
        (next, previous)
    }
}

} // verus!
