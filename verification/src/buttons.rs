//! Edge-based (interrupt-latch) detection of the pushbutton, and the
//! once-only initialised container through which the main loop and the
//! rising-edge handler share it.
//!
//! The platform layer binds a rising-edge interrupt to the input line; the
//! handler calls [`Button::record_press`] and the main loop consumes the
//! latch with [`Button::handle_pressed`]. Both reach the shared state only
//! through a [`ButtonsContainer`] held inside a critical section, so the
//! handler never observes a half-updated latch. The container turns the two
//! initialisation-order bugs — use before initialisation and a second
//! initialisation — into explicit [`FatalError`] values on which the caller
//! halts.

use vstd::prelude::*;

verus! {

/// A fatal startup error: a programmer error in initialisation order that
/// the caller must halt on rather than continue past.
#[derive(Clone, Copy, PartialEq, Eq, Structural, Debug)]
pub enum FatalError {
    /// The shared button state was used before it was constructed.
    UseBeforeInit,
    /// The shared button state was constructed a second time.
    DoubleInit,
}

/// Latch state for one pushbutton whose rising edges arrive as events.
///
/// The raw input line and its interrupt wiring stay with the platform
/// layer; the edge handler reports each rising edge by calling
/// [`Button::record_press`].
pub struct Button {
    /// Whether a rising edge has occurred since the latch was last read.
    pub pressed: bool,
}

/// One interaction with the latch: a rising edge on the line, or a
/// consumer read of the latch.
pub enum LatchEvent {
    Edge,
    Read,
}

/// The latch after one event: an edge sets it, a read clears it,
/// whatever it held before.
pub open spec fn latch_step(pressed: bool, event: LatchEvent) -> bool {
    match event {
        LatchEvent::Edge => true,
        LatchEvent::Read => false,
    }
}

/// The latch after a whole sequence of events, starting from a freshly
/// constructed button.
pub open spec fn latch_after(events: Seq<LatchEvent>) -> bool
    decreases events.len(),
{
    if events.len() == 0 {
        false
    } else {
        latch_step(latch_after(events.drop_last()), events.last())
    }
}

/// What the read at position `i` of the sequence `events` returns: the
/// latch as the events before `i` left it.
pub open spec fn read_result(events: Seq<LatchEvent>, i: int) -> bool {
    latch_after(events.take(i))
}

impl Button {
    /// A button with no edge latched.
    pub fn new() -> (b: Button)
        ensures
            !b.pressed,
    {
        Button { pressed: false }
    }

    /// Records a rising edge on the line: what the edge handler does to the
    /// state once the platform layer has re-armed the interrupt.
    pub fn record_press(&mut self)
        ensures
            final(self).pressed == latch_step(old(self).pressed, LatchEvent::Edge),
    {
        self.pressed = true;
    }

    /// Returns `true` if the button has been pressed since the last call:
    /// reads the latch and clears it, so each press is observed once.
    pub fn handle_pressed(&mut self) -> (was: bool)
        ensures
            was == old(self).pressed,
            final(self).pressed == latch_step(old(self).pressed, LatchEvent::Read),
    {
        let val = self.pressed;
        self.pressed = false;
        val
    }
}

/// Law: starting from a fresh button, the read at position `i` of an event
/// sequence returns true exactly when some edge occurred after the previous
/// read (or after the start, if none came before). However many edges pile
/// up between two reads, they collapse into that one true; a read with no
/// edge since the previous read returns false.
pub proof fn lemma_read_once_per_edges(events: Seq<LatchEvent>, i: int)
    requires
        0 <= i < events.len(),
        events[i] is Read,
    ensures
        read_result(events, i) == exists|j: int|
            0 <= j < i && events[j] is Edge && (forall|k: int| j < k < i ==> events[k] is Edge),
{
    if i == 0 {
        assert(events.take(0).len() == 0);
    } else {
        assert(events.take(i).last() == events[i - 1]);
        if events[i - 1] is Edge {
            assert(read_result(events, i));
            assert(0 <= i - 1 < i && events[i - 1] is Edge && (forall|k: int|
                i - 1 < k < i ==> events[k] is Edge));
        } else {
            assert(!read_result(events, i));
            assert forall|j: int|
                0 <= j < i && events[j] is Edge implies !(forall|k: int|
                j < k < i ==> events[k] is Edge) by {
                assert(j < i - 1 < i);
                assert(!(events[i - 1] is Edge));
            }
        }
    }
}

/// The set of buttons the board offers: just the one user pushbutton.
pub struct Buttons {
    /// The "user" pushbutton on the board.
    pub user: Button,
}

impl Buttons {
    /// Button state as it stands right after initialisation: no edge seen.
    pub fn new() -> (b: Buttons)
        ensures
            !b.user.pressed,
    {
        Buttons { user: Button::new() }
    }
}

/// The process-wide cell that shares the button state between the main
/// loop and the edge handler.
///
/// The platform layer keeps exactly one of these behind its critical
/// section and routes every access through it, so the checks here make the
/// two initialisation-order bugs impossible to continue past:
/// - reading or writing before [`ButtonsContainer::update`] has filled the
///   cell yields [`FatalError::UseBeforeInit`];
/// - a second [`ButtonsContainer::update`] yields [`FatalError::DoubleInit`]
///   and leaves the first state in place rather than silently overwriting.
pub struct ButtonsContainer {
    /// The shared state, absent until initialisation fills it.
    pub inner: Option<Buttons>,
}

impl ButtonsContainer {
    /// The empty cell, as it stands before initialisation.
    pub fn new() -> (c: ButtonsContainer)
        ensures
            c.inner is None,
    {
        ButtonsContainer { inner: None }
    }

    /// Sets the inner [`Buttons`] value. Succeeds only on the first call;
    /// a second call reports a fatal error and changes nothing.
    pub fn update(&mut self, new_buttons: Buttons) -> (r: Result<(), FatalError>)
        ensures
            r is Ok <==> old(self).inner is None,
            r is Ok ==> final(self).inner == Some(new_buttons),
            r is Err ==> r == Result::<(), FatalError>::Err(FatalError::DoubleInit)
                && final(self).inner == old(self).inner,
    {
        match self.inner {
            None => {
                self.inner = Some(new_buttons);
                Ok(())
            },
            Some(_) => Err(FatalError::DoubleInit),
        }
    }

    /// Records a rising edge of the user button, as the edge handler's part
    /// of the shared-state protocol. Fatal if the cell is still empty.
    pub fn record_press(&mut self) -> (r: Result<(), FatalError>)
        ensures
            r is Ok <==> old(self).inner is Some,
            old(self).inner matches Some(b) ==> final(self).inner == Some(
                Buttons { user: Button { pressed: latch_step(b.user.pressed, LatchEvent::Edge) } },
            ),
            r is Err ==> r == Result::<(), FatalError>::Err(FatalError::UseBeforeInit)
                && final(self).inner == old(self).inner,
    {
        match &mut self.inner {
            Some(buttons) => {
                buttons.user.record_press();
                Ok(())
            },
            None => Err(FatalError::UseBeforeInit),
        }
    }

    /// Reads and clears the user button's latch, as the main loop's part of
    /// the shared-state protocol. Fatal if the cell is still empty.
    pub fn handle_pressed(&mut self) -> (r: Result<bool, FatalError>)
        ensures
            r is Ok <==> old(self).inner is Some,
            old(self).inner matches Some(b) ==> r == Result::<bool, FatalError>::Ok(b.user.pressed)
                && final(self).inner == Some(
                Buttons { user: Button { pressed: latch_step(b.user.pressed, LatchEvent::Read) } },
            ),
            r is Err ==> r == Result::<bool, FatalError>::Err(FatalError::UseBeforeInit)
                && final(self).inner == old(self).inner,
    {
        match &mut self.inner {
            Some(buttons) => Ok(buttons.user.handle_pressed()),
            None => Err(FatalError::UseBeforeInit),
        }
    }
}

} // verus!
