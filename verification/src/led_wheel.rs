//! The ring of eight LEDs, indexed by cyclic position.
//!
//! Each output line is modelled by the level the firmware has driven it to;
//! the platform layer owns the physical pins and mirrors every level change
//! onto them. Positions are taken modulo eight, and the logical order of
//! the fields matches the physical order of the lines around the ring, so
//! position `n + 1` is the physical neighbour of position `n`.

use vstd::prelude::*;

verus! {

/// One output line of the ring, by the level it is driven to.
///
/// Writes to a configured push-pull line cannot fail on this hardware
/// class, so setting the level is infallible here.
pub struct Led {
    /// Whether the line is driven high (the LED is lit).
    pub high: bool,
}

impl Led {
    /// A line driven low, as it stands right after initialisation.
    pub fn new() -> (led: Led)
        ensures
            !led.high,
    {
        Led { high: false }
    }

    /// Drives the line high.
    pub fn set_high(&mut self)
        ensures
            final(self).high,
    {
        self.high = true;
    }

    /// Drives the line low.
    pub fn set_low(&mut self)
        ensures
            !final(self).high,
    {
        self.high = false;
    }
}

/// The ring position that an arbitrary integer position refers to:
/// reduced modulo the ring size into `[0, 8)`.
pub open spec fn slot_of(position: int) -> int {
    position % 8
}

/// The eight output lines of the ring, named for the compass points they
/// sit at on the board.
pub struct LEDWheel {
    pub nw: Led,
    pub n: Led,
    pub ne: Led,
    pub e: Led,
    pub se: Led,
    pub s: Led,
    pub sw: Led,
    pub w: Led,
}

impl LEDWheel {
    /// How many lines the ring owns.
    pub const COUNT: usize = 8;

    /// The lines in cyclic position order: position 0 is north, and each
    /// following position is the next line clockwise around the ring.
    pub open spec fn lines(&self) -> Seq<Led> {
        seq![self.n, self.ne, self.e, self.se, self.s, self.sw, self.w, self.nw]
    }

    /// A ring with every line driven low, as it stands right after the
    /// platform layer has configured the pins.
    pub fn new() -> (wheel: LEDWheel)
        ensures
            wheel.lines().len() == 8,
            forall|j: int| 0 <= j < 8 ==> !wheel.lines()[j].high,
    {
        LEDWheel {
            nw: Led::new(),
            n: Led::new(),
            ne: Led::new(),
            e: Led::new(),
            se: Led::new(),
            s: Led::new(),
            sw: Led::new(),
            w: Led::new(),
        }
    }

    /// The line at cyclic position `index`: the index is reduced modulo
    /// eight, and no two positions alias the same line. The caller drives
    /// the returned line; every other line keeps its level.
    pub fn by_index(&mut self, index: usize) -> (led: &mut Led)
        ensures
            *led == old(self).lines()[slot_of(index as int)],
            final(self).lines()[slot_of(index as int)] == *final(led),
            forall|j: int|
                0 <= j < 8 && j != slot_of(index as int) ==> final(self).lines()[j] == old(
                    self,
                ).lines()[j],
    {
        let slot = index % 8;
        if slot == 0 {
            &mut self.n
        } else if slot == 1 {
            &mut self.ne
        } else if slot == 2 {
            &mut self.e
        } else if slot == 3 {
            &mut self.se
        } else if slot == 4 {
            &mut self.s
        } else if slot == 5 {
            &mut self.sw
        } else if slot == 6 {
            &mut self.w
        } else {
            &mut self.nw
        }
    }
}

/// Law: a position and that position plus eight refer to the identical
/// line, for every integer position — the ring wraps around cyclically.
pub proof fn lemma_position_wraps(position: int)
    ensures
        slot_of(position + 8) == slot_of(position),
{
}

} // verus!
