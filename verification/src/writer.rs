//! What the negotiation needs of a screen: setting and clearing mode bits.

use vstd::prelude::*;

verus! {

/// A screen whose modes can be set and cleared.
pub trait ScreenWriter {
    /// The mode bits currently in force.
    spec fn modes(&self) -> u32;

    /// Turns on every bit of `mode`, leaving the others alone.
    fn mode_set(&mut self, mode: u32)
        ensures
            final(self).modes() == old(self).modes() | mode,
    ;

    /// Turns off every bit of `mode`, leaving the others alone.
    fn mode_clear(&mut self, mode: u32)
        ensures
            final(self).modes() == old(self).modes() & !mode,
    ;
}

/// A screen that only records its modes.
pub struct RecordingWriter {
    pub mode: u32,
    pub cols: u32,
    pub rows: u32,
}

impl RecordingWriter {
    /// A screen of the given size with no mode set.
    pub fn new(cols: u32, rows: u32) -> (w: Self)
        ensures
            w.mode == 0,
            w.cols == cols,
            w.rows == rows,
    {
        RecordingWriter { mode: 0, cols, rows }
    }
}

impl ScreenWriter for RecordingWriter {
    open spec fn modes(&self) -> u32 {
        self.mode
    }

    fn mode_set(&mut self, mode: u32) {
        self.mode = self.mode | mode;
    }

    fn mode_clear(&mut self, mode: u32) {
        self.mode = self.mode & !mode;
    }
}

} // verus!
