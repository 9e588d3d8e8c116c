use vstd::prelude::*;
use crate::coordinate::Coordinate;

verus! {

/// A capability over a drawable surface: it reports the surface's current
/// dimensions and accepts per-pixel "set to the on colour" instructions, each
/// of which may fail without aborting the caller. The ghost sequence
/// `issued` records every instruction the sink was handed, in order, whether
/// or not the sink reported success for it; `set_pixel` promises only that
/// the instruction is appended to that record — the outcome is the
/// implementation's to choose, so a caller must cope with every `Result`.
pub trait PixelSink {
    /// The per-instruction failure report of the underlying surface.
    type Error;

    /// All pixel-set instructions handed to the sink so far, oldest first.
    /// A sink verified here overrides this record; a host sink written
    /// outside the verifier may leave the defaults in place, as no proof is
    /// made about such an implementation.
    open spec fn issued(&self) -> Seq<Coordinate> {
        Seq::empty()
    }

    /// The current drawable width, as `width` reports it.
    open spec fn spec_width(&self) -> u32 {
        0
    }

    /// The current drawable height, as `height` reports it.
    open spec fn spec_height(&self) -> u32 {
        0
    }

    /// Reports the surface's current drawable width.
    fn width(&self) -> (w: u32)
        ensures
            w == self.spec_width(),
    ;

    /// Reports the surface's current drawable height.
    fn height(&self) -> (h: u32)
        ensures
            h == self.spec_height(),
    ;

    /// Instructs the sink to set the pixel at `c` to the on colour. The
    /// instruction is recorded even when the sink reports failure.
    fn set_pixel(&mut self, c: Coordinate) -> (r: Result<(), Self::Error>)
        ensures
            final(self).issued() == old(self).issued().push(c),
            final(self).spec_width() == old(self).spec_width(),
            final(self).spec_height() == old(self).spec_height(),
    ;
}

/// A sink over no real surface: it records every instruction it is handed.
/// A fail mask scripts the per-instruction outcomes, so tests can exercise
/// callers against a surface that rejects some of its pixels.
pub struct RecordingSink {
    width: u32,
    height: u32,
    pixels: Vec<Coordinate>,
    fail_mask: Vec<bool>,
}

impl RecordingSink {
    /// A sink reporting the given dimensions, with every instruction accepted.
    pub fn new(width: u32, height: u32) -> (s: RecordingSink)
        ensures
            s.issued() == Seq::<Coordinate>::empty(),
            s.spec_width() == width,
            s.spec_height() == height,
    {
        RecordingSink { width, height, pixels: Vec::new(), fail_mask: Vec::new() }
    }

    /// A sink reporting the given dimensions whose instruction number `k`
    /// (counting from 0) fails exactly when `fail_mask[k]` is true;
    /// instructions past the end of the mask are accepted.
    pub fn new_with_failures(width: u32, height: u32, fail_mask: Vec<bool>) -> (s: RecordingSink)
        ensures
            s.issued() == Seq::<Coordinate>::empty(),
            s.spec_width() == width,
            s.spec_height() == height,
    {
        RecordingSink { width, height, pixels: Vec::new(), fail_mask }
    }

    /// How many instructions have been recorded.
    pub fn pixel_count(&self) -> (n: usize)
        ensures
            n == self.issued().len(),
    {
        self.pixels.len()
    }

    /// The coordinate of recorded instruction number `i`, oldest first.
    pub fn pixel_at(&self, i: usize) -> (c: Coordinate)
        requires
            i < self.issued().len(),
        ensures
            c == self.issued()[i as int],
    {
        self.pixels[i]
    }
}

impl PixelSink for RecordingSink {
    type Error = ();

    closed spec fn issued(&self) -> Seq<Coordinate> {
        self.pixels@
    }

    closed spec fn spec_width(&self) -> u32 {
        self.width
    }

    closed spec fn spec_height(&self) -> u32 {
        self.height
    }

    fn width(&self) -> (w: u32) {
        self.width
    }

    fn height(&self) -> (h: u32) {
        self.height
    }

    fn set_pixel(&mut self, c: Coordinate) -> (r: Result<(), ()>) {
        let k = self.pixels.len();
        self.pixels.push(c);
        if k < self.fail_mask.len() && self.fail_mask[k] {
            Err(())
        } else {
            Ok(())
        }
    }
}

} // verus!
