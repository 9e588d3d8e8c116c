use vstd::prelude::*;
use crate::coordinate::Coordinate;
use crate::coordinate::coord_from_draws;
use crate::coordinate::coord_from_draws_fixed;
use crate::coordinate::draw_coordinate;
use crate::coordinate::draw_coordinate_fixed;
use crate::coordinate::valid_dims;
use crate::sink::PixelSink;
use crate::source::RandomSource;

verus! {

/// What one step leaves stored: the new coordinate is appended, and when the
/// buffer already holds `cap` coordinates the oldest one (position 0) is
/// evicted first, preserving the relative order of the retained ones.
pub open spec fn push_evict(s: Seq<Coordinate>, c: Coordinate, cap: nat) -> Seq<Coordinate> {
    if s.len() < cap {
        s.push(c)
    } else {
        s.subrange(1, s.len() as int).push(c)
    }
}

/// A screen saver that accumulates randomly placed points, at most `N` at a
/// time, evicting the oldest stored point once the buffer is saturated.
pub struct ScreenSaver<R, const N: usize> {
    points: Vec<Coordinate>,
    rng: R,
}

impl<R: RandomSource, const N: usize> ScreenSaver<R, N> {
    /// The stored coordinates, oldest first, newest last.
    pub closed spec fn stored(&self) -> Seq<Coordinate> {
        self.points@
    }

    /// The capacity invariant: never more than `N` coordinates are stored.
    pub open spec fn wf(&self) -> bool {
        self.stored().len() <= N
    }

    /// Create a new screen saver: an empty buffer owning the random source.
    pub fn new(rng: R) -> (s: Self)
        ensures
            s.stored() == Seq::<Coordinate>::empty(),
            s.wf(),
    {
        Self { points: Vec::new(), rng }
    }

    /// How many coordinates are stored.
    pub fn len(&self) -> (n: usize)
        ensures
            n == self.stored().len(),
    {
        self.points.len()
    }

    /// The stored coordinate at position `i` (0 is the oldest).
    pub fn point_at(&self, i: usize) -> (c: Coordinate)
        requires
            i < self.stored().len(),
        ensures
            c == self.stored()[i as int],
    {
        self.points[i]
    }

    /// Append `c` to the buffer, evicting the oldest stored coordinate first
    /// when the buffer is already at capacity. This is the one mutation every
    /// step variant performs once it has drawn its coordinate.
    pub fn push_coordinate(&mut self, c: Coordinate)
        requires
            old(self).wf(),
            N >= 1,
        ensures
            final(self).wf(),
            final(self).stored() == push_evict(old(self).stored(), c, N as nat),
            final(self).stored().len() == if old(self).stored().len() < N {
                old(self).stored().len() + 1
            } else {
                N as nat
            },
    {
        if self.points.len() == N {
            self.points.remove(0);
            proof {
                assert(self.points@ =~= old(self).points@.subrange(1, old(self).points@.len() as int));
            }
        }
        self.points.push(c);
    }

    /// One step on explicitly supplied raw draws: store the coordinate
    /// `(d1 % w, d2 % h)`, evicting the oldest stored one when the buffer is
    /// full. Feeding a deterministic sequence of draws through this function
    /// therefore yields a fully predictable stored sequence.
    pub fn tick_with_draws(&mut self, d1: u32, d2: u32, w: u32, h: u32)
        requires
            old(self).wf(),
            N >= 1,
            valid_dims(w, h),
        ensures
            final(self).wf(),
            final(self).stored() == push_evict(
                old(self).stored(),
                coord_from_draws(d1, d2, w, h),
                N as nat,
            ),
    {
        let c = draw_coordinate(d1, d2, w, h);
        self.push_coordinate(c);
    }

    /// One step: draw two raw 32-bit values from the owned random source,
    /// reduce them modulo `w` and `h`, and store the resulting coordinate,
    /// evicting the oldest stored one when the buffer is full. Nothing can be
    /// promised of the draws themselves, so the contract says only that some
    /// pair of raw draws produced the appended coordinate.
    pub fn tick(&mut self, w: u32, h: u32)
        requires
            old(self).wf(),
            N >= 1,
            valid_dims(w, h),
        ensures
            final(self).wf(),
            exists|d1: u32, d2: u32|
                final(self).stored() == push_evict(
                    old(self).stored(),
                    #[trigger] coord_from_draws(d1, d2, w, h),
                    N as nat,
                ),
            final(self).stored().len() == if old(self).stored().len() < N {
                old(self).stored().len() + 1
            } else {
                N as nat
            },
    {
        let d1 = self.rng.next_u32();
        let d2 = self.rng.next_u32();
        self.tick_with_draws(d1, d2, w, h);
        proof {
            assert(self.stored() == push_evict(
                old(self).stored(),
                coord_from_draws(d1, d2, w, h),
                N as nat,
            ));
        }
    }

    /// One step under the legacy fixed-divisor policy: draw two raw 32-bit
    /// values from the owned random source, divide them by the hard-coded
    /// divisors onto the fixed 128 x 64 rectangle, and store the resulting
    /// coordinate, evicting the oldest stored one when the buffer is full.
    pub fn tick_fixed(&mut self)
        requires
            old(self).wf(),
            N >= 1,
        ensures
            final(self).wf(),
            exists|d1: u32, d2: u32|
                final(self).stored() == push_evict(
                    old(self).stored(),
                    #[trigger] coord_from_draws_fixed(d1, d2),
                    N as nat,
                ),
            final(self).stored().len() == if old(self).stored().len() < N {
                old(self).stored().len() + 1
            } else {
                N as nat
            },
    {
        let d1 = self.rng.next_u32();
        let d2 = self.rng.next_u32();
        let c = draw_coordinate_fixed(d1, d2);
        self.push_coordinate(c);
        proof {
            assert(self.stored() == push_evict(
                old(self).stored(),
                coord_from_draws_fixed(d1, d2),
                N as nat,
            ));
        }
    }

    /// Render the stored coordinates: issue exactly one pixel-set instruction
    /// per stored coordinate, oldest to newest, to the sink. A failure the
    /// sink reports for one instruction is swallowed — every remaining
    /// coordinate is still issued — and the call itself always reports
    /// success. The buffer is not mutated.
    pub fn draw<S: PixelSink>(&self, sink: &mut S) -> (r: Result<(), S::Error>)
        ensures
            r is Ok,
            final(sink).issued() == old(sink).issued() + self.stored(),
            final(sink).spec_width() == old(sink).spec_width(),
            final(sink).spec_height() == old(sink).spec_height(),
    {
        let mut i: usize = 0;
        while i < self.points.len()
            invariant
                i <= self.points@.len(),
                sink.issued() == old(sink).issued() + self.points@.subrange(0, i as int),
                sink.spec_width() == old(sink).spec_width(),
                sink.spec_height() == old(sink).spec_height(),
            decreases self.points@.len() - i,
        {
            let _ = sink.set_pixel(self.points[i]);
            proof {
                assert(self.points@.subrange(0, i as int).push(self.points@[i as int])
                    =~= self.points@.subrange(0, i + 1));
            }
            i = i + 1;
        }
        proof {
            assert(self.points@.subrange(0, self.points@.len() as int) =~= self.points@);
        }
        Ok(())
    }

    /// One step sized to the sink's surface, then a render against the same
    /// sink. The step uses the width and height the sink reports; should the
    /// sink report a degenerate surface (a zero side, or one outside the
    /// signed 32-bit range), the step is skipped and the stored coordinates
    /// are rendered unchanged. Always reports success.
    pub fn tick_draw<S: PixelSink>(&mut self, sink: &mut S) -> (r: Result<(), S::Error>)
        requires
            old(self).wf(),
            N >= 1,
        ensures
            r is Ok,
            final(self).wf(),
            final(sink).issued() == old(sink).issued() + final(self).stored(),
            final(sink).spec_width() == old(sink).spec_width(),
            final(sink).spec_height() == old(sink).spec_height(),
            valid_dims(old(sink).spec_width(), old(sink).spec_height()) ==> exists|d1: u32, d2: u32|
                final(self).stored() == push_evict(
                    old(self).stored(),
                    #[trigger] coord_from_draws(
                        d1,
                        d2,
                        old(sink).spec_width(),
                        old(sink).spec_height(),
                    ),
                    N as nat,
                ),
            !valid_dims(old(sink).spec_width(), old(sink).spec_height())
                ==> final(self).stored() == old(self).stored(),
    {
        let w = sink.width();
        let h = sink.height();
        if 1 <= w && w <= 0x7FFF_FFFF && 1 <= h && h <= 0x7FFF_FFFF {
            self.tick(w, h);
        }
        self.draw(sink)
    }
}

} // verus!
