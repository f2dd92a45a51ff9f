//! A graphics device that only reports what it is asked to draw, keeping
//! count of the open clips and of the registered patterns.
use crate::geometry::Point;
use vstd::prelude::*;

verus! {

/// The counters of a debugging device.
pub struct DebugGraphicsDevice {
    n_clip: i32,
    n_pattern: i32,
}

impl View for DebugGraphicsDevice {
    /// Open clips and registered patterns.
    type V = (int, int);

    closed spec fn view(&self) -> (int, int) {
        (self.n_clip as int, self.n_pattern as int)
    }
}

/// Whether the clip rectangle from `from` to `to` covers a device whose
/// top-right corner is `(right, top)`.
pub open spec fn covers_device(from: Point, to: Point, right: i32, top: i32) -> bool {
    from.x <= 0 && from.y <= 0 && to.x >= right && to.y >= top
}

impl DebugGraphicsDevice {
    /// A device with no clip and no pattern.
    pub fn new() -> (d: DebugGraphicsDevice)
        ensures
            d@ == (0int, 0int),
    {
        DebugGraphicsDevice { n_clip: 0, n_pattern: 0 }
    }

    /// The number of open clips.
    pub fn n_clip(&self) -> (n: i32)
        ensures
            n == self@.0,
    {
        self.n_clip
    }

    /// The number of patterns registered so far.
    pub fn n_pattern(&self) -> (n: i32)
        ensures
            n == self@.1,
    {
        self.n_pattern
    }

    /// A clip request: a rectangle that covers the device closes a clip
    /// (never below zero), any other opens one. Returns whether it closed.
    pub fn clip(&mut self, from: Point, to: Point, right: i32, top: i32) -> (popped: bool)
        requires
            old(self)@.0 < i32::MAX,
        ensures
            popped == covers_device(from, to, right, top),
            final(self)@ == debug_clip_spec(old(self)@, from, to, right, top),
    {
        if from.x <= 0 && from.y <= 0 && to.x >= right && to.y >= top {
            self.n_clip = if self.n_clip > 0 {
                self.n_clip - 1
            } else {
                0
            };
            true
        } else {
            self.n_clip = self.n_clip + 1;
            false
        }
    }

    /// Registers a pattern and returns its id: the patterns are numbered
    /// from zero in the order they come. A nil pattern (`is_nil`) gets -1
    /// and is not counted.
    pub fn set_pattern(&mut self, is_nil: bool) -> (id: i32)
        requires
            is_nil || old(self)@.1 < i32::MAX,
        ensures
            is_nil ==> id == -1 && final(self)@ == old(self)@,
            !is_nil ==> id == old(self)@.1 && final(self)@ == (old(self)@.0, old(self)@.1 + 1),
    {
        if is_nil {
            return -1;
        }
        let id = self.n_pattern;
        self.n_pattern = self.n_pattern + 1;
        id
    }
}

/// The counters after a clip request (see `DebugGraphicsDevice::clip`).
pub open spec fn debug_clip_spec(m: (int, int), from: Point, to: Point, right: i32, top: i32) -> (
    int,
    int,
) {
    if covers_device(from, to, right, top) {
        (if m.0 > 0 {
            m.0 - 1
        } else {
            0
        }, m.1)
    } else {
        (m.0 + 1, m.1)
    }
}

/// A clip rectangle that does not cover the device.
pub struct ClipRect {
    pub from: Point,
    pub to: Point,
}

/// The counters after the clip requests `rects` in order.
pub open spec fn debug_clips(m: (int, int), rects: Seq<ClipRect>, right: i32, top: i32) -> (
    int,
    int,
)
    decreases rects.len(),
{
    if rects.len() == 0 {
        m
    } else {
        debug_clips(
            debug_clip_spec(m, rects[0].from, rects[0].to, right, top),
            rects.drop_first(),
            right,
            top,
        )
    }
}

/// On the debugging device too, matched clip pairs (one rectangle smaller
/// than the device, then one that covers it) leave the clip count and the
/// pattern count as they were.
pub proof fn lemma_debug_clip_balance(m: (int, int), rects: Seq<ClipRect>, right: i32, top: i32)
    requires
        m.0 >= 0,
        rects.len() % 2 == 0,
        forall|k: int|
            0 <= k < rects.len() ==> (covers_device(
                #[trigger] rects[k].from,
                rects[k].to,
                right,
                top,
            ) <==> k % 2 == 1),
    ensures
        debug_clips(m, rects, right, top) == m,
    decreases rects.len(),
{
    if rects.len() > 0 {
        let m1 = debug_clip_spec(m, rects[0].from, rects[0].to, right, top);
        let m2 = debug_clip_spec(m1, rects[1].from, rects[1].to, right, top);
        assert(m2 == m);
        let rest = rects.subrange(2, rects.len() as int);
        assert forall|k: int| 0 <= k < rest.len() implies (covers_device(
            #[trigger] rest[k].from,
            rest[k].to,
            right,
            top,
        ) <==> k % 2 == 1) by {
            assert(rest[k] == rects[k + 2]);
        }
        lemma_debug_clip_balance(m, rest, right, top);
        assert(rects.drop_first().drop_first() =~= rest);
        assert(debug_clips(m, rects, right, top) == debug_clips(m1, rects.drop_first(), right, top));
        assert(debug_clips(m1, rects.drop_first(), right, top) == debug_clips(m2, rest, right, top));
    }
}

} // verus!
