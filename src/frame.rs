//! Pixel rectangles handed from the overlay renderer to the compositor.
use std::collections::VecDeque;
use std::sync::Arc;
use vstd::prelude::*;

verus! {

/// Bytes per pixel of every surface (BGRA, eight bits per channel).
pub const BYTES_PER_PIXEL: usize = 4;

/// A dirty rectangle of a surface, together with the surface's whole pixel
/// buffer, rows of `full_width` pixels one after another.
#[derive(Default, Debug)]
pub struct Frame {
    pub x: i32,
    pub y: i32,
    pub width: i32,
    pub height: i32,
    pub full_width: i32,
    pub full_height: i32,
    pub buffer: Arc<[u8]>,
}

impl Frame {
    /// Bytes in one row of the rectangle.
    pub open spec fn row_bytes(&self) -> int {
        self.width * BYTES_PER_PIXEL
    }

    /// Bytes in one row of the whole surface.
    pub open spec fn stride(&self) -> int {
        self.full_width * BYTES_PER_PIXEL
    }

    /// Offset in `buffer` of the first byte of the rectangle's row `row`.
    pub open spec fn row_start(&self, row: int) -> int {
        (self.y + row) * self.stride() + self.x * BYTES_PER_PIXEL
    }

    /// The rectangle lies inside the surface, and every row it covers lies
    /// inside `buffer`.
    pub open spec fn is_readable(&self) -> bool {
        &&& 0 <= self.x
        &&& 0 <= self.y
        &&& 0 <= self.width
        &&& 0 <= self.height
        &&& self.x + self.width <= self.full_width
        &&& self.y + self.height <= self.full_height
        &&& (self.y + self.height) * self.stride() <= self.buffer@.len()
    }

    /// Row `r` of the rectangle, as it stands in `buffer`.
    pub open spec fn row(&self, r: int) -> Seq<u8> {
        self.buffer@.subrange(self.row_start(r), self.row_start(r) + self.row_bytes())
    }

    /// The rectangle's rows `0..rows`, packed one after another without gaps.
    pub open spec fn packed_rows(&self, rows: int) -> Seq<u8>
        decreases rows,
    {
        if rows <= 0 {
            Seq::empty()
        } else {
            self.packed_rows(rows - 1) + self.row(rows - 1)
        }
    }

    /// What a staging copy of the rectangle writes: all of its rows, packed.
    pub open spec fn packed(&self) -> Seq<u8> {
        self.packed_rows(self.height as int)
    }
}

/// Most rectangles applied in one paint; the rest wait for the next one.
pub const UPDATES_PER_RENDER: usize = 8;

/// Takes the rectangles for one paint off the front of the queue: the
/// first `UPDATES_PER_RENDER` of them, or all if fewer wait, in queue order.
/// None is dropped: what is not taken stays queued, in order.
pub fn take_batch(queue: &mut VecDeque<Frame>) -> (r: Vec<Frame>)
    ensures
        r@.len() == if old(queue)@.len() < UPDATES_PER_RENDER {
            old(queue)@.len() as int
        } else {
            UPDATES_PER_RENDER as int
        },
        r@ + final(queue)@ == old(queue)@,
{
    let mut batch: Vec<Frame> = Vec::new();
    while batch.len() < UPDATES_PER_RENDER
        invariant
            batch@.len() <= UPDATES_PER_RENDER,
            batch@ + queue@ == old(queue)@,
        ensures
            batch@ + queue@ == old(queue)@,
            batch@.len() == UPDATES_PER_RENDER || queue@.len() == 0,
        decreases UPDATES_PER_RENDER - batch@.len(),
    {
        match queue.pop_front() {
            Some(frame) => {
                batch.push(frame);
                proof {
                    assert(batch@ + queue@ =~= old(queue)@);
                }
            },
            None => {
                assert(batch@ =~= old(queue)@);
                break;
            },
        }
    }
    batch
}

} // verus!
