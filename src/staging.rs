//! Copying a pixel rectangle out of its surface buffer into a staging area,
//! row by row, on the calling thread or spread over a thread pool.
use rayon::iter::{IndexedParallelIterator, ParallelIterator};
use rayon::slice::ParallelSliceMut;
use vstd::prelude::*;

use crate::frame::{Frame, BYTES_PER_PIXEL};

verus! {

/// Above this many bytes a copy is spread over the thread pool.
pub const PARALLEL_THRESHOLD: usize = 4194304;

/// Work that one parallel task should at least receive, in bytes.
pub const TARGET_TASK_BYTES: usize = 32768;

/// Piece `i` of `s`, cut into pieces of `size` bytes.
pub open spec fn piece(s: Seq<u8>, size: int, i: int) -> Seq<u8> {
    s.subrange(i * size, i * size + size)
}

/// `after` holds the packed rows of `f` at its start, and `before` beyond them.
pub open spec fn rows_staged(f: &Frame, before: Seq<u8>, after: Seq<u8>) -> bool {
    let n = f.row_bytes() * f.height;
    &&& after.len() == before.len()
    &&& 0 <= n <= after.len()
    &&& after.subrange(0, n) == f.packed()
    &&& after.subrange(n, after.len() as int) == before.subrange(n, before.len() as int)
}

/// Row `row` of a readable rectangle lies inside the buffer.
proof fn lemma_row_in_buffer(f: &Frame, row: int)
    requires
        f.is_readable(),
        0 <= row < f.height,
    ensures
        0 <= (f.y + row) * f.stride(),
        0 <= f.row_start(row),
        f.row_start(row) + f.row_bytes() <= (f.y + row + 1) * f.stride(),
        f.stride() <= (f.y + row + 1) * f.stride(),
        (f.y + row + 1) * f.stride() <= f.buffer@.len(),
{
    let s = f.stride();
    assert((f.y + row) * s >= 0) by (nonlinear_arith)
        requires
            f.y >= 0,
            row >= 0,
            s >= 0,
    ;
    assert((f.y + row + 1) * s == (f.y + row) * s + s) by (nonlinear_arith);
    assert(s <= (f.y + row + 1) * s) by (nonlinear_arith)
        requires
            f.y + row >= 0,
            s >= 0,
    ;
    assert((f.y + row + 1) * s <= (f.y + f.height) * s) by (nonlinear_arith)
        requires
            row + 1 <= f.height,
            s >= 0,
    ;
}

/// Copies `n` bytes of `src` from `s` on into `dst` from `d` on.
fn copy_bytes(src: &[u8], s: usize, dst: &mut [u8], d: usize, n: usize)
    requires
        s + n <= src@.len(),
        d + n <= old(dst)@.len(),
    ensures
        final(dst)@.len() == old(dst)@.len(),
        final(dst)@.subrange(0, d as int) == old(dst)@.subrange(0, d as int),
        final(dst)@.subrange(d as int, d + n) == src@.subrange(s as int, s + n),
        final(dst)@.subrange(d + n, old(dst)@.len() as int) == old(dst)@.subrange(
            d + n,
            old(dst)@.len() as int,
        ),
{
    let src_len = src.len();
    let dst_len = dst.len();
    let mut i: usize = 0;
    while i < n
        invariant
            src_len == src@.len(),
            dst_len == old(dst)@.len(),
            s + n <= src@.len(),
            d + n <= old(dst)@.len(),
            dst@.len() == old(dst)@.len(),
            i <= n,
            forall|k: int| 0 <= k < d ==> dst@[k] == old(dst)@[k],
            forall|k: int| d + n <= k < dst@.len() ==> dst@[k] == old(dst)@[k],
            forall|k: int| d <= k < d + i ==> #[trigger] dst@[k] == src@[s + (k - d)],
        decreases n - i,
    {
        dst[d + i] = src[s + i];
        i = i + 1;
    }
    assert(dst@.subrange(0, d as int) =~= old(dst)@.subrange(0, d as int));
    assert(dst@.subrange(d as int, d + n) =~= src@.subrange(s as int, s + n));
    assert(dst@.subrange(d + n, old(dst)@.len() as int) =~= old(dst)@.subrange(
        d + n,
        old(dst)@.len() as int,
    ));
}

/// Fills `chunk` with row `row` of the rectangle.
pub fn stage_row(f: &Frame, row: usize, chunk: &mut [u8])
    requires
        f.is_readable(),
        row < f.height,
        old(chunk)@.len() == f.row_bytes(),
    ensures
        final(chunk)@ == f.row(row as int),
{
    proof {
        lemma_row_in_buffer(f, row as int);
    }
    let src: &[u8] = &f.buffer;
    let src_len = src.len();
    assert(src@ == f.buffer@);
    assert(f.stride() <= f.buffer@.len());
    let stride = f.full_width as usize * BYTES_PER_PIXEL;
    let start = (f.y as usize + row) * stride + f.x as usize * BYTES_PER_PIXEL;
    let n = f.width as usize * BYTES_PER_PIXEL;
    copy_bytes(src, start, chunk, 0, n);
    assert(chunk@ =~= chunk@.subrange(0, n as int));
}

proof fn lemma_pieces_assemble(f: &Frame, s: Seq<u8>, n: int)
    requires
        f.is_readable(),
        0 <= n <= f.height,
        f.row_bytes() * n <= s.len(),
        forall|r: int| 0 <= r < n ==> #[trigger] piece(s, f.row_bytes(), r) == f.row(r),
    ensures
        s.subrange(0, f.row_bytes() * n) == f.packed_rows(n),
    decreases n,
{
    let rb = f.row_bytes();
    if n == 0 {
        assert(s.subrange(0, 0) =~= Seq::<u8>::empty());
    } else {
        assert(rb * n == rb * (n - 1) + rb) by (nonlinear_arith);
        assert(0 <= rb * (n - 1)) by (nonlinear_arith)
            requires
                rb >= 0,
                n >= 1,
        ;
        lemma_pieces_assemble(f, s, n - 1);
        assert(piece(s, rb, n - 1) == f.row(n - 1));
        assert((n - 1) * rb == rb * (n - 1)) by (nonlinear_arith);
        assert(s.subrange(0, rb * n) =~= s.subrange(0, rb * (n - 1)) + piece(s, rb, n - 1));
    }
}

/// Copies the rectangle's rows on the calling thread.
pub fn stage_sequential(f: &Frame, dst: &mut [u8])
    requires
        f.is_readable(),
        f.row_bytes() * f.height <= old(dst)@.len(),
    ensures
        rows_staged(f, old(dst)@, final(dst)@),
{
    let ghost rb = f.row_bytes();
    let ghost len = old(dst)@.len() as int;
    let h = f.height as usize;
    let src: &[u8] = &f.buffer;
    let src_len = src.len();
    let dst_len = dst.len();
    let mut row: usize = 0;
    while row < h
        invariant
            dst_len == len,
            f.is_readable(),
            src@ == f.buffer@,
            src_len == src@.len(),
            0 <= rb * row <= rb * h,
            h == f.height,
            rb == f.row_bytes(),
            len == old(dst)@.len(),
            rb * h <= len,
            dst@.len() == len,
            row <= h,
            forall|r: int| 0 <= r < row ==> #[trigger] piece(dst@, rb, r) == f.row(r),
            dst@.subrange(rb * row, len) == old(dst)@.subrange(rb * row, len),
        decreases h - row,
    {
        proof {
            lemma_row_in_buffer(f, row as int);
            assert(rb * (row + 1) == rb * row + rb) by (nonlinear_arith);
            assert(rb * (row + 1) <= rb * h) by (nonlinear_arith)
                requires
                    row + 1 <= h,
                    rb >= 0,
            ;
            assert(0 <= rb * row) by (nonlinear_arith)
                requires
                    rb >= 0,
                    row >= 0,
            ;
        }
        let stride = f.full_width as usize * BYTES_PER_PIXEL;
        let start = (f.y as usize + row) * stride + f.x as usize * BYTES_PER_PIXEL;
        let n = f.width as usize * BYTES_PER_PIXEL;
        assert(n == rb);
        assert((row as int) * (n as int) == rb * row) by (nonlinear_arith)
            requires
                n == rb,
        ;
        let d = row * n;
        let ghost before = dst@;
        copy_bytes(src, start, dst, d, n);
        proof {
            assert((row as int) * rb == rb * row) by (nonlinear_arith);
            assert forall|r: int| 0 <= r < row + 1 implies #[trigger] piece(dst@, rb, r) == f.row(r) by {
                if r < row {
                    assert(r * rb + rb <= rb * row) by (nonlinear_arith)
                        requires
                            r + 1 <= row,
                            rb >= 0,
                    ;
                    assert(0 <= r * rb) by (nonlinear_arith)
                        requires
                            r >= 0,
                            rb >= 0,
                    ;
                    assert(piece(before, rb, r) == f.row(r));
                    assert(piece(dst@, rb, r) =~= dst@.subrange(0, d as int).subrange(r * rb, r * rb + rb));
                    assert(piece(before, rb, r) =~= before.subrange(0, d as int).subrange(r * rb, r * rb + rb));
                }
            }
            let e = rb * (row + 1);
            assert(d + n == e);
            assert forall|k: int| e <= k < len implies dst@[k] == old(dst)@[k] by {
                assert(dst@[k] == dst@.subrange(e, len)[k - e]);
                assert(before[k] == before.subrange(e, len)[k - e]);
                assert(before[k] == before.subrange(rb * row, len)[k - rb * row]);
                assert(old(dst)@[k] == old(dst)@.subrange(rb * row, len)[k - rb * row]);
            }
            assert(dst@.subrange(e, len) =~= old(dst)@.subrange(e, len));
        }
        row = row + 1;
    }
    proof {
        lemma_pieces_assemble(f, dst@, h as int);
    }
}

/// Relies on rayon's `par_chunks_mut`, `enumerate` and `for_each`: the first
/// `total` bytes of `dst` are cut into consecutive chunks of `row_bytes`, and
/// the closure runs exactly once on each chunk, with the chunk's index; bytes
/// from `total` on are not touched.  Each run fills its chunk by `stage_row`.
#[verifier::external_body]
fn stage_rows_on_pool(f: &Frame, dst: &mut [u8], row_bytes: usize, total: usize, min_rows: usize)
    requires
        f.is_readable(),
        row_bytes == f.row_bytes(),
        0 < row_bytes,
        total == row_bytes * f.height,
        total <= old(dst)@.len(),
    ensures
        final(dst)@.len() == old(dst)@.len(),
        forall|r: int| 0 <= r < f.height ==> #[trigger] piece(final(dst)@, row_bytes as int, r) == f.row(r),
        final(dst)@.subrange(total as int, final(dst)@.len() as int) == old(dst)@.subrange(total as int, old(dst)@.len() as int),
{
    dst[..total].par_chunks_mut(row_bytes).with_min_len(min_rows).enumerate().for_each(
        |(row, chunk)| stage_row(f, row, chunk),
    );
}

/// Copies the rectangle's rows on the thread pool, a few rows to a task.
pub fn stage_parallel(f: &Frame, dst: &mut [u8])
    requires
        f.is_readable(),
        f.row_bytes() * f.height <= old(dst)@.len(),
    ensures
        rows_staged(f, old(dst)@, final(dst)@),
{
    let h = f.height as usize;
    if h == 0 || f.width == 0 {
        proof {
            assert(f.row_bytes() * f.height == 0) by (nonlinear_arith)
                requires
                    f.height == 0 || f.width == 0,
            ;
            assert(f.packed_rows(0) =~= Seq::<u8>::empty());
            assert(dst@.subrange(0, 0) =~= Seq::<u8>::empty());
            assert(dst@.subrange(0, dst@.len() as int) =~= dst@);
            if f.height != 0 {
                lemma_zero_width_rows(f, f.height as int);
            }
        }
        return;
    }
    let dst_len = dst.len();
    proof {
        assert(f.row_bytes() <= f.row_bytes() * f.height) by (nonlinear_arith)
            requires
                f.height >= 1,
                f.row_bytes() >= 0,
        ;
    }
    let row_bytes = f.width as usize * BYTES_PER_PIXEL;
    let total = row_bytes * h;
    let per_task = TARGET_TASK_BYTES / row_bytes;
    let min_rows = if per_task > 1 { per_task } else { 1 };
    stage_rows_on_pool(f, dst, row_bytes, total, min_rows);
    proof {
        lemma_pieces_assemble(f, dst@, h as int);
    }
}

proof fn lemma_zero_width_rows(f: &Frame, n: int)
    requires
        f.is_readable(),
        f.width == 0,
        0 <= n <= f.height,
    ensures
        f.packed_rows(n) == Seq::<u8>::empty(),
    decreases n,
{
    if n > 0 {
        lemma_zero_width_rows(f, n - 1);
        lemma_row_in_buffer(f, n - 1);
        assert(f.row(n - 1) =~= Seq::<u8>::empty());
        assert(f.packed_rows(n) =~= Seq::<u8>::empty());
    }
}

/// Copies the rectangle's rows into `dst`: spread over the thread pool when
/// the rectangle holds more than `PARALLEL_THRESHOLD` bytes, on the calling
/// thread otherwise.
pub fn stage(f: &Frame, dst: &mut [u8])
    requires
        f.is_readable(),
        f.row_bytes() * f.height <= old(dst)@.len(),
    ensures
        rows_staged(f, old(dst)@, final(dst)@),
{
    let dst_len = dst.len();
    proof {
        if f.height > 0 {
            assert(f.row_bytes() <= f.row_bytes() * f.height) by (nonlinear_arith)
                requires
                    f.height >= 1,
                    f.row_bytes() >= 0,
            ;
        }
        assert(0 <= f.row_bytes() * f.height) by (nonlinear_arith)
            requires
                f.height >= 0,
                f.row_bytes() >= 0,
        ;
    }
    let total = if f.height == 0 {
        0
    } else {
        f.width as usize * BYTES_PER_PIXEL * f.height as usize
    };
    if total > PARALLEL_THRESHOLD {
        stage_parallel(f, dst);
    } else {
        stage_sequential(f, dst);
    }
}

} // verus!
