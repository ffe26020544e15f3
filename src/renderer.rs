//! State of the compositor: the GPU object handles it owns, the surface
//! size, and the pair of staging buffers that paints take in turn.
use vstd::prelude::*;

use crate::frame::{Frame, BYTES_PER_PIXEL};
use crate::staging::{rows_staged, stage};

verus! {

/// Handles of the GPU objects that the compositor is built on.
#[derive(Clone, Copy, Debug)]
pub struct GpuObjects {
    pub program: u32,
    pub front_texture: u32,
    pub front_uniform: i32,
    pub back_texture: u32,
    pub back_uniform: i32,
    pub vao: u32,
    pub vbo: u32,
    pub fbo: u32,
    pub pbos: [u32; 2],
}

impl GpuObjects {
    /// No objects at all: every handle zero.
    pub open spec fn none() -> GpuObjects {
        GpuObjects {
            program: 0,
            front_texture: 0,
            front_uniform: 0,
            back_texture: 0,
            back_uniform: 0,
            vao: 0,
            vbo: 0,
            fbo: 0,
            pbos: [0, 0],
        }
    }
}

/// One texture bound to a texture unit for the final draw.
#[derive(Clone, Copy, Debug, PartialEq, Eq, Structural)]
pub struct TextureBinding {
    pub unit: u32,
    pub texture: u32,
    pub uniform: i32,
}

/// The composited draw: with blending `ONE, ONE_MINUS_SRC_ALPHA`, the
/// program draws one full-surface quad of `vertices` vertices over a clear
/// of opaque black, the video texture below and the overlay above.
#[derive(Clone, Copy, Debug, PartialEq, Eq, Structural)]
pub struct DrawPass {
    pub program: u32,
    pub vao: u32,
    pub video: TextureBinding,
    pub overlay: TextureBinding,
    pub vertices: i32,
}

/// The compositor: its GPU objects, the surface size, the display's refresh
/// rate and adapter name, and `pbo_index`, the staging buffer (of `pbos`)
/// that the next paint selects.
#[derive(Debug)]
pub struct Renderer {
    pub program: u32,
    pub front_texture: u32,
    pub front_uniform: i32,
    pub back_texture: u32,
    pub back_uniform: i32,
    pub vao: u32,
    pub vbo: u32,
    pub fbo: u32,
    pub pbos: [u32; 2],
    pub pbo_index: usize,
    pub width: i32,
    pub height: i32,
    pub refresh_rate: u32,
    pub renderer_name: String,
}

impl Renderer {
    /// The GPU objects that the compositor holds.
    pub open spec fn objects(&self) -> GpuObjects {
        GpuObjects {
            program: self.program,
            front_texture: self.front_texture,
            front_uniform: self.front_uniform,
            back_texture: self.back_texture,
            back_uniform: self.back_uniform,
            vao: self.vao,
            vbo: self.vbo,
            fbo: self.fbo,
            pbos: self.pbos,
        }
    }

    /// The index of the staging buffer is always 0 or 1.
    pub open spec fn wf(&self) -> bool {
        self.pbo_index < 2
    }

    /// Bytes that each staging buffer holds: one whole surface.
    pub open spec fn staging_size(&self) -> int {
        self.width * self.height * BYTES_PER_PIXEL
    }

    /// A paint of `f` into a staging buffer of `len` bytes is in order: the
    /// rectangle is readable and was cut from a surface of the current size.
    pub open spec fn accepts(&self, f: &Frame, len: int) -> bool {
        &&& f.is_readable()
        &&& f.full_width == self.width
        &&& f.full_height == self.height
        &&& len == self.staging_size()
    }

    /// Takes over freshly built GPU objects for a surface of `width` by
    /// `height`; the first paint selects staging buffer 0.
    pub fn new(
        objects: GpuObjects,
        size: (i32, i32),
        refresh_rate: u32,
        renderer_name: String,
    ) -> (r: Renderer)
        ensures
            r.wf(),
            r.pbo_index == 0,
            r.program == objects.program,
            r.front_texture == objects.front_texture,
            r.front_uniform == objects.front_uniform,
            r.back_texture == objects.back_texture,
            r.back_uniform == objects.back_uniform,
            r.vao == objects.vao,
            r.vbo == objects.vbo,
            r.fbo == objects.fbo,
            r.pbos == objects.pbos,
            r.width == size.0,
            r.height == size.1,
            r.refresh_rate == refresh_rate,
            r.renderer_name == renderer_name,
    {
        Renderer {
            program: objects.program,
            front_texture: objects.front_texture,
            front_uniform: objects.front_uniform,
            back_texture: objects.back_texture,
            back_uniform: objects.back_uniform,
            vao: objects.vao,
            vbo: objects.vbo,
            fbo: objects.fbo,
            pbos: objects.pbos,
            pbo_index: 0,
            width: size.0,
            height: size.1,
            refresh_rate,
            renderer_name,
        }
    }

    /// Records a new surface size; both staging buffers and both textures
    /// are to be reallocated to it.
    pub fn resize(&mut self, width: i32, height: i32)
        ensures
            final(self).width == width,
            final(self).height == height,
            final(self).pbo_index == old(self).pbo_index,
            final(self).objects() == old(self).objects(),
            final(self).refresh_rate == old(self).refresh_rate,
            final(self).renderer_name == old(self).renderer_name,
    {
        self.width = width;
        self.height = height;
    }

    /// The handle of the staging buffer that the next paint stages into:
    /// the caller maps this one before calling `paint`.
    pub fn next_staging(&self) -> (p: u32)
        requires
            self.wf(),
        ensures
            p == self.pbos[self.pbo_index as int],
    {
        self.pbos[self.pbo_index]
    }

    /// Paints the rectangle `f`: selects the staging buffer that is not in
    /// flight, the one `next_staging` names, and returns its handle; copies
    /// the rectangle into it (`staging`, that buffer mapped), packed row
    /// after row; and flips the index, so paints use 0, 1, 0, 1, ...  The
    /// caller then uploads from the returned buffer into the overlay texture
    /// at `(f.x, f.y)`, `f.width` by `f.height`.
    pub fn paint(&mut self, f: &Frame, staging: &mut [u8]) -> (pbo: u32)
        requires
            old(self).wf(),
            old(self).accepts(f, old(staging)@.len() as int),
        ensures
            rows_staged(f, old(staging)@, final(staging)@),
            pbo == old(self).pbos[old(self).pbo_index as int],
            final(self).wf(),
            final(self).pbo_index == 1 - old(self).pbo_index,
            final(self).objects() == old(self).objects(),
            final(self).width == old(self).width,
            final(self).height == old(self).height,
            final(self).refresh_rate == old(self).refresh_rate,
            final(self).renderer_name == old(self).renderer_name,
    {
        proof {
            lemma_rect_fits(f);
        }
        let pbo = self.pbos[self.pbo_index];
        self.pbo_index = 1 - self.pbo_index;
        stage(f, staging);
        pbo
    }

    /// The composited draw of the video texture (unit 0) under the overlay
    /// texture (unit 1).
    pub fn draw(&self) -> (d: DrawPass)
        ensures
            d.program == self.program,
            d.vao == self.vao,
            d.video == (TextureBinding { unit: 0, texture: self.back_texture, uniform: self.back_uniform }),
            d.overlay == (TextureBinding { unit: 1, texture: self.front_texture, uniform: self.front_uniform }),
            d.vertices == 4,
    {
        DrawPass {
            program: self.program,
            vao: self.vao,
            video: TextureBinding { unit: 0, texture: self.back_texture, uniform: self.back_uniform },
            overlay: TextureBinding {
                unit: 1,
                texture: self.front_texture,
                uniform: self.front_uniform,
            },
            vertices: 4,
        }
    }

    /// Hands over the GPU objects still held, for deletion, and forgets
    /// them: every handle is zero afterwards, so a second teardown hands
    /// over nothing.  A zero handle stands for no object.
    pub fn teardown(&mut self) -> (r: GpuObjects)
        ensures
            r == old(self).objects(),
            final(self).objects() == GpuObjects::none(),
            final(self).width == old(self).width,
            final(self).height == old(self).height,
            final(self).pbo_index == old(self).pbo_index,
    {
        let r = GpuObjects {
            program: self.program,
            front_texture: self.front_texture,
            front_uniform: self.front_uniform,
            back_texture: self.back_texture,
            back_uniform: self.back_uniform,
            vao: self.vao,
            vbo: self.vbo,
            fbo: self.fbo,
            pbos: self.pbos,
        };
        self.program = 0;
        self.front_texture = 0;
        self.front_uniform = 0;
        self.back_texture = 0;
        self.back_uniform = 0;
        self.vao = 0;
        self.vbo = 0;
        self.fbo = 0;
        self.pbos = [0, 0];
        r
    }
}

/// The packed rows of a readable rectangle fit in a buffer of its surface.
proof fn lemma_rect_fits(f: &Frame)
    requires
        f.is_readable(),
    ensures
        f.row_bytes() * f.height <= f.full_width * f.full_height * BYTES_PER_PIXEL,
{
    assert(f.width * f.height <= f.full_width * f.full_height) by (nonlinear_arith)
        requires
            0 <= f.width <= f.full_width,
            0 <= f.height <= f.full_height,
    ;
    assert(f.row_bytes() * f.height == f.width * f.height * 4) by (nonlinear_arith);
    assert(f.full_width * f.full_height * 4 == f.full_width * f.full_height * BYTES_PER_PIXEL);
}

/// Whichever path a copy takes, on the calling thread or on the pool, the
/// staging buffer ends up the same: it is fixed by the rectangle and the
/// buffer's earlier contents alone.
pub proof fn lemma_staging_path_independent(f: &Frame, before: Seq<u8>, a: Seq<u8>, b: Seq<u8>)
    requires
        rows_staged(f, before, a),
        rows_staged(f, before, b),
    ensures
        a == b,
{
    let n = f.row_bytes() * f.height;
    assert(a =~= a.subrange(0, n) + a.subrange(n, a.len() as int));
    assert(b =~= b.subrange(0, n) + b.subrange(n, b.len() as int));
}

/// A rectangle as wide as its surface is staged as one contiguous run of
/// `height` whole surface rows, each `full_width * BYTES_PER_PIXEL` bytes.
pub proof fn lemma_full_width_contiguous(f: &Frame, rows: int)
    requires
        f.is_readable(),
        f.width == f.full_width,
        0 <= rows <= f.height,
    ensures
        f.row_bytes() == f.stride(),
        f.packed_rows(rows) == f.buffer@.subrange(f.y * f.stride(), (f.y + rows) * f.stride()),
    decreases rows,
{
    let s = f.stride();
    assert(f.y * s >= 0) by (nonlinear_arith)
        requires
            f.y >= 0,
            s >= 0,
    ;
    assert((f.y + rows) * s <= (f.y + f.height) * s) by (nonlinear_arith)
        requires
            rows <= f.height,
            s >= 0,
    ;
    if rows == 0 {
        assert(f.buffer@.subrange(f.y * s, f.y * s) =~= Seq::<u8>::empty());
    } else {
        lemma_full_width_contiguous(f, rows - 1);
        assert((f.y + rows) * s == (f.y + rows - 1) * s + s) by (nonlinear_arith);
        assert((f.y + rows - 1) * s >= f.y * s) by (nonlinear_arith)
            requires
                rows >= 1,
                s >= 0,
        ;
        assert(f.x == 0);
        assert(f.packed_rows(rows) =~= f.buffer@.subrange(f.y * s, (f.y + rows) * s));
    }
}

/// How many of the first `i` calls of a run were paints.
pub open spec fn paints_in(painted: Seq<bool>, i: int) -> nat
    decreases i,
{
    if i <= 0 {
        0
    } else {
        paints_in(painted, i - 1) + if painted[i - 1] {
            1nat
        } else {
            0nat
        }
    }
}

/// `b` follows `a` by a paint (`painted`) or by a resize, as their
/// contracts state the staging index and buffers.
pub open spec fn index_step(a: Renderer, b: Renderer, painted: bool) -> bool {
    &&& b.pbos == a.pbos
    &&& b.pbo_index == if painted {
        1 - a.pbo_index
    } else {
        a.pbo_index as int
    }
}

/// Paints select the staging buffers in strict alternation, whatever
/// resizes come between them: in a run of calls on a fresh compositor
/// (`states[0]`, index 0), where `painted[i]` says whether call `i` was a
/// paint, the `k`-th paint stages into `pbos[k % 2]`, so the buffers used are
/// 0, 1, 0, 1, ...
pub proof fn lemma_paints_alternate(states: Seq<Renderer>, painted: Seq<bool>, i: int)
    requires
        states.len() == painted.len() + 1,
        states[0].pbo_index == 0,
        forall|j: int| 0 <= j < painted.len() ==> index_step(#[trigger] states[j], states[j + 1], painted[j]),
        0 <= i <= painted.len(),
    ensures
        states[i].pbo_index == paints_in(painted, i) % 2,
        states[i].pbos == states[0].pbos,
        i < painted.len() && painted[i] ==> states[i].pbos[states[i].pbo_index as int]
            == states[0].pbos[(paints_in(painted, i) % 2) as int],
    decreases i,
{
    if i > 0 {
        lemma_paints_alternate(states, painted, i - 1);
        assert(index_step(states[i - 1], states[i], painted[i - 1]));
    }
}

/// After `resize(w, h)`, every readable rectangle cut from a `w` by `h`
/// surface is accepted by `paint` with a staging buffer of the new size.
pub proof fn lemma_resize_then_paint(w: i32, h: i32, resized: Renderer, f: Frame)
    requires
        resized.width == w,
        resized.height == h,
        f.is_readable(),
        f.full_width == w,
        f.full_height == h,
    ensures
        resized.accepts(&f, w * h * BYTES_PER_PIXEL),
        f.row_bytes() * f.height <= w * h * BYTES_PER_PIXEL,
{
    lemma_rect_fits(&f);
}

} // verus!
