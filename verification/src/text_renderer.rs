//! The text batch renderer core: it accumulates glyph quads into a pending
//! batch of vertices and triangle indices, and once per frame plans the
//! upload and single draw call that consume the batch.
//!
//! The renderer owns the pending batch and byte-size mirrors of the two GPU
//! backing stores. `draw_text` and its two public entry points append quads;
//! `render` decides growth, hands the caller a [`FlushPlan`] to carry out
//! against the GPU (allocate where a store is replaced, upload both lists at
//! offset 0, draw the planned index range), and clears the batch.

use vstd::prelude::*;
use vstd::arithmetic::div_mod::{
    lemma_mod_multiples_basic,
    lemma_div_by_multiple,
    lemma_div_is_ordered,
    lemma_div_pos_is_pos,
};
use vstd::arithmetic::power2::pow2;
use crate::glyph::{FontMetrics, GlyphMetric};
use crate::vertex::{quad_index_offset, quad_vertex, Vertex, VertexModel};
use crate::utils::{grow_buffer, grow_seed, grown_size, lemma_grown_size_pow2,
    lemma_grown_size_sufficient};

verus! {

/// The byte size of one triangle-list index entry (a 32-bit index).
pub const INDEX_SIZE_BYTES: usize = 4;

/// The pixel column the cursor has reached before glyph `j` of `text`, when
/// the walk starts at column `start_x`: the start plus the advances of all
/// earlier glyphs.
pub open spec fn cursor_at(font: FontMetrics, text: Seq<char>, start_x: int, j: int) -> int
    decreases j,
{
    if j <= 0 {
        start_x
    } else {
        cursor_at(font, text, start_x, j - 1) + font.metric_of(text[j - 1]).xadvance
    }
}

/// Each advance is a 32-bit value, so the cursor strays from its start by at
/// most `0x8000_0000` per glyph.
pub proof fn lemma_cursor_bound(font: FontMetrics, text: Seq<char>, start_x: int, j: int)
    requires
        0 <= j,
    ensures
        start_x - j * 0x8000_0000 <= cursor_at(font, text, start_x, j) <= start_x + j
            * 0x8000_0000,
    decreases j,
{
    if j > 0 {
        lemma_cursor_bound(font, text, start_x, j - 1);
    }
}

/// The model of vertex `p` (counting from the first vertex this text emits)
/// in the batch appended for `text`: corner `p % 4` of the quad of glyph
/// `p / 4`, placed at that glyph's cursor position.
pub open spec fn emitted_vertex<C, W>(
    font: FontMetrics,
    text: Seq<char>,
    start_x: int,
    y: int,
    world_position: Option<W>,
    screen_relative: int,
    color: C,
    p: int,
) -> VertexModel<C, W> {
    quad_vertex(
        font.metric_of(text[p / 4]),
        cursor_at(font, text, start_x, p / 4),
        y,
        world_position,
        screen_relative,
        color,
        p % 4,
    )
}

/// The value of index entry `t` (counting from the first entry this text
/// emits) when the text's first vertex sits at position `base` of the
/// pending batch: the two triangles of glyph `t / 6` reference that glyph's
/// four vertices by their base offset.
pub open spec fn emitted_index(base: int, t: int) -> int {
    base + 4 * (t / 6) + quad_index_offset(t % 6)
}

/// What one flush asks of the GPU layer: replacement byte sizes where a
/// backing store must be regrown (`None` where the present store suffices),
/// the full pending lists to upload at offset 0, and the vertex and index
/// counts of the single draw.
pub struct FlushPlan<C, W> {
    pub new_vertex_capacity_bytes: Option<usize>,
    pub new_index_capacity_bytes: Option<usize>,
    pub vertex_upload: Vec<Vertex<C, W>>,
    pub index_upload: Vec<u32>,
    pub vertex_count: usize,
    pub index_count: usize,
}

/// The text batch renderer: font metrics, the pending batch, and byte-size
/// mirrors of the two GPU backing stores.
pub struct TextRenderer<C, W> {
    pub font: FontMetrics,
    pub vertex_data: Vec<Vertex<C, W>>,
    pub index_data: Vec<u32>,
    pub vertex_capacity_bytes: usize,
    pub index_capacity_bytes: usize,
    pub vertex_size_bytes: usize,
    pub appended_chars: Ghost<int>,
}

impl<C, W> TextRenderer<C, W> {
    /// Well-formedness: the font carries its zero fallback; element sizes
    /// are positive and divide their store's byte capacity; the pending
    /// batch holds exactly four vertices and six indices per appended
    /// character, few enough for 32-bit indices; and no index entry
    /// references a vertex outside the pending batch.
    pub open spec fn wf(self) -> bool {
        &&& self.font.wf()
        &&& self.vertex_size_bytes >= 1
        &&& self.vertex_capacity_bytes as int % self.vertex_size_bytes as int == 0
        &&& self.index_capacity_bytes as int % INDEX_SIZE_BYTES as int == 0
        &&& 0 <= self.appended_chars@
        &&& self.vertex_data@.len() == 4 * self.appended_chars@
        &&& self.index_data@.len() == 6 * self.appended_chars@
        &&& self.vertex_data@.len() <= u32::MAX
        &&& forall|i: int|
            0 <= i < self.index_data@.len() ==> (#[trigger] self.index_data@[i])
                < self.vertex_data@.len()
    }

    /// The element capacity of the vertex backing store.
    pub open spec fn vertex_capacity_elements(self) -> int {
        self.vertex_capacity_bytes as int / self.vertex_size_bytes as int
    }

    /// The element capacity of the index backing store.
    pub open spec fn index_capacity_elements(self) -> int {
        self.index_capacity_bytes as int / INDEX_SIZE_BYTES as int
    }

    /// Whether a flush must replace the vertex backing store.
    pub open spec fn needs_vertex_growth(self) -> bool {
        self.vertex_data@.len() > self.vertex_capacity_elements()
    }

    /// Whether a flush must replace the index backing store.
    pub open spec fn needs_index_growth(self) -> bool {
        self.index_data@.len() > self.index_capacity_elements()
    }

    /// The vertex store's byte capacity after a flush: regrown by doubling
    /// exactly when the pending vertices exceed it, untouched otherwise.
    pub open spec fn flushed_vertex_capacity_bytes(self) -> int {
        if self.needs_vertex_growth() {
            grown_size(
                grow_seed(self.vertex_capacity_bytes as int, self.vertex_size_bytes as int),
                self.vertex_data@.len() * self.vertex_size_bytes,
            )
        } else {
            self.vertex_capacity_bytes as int
        }
    }

    /// The index store's byte capacity after a flush.
    pub open spec fn flushed_index_capacity_bytes(self) -> int {
        if self.needs_index_growth() {
            grown_size(
                grow_seed(self.index_capacity_bytes as int, INDEX_SIZE_BYTES as int),
                self.index_data@.len() * INDEX_SIZE_BYTES,
            )
        } else {
            self.index_capacity_bytes as int
        }
    }

    /// Build a renderer with an empty pending batch over backing stores of
    /// `initial_buffer_size` elements each, for GPU-side vertices of
    /// `vertex_size_bytes` bytes.
    pub fn new(font: FontMetrics, initial_buffer_size: usize, vertex_size_bytes: usize) -> (r:
        TextRenderer<C, W>)
        requires
            font.wf(),
            vertex_size_bytes >= 1,
            initial_buffer_size * vertex_size_bytes <= usize::MAX,
            initial_buffer_size * INDEX_SIZE_BYTES <= usize::MAX,
        ensures
            r.wf(),
            r.font == font,
            r.vertex_data@.len() == 0,
            r.index_data@.len() == 0,
            r.vertex_size_bytes == vertex_size_bytes,
            r.vertex_capacity_bytes == initial_buffer_size * vertex_size_bytes,
            r.index_capacity_bytes == initial_buffer_size * INDEX_SIZE_BYTES,
    {
        proof {
            lemma_mod_multiples_basic(initial_buffer_size as int, vertex_size_bytes as int);
            lemma_mod_multiples_basic(initial_buffer_size as int, INDEX_SIZE_BYTES as int);
        }
        TextRenderer {
            font,
            vertex_data: Vec::new(),
            index_data: Vec::new(),
            vertex_capacity_bytes: initial_buffer_size * vertex_size_bytes,
            index_capacity_bytes: initial_buffer_size * INDEX_SIZE_BYTES,
            vertex_size_bytes,
            appended_chars: Ghost(0),
        }
    }
}

impl<C: Copy, W: Copy> TextRenderer<C, W> {
    /// Walk `text` left to right, appending four vertices and six indices
    /// per character to the pending batch: each glyph's quad sits at the
    /// running cursor (which starts at the caller's horizontal pixel
    /// position and advances by each glyph's `xadvance`), and its two
    /// triangles reference the four fresh vertices by their base offset.
    pub fn draw_text(
        &mut self,
        text: &[char],
        screen_position: [i32; 2],
        world_position: Option<W>,
        screen_relative: i32,
        color: C,
    )
        requires
            old(self).wf(),
            old(self).vertex_data@.len() + 4 * text@.len() <= u32::MAX,
        ensures
            final(self).wf(),
            final(self).font == old(self).font,
            final(self).vertex_size_bytes == old(self).vertex_size_bytes,
            final(self).vertex_capacity_bytes == old(self).vertex_capacity_bytes,
            final(self).index_capacity_bytes == old(self).index_capacity_bytes,
            final(self).appended_chars@ == old(self).appended_chars@ + text@.len(),
            final(self).vertex_data@.len() == old(self).vertex_data@.len() + 4 * text@.len(),
            final(self).index_data@.len() == old(self).index_data@.len() + 6 * text@.len(),
            forall|p: int|
                0 <= p < old(self).vertex_data@.len() ==> #[trigger] final(self).vertex_data@[p]
                    == old(self).vertex_data@[p],
            forall|t: int|
                0 <= t < old(self).index_data@.len() ==> #[trigger] final(self).index_data@[t]
                    == old(self).index_data@[t],
            forall|p: int|
                old(self).vertex_data@.len() <= p < final(self).vertex_data@.len() ==> (
                #[trigger] final(self).vertex_data@[p])@ == emitted_vertex(
                    old(self).font,
                    text@,
                    screen_position[0] as int,
                    screen_position[1] as int,
                    world_position,
                    screen_relative as int,
                    color,
                    p - old(self).vertex_data@.len(),
                ),
            forall|t: int|
                old(self).index_data@.len() <= t < final(self).index_data@.len() ==> (
                #[trigger] final(self).index_data@[t]) == emitted_index(
                    old(self).vertex_data@.len() as int,
                    t - old(self).index_data@.len(),
                ),
    {
        let ghost old_vlen: int = self.vertex_data@.len() as int;
        let ghost old_ilen: int = self.index_data@.len() as int;
        let ghost x0: int = screen_position[0] as int;
        let ghost y0: int = screen_position[1] as int;
        let mut x: i64 = screen_position[0] as i64;
        let y: i64 = screen_position[1] as i64;
        let mut i: usize = 0;
        while i < text.len()
            invariant
                self.wf(),
                i <= text@.len(),
                old_vlen == old(self).vertex_data@.len(),
                old_ilen == old(self).index_data@.len(),
                old_vlen + 4 * text@.len() <= u32::MAX,
                self.font == old(self).font,
                self.vertex_size_bytes == old(self).vertex_size_bytes,
                self.vertex_capacity_bytes == old(self).vertex_capacity_bytes,
                self.index_capacity_bytes == old(self).index_capacity_bytes,
                self.appended_chars@ == old(self).appended_chars@ + i,
                self.vertex_data@.len() == old_vlen + 4 * i,
                self.index_data@.len() == old_ilen + 6 * i,
                x0 == screen_position[0] as int,
                y0 == screen_position[1] as int,
                y == y0,
                x == cursor_at(old(self).font, text@, x0, i as int),
                forall|p: int|
                    0 <= p < old_vlen ==> #[trigger] self.vertex_data@[p] == old(
                        self,
                    ).vertex_data@[p],
                forall|t: int|
                    0 <= t < old_ilen ==> #[trigger] self.index_data@[t] == old(
                        self,
                    ).index_data@[t],
                forall|p: int|
                    old_vlen <= p < old_vlen + 4 * i ==> (#[trigger] self.vertex_data@[p])@
                        == emitted_vertex(
                        old(self).font,
                        text@,
                        x0,
                        y0,
                        world_position,
                        screen_relative as int,
                        color,
                        p - old_vlen,
                    ),
                forall|t: int|
                    old_ilen <= t < old_ilen + 6 * i ==> (#[trigger] self.index_data@[t])
                        == emitted_index(old_vlen, t - old_ilen),
            decreases text@.len() - i,
        {
            proof {
                lemma_cursor_bound(old(self).font, text@, x0, i as int);
                lemma_cursor_bound(old(self).font, text@, x0, i as int + 1);
            }
            let c: char = text[i];
            let bc: GlyphMetric = *self.font.metric(c);
            let base: usize = self.vertex_data.len();
            let x_offset: i64 = x + bc.xoffset as i64;
            let y_offset: i64 = y + bc.yoffset as i64;

            // corner 0 — top left
            self.vertex_data.push(
                Vertex {
                    position_x: x_offset,
                    position_y: y_offset,
                    tex_u: bc.x as u64,
                    tex_v: bc.y as u64,
                    world_position,
                    screen_relative,
                    color,
                },
            );
            // corner 1 — bottom left
            self.vertex_data.push(
                Vertex {
                    position_x: x_offset,
                    position_y: y_offset + bc.height as i64,
                    tex_u: bc.x as u64,
                    tex_v: bc.y as u64 + bc.height as u64,
                    world_position,
                    screen_relative,
                    color,
                },
            );
            // corner 2 — bottom right
            self.vertex_data.push(
                Vertex {
                    position_x: x_offset + bc.width as i64,
                    position_y: y_offset + bc.height as i64,
                    tex_u: bc.x as u64 + bc.width as u64,
                    tex_v: bc.y as u64 + bc.height as u64,
                    world_position,
                    screen_relative,
                    color,
                },
            );
            // corner 3 — top right
            self.vertex_data.push(
                Vertex {
                    position_x: x_offset + bc.width as i64,
                    position_y: y_offset,
                    tex_u: bc.x as u64 + bc.width as u64,
                    tex_v: bc.y as u64,
                    world_position,
                    screen_relative,
                    color,
                },
            );

            // first triangle: top-left, bottom-left, top-right
            self.index_data.push((base + 0) as u32);
            self.index_data.push((base + 1) as u32);
            self.index_data.push((base + 3) as u32);
            // second triangle: top-right, bottom-left, bottom-right
            self.index_data.push((base + 3) as u32);
            self.index_data.push((base + 1) as u32);
            self.index_data.push((base + 2) as u32);

            x = x + bc.xadvance as i64;
            self.appended_chars = Ghost(self.appended_chars@ + 1);
            i = i + 1;

            proof {
                assert forall|p: int| old_vlen <= p < old_vlen + 4 * i implies (
                #[trigger] self.vertex_data@[p])@ == emitted_vertex(
                    old(self).font,
                    text@,
                    x0,
                    y0,
                    world_position,
                    screen_relative as int,
                    color,
                    p - old_vlen,
                ) by {
                    let q = p - old_vlen;
                    if q >= 4 * (i - 1) {
                        assert(q / 4 == i - 1 && q % 4 == q - 4 * (i - 1));
                    }
                }
                assert forall|t: int| old_ilen <= t < old_ilen + 6 * i implies (
                #[trigger] self.index_data@[t]) == emitted_index(old_vlen, t - old_ilen) by {
                    let s = t - old_ilen;
                    if s >= 6 * (i - 1) {
                        assert(s / 6 == i - 1 && s % 6 == s - 6 * (i - 1));
                    }
                }
            }
        }
    }

    /// Append world-anchored text: the quads carry the caller's
    /// three-component world position, a zero screen-space pixel offset,
    /// and a cleared screen-relative flag.
    pub fn draw_text_at_position(&mut self, text: &[char], world_position: W, color: C)
        requires
            old(self).wf(),
            old(self).vertex_data@.len() + 4 * text@.len() <= u32::MAX,
        ensures
            final(self).wf(),
            final(self).font == old(self).font,
            final(self).vertex_size_bytes == old(self).vertex_size_bytes,
            final(self).vertex_capacity_bytes == old(self).vertex_capacity_bytes,
            final(self).index_capacity_bytes == old(self).index_capacity_bytes,
            final(self).appended_chars@ == old(self).appended_chars@ + text@.len(),
            final(self).vertex_data@.len() == old(self).vertex_data@.len() + 4 * text@.len(),
            final(self).index_data@.len() == old(self).index_data@.len() + 6 * text@.len(),
            forall|p: int|
                0 <= p < old(self).vertex_data@.len() ==> #[trigger] final(self).vertex_data@[p]
                    == old(self).vertex_data@[p],
            forall|t: int|
                0 <= t < old(self).index_data@.len() ==> #[trigger] final(self).index_data@[t]
                    == old(self).index_data@[t],
            forall|p: int|
                old(self).vertex_data@.len() <= p < final(self).vertex_data@.len() ==> (
                #[trigger] final(self).vertex_data@[p])@ == emitted_vertex(
                    old(self).font,
                    text@,
                    0,
                    0,
                    Some(world_position),
                    0,
                    color,
                    p - old(self).vertex_data@.len(),
                ),
            forall|t: int|
                old(self).index_data@.len() <= t < final(self).index_data@.len() ==> (
                #[trigger] final(self).index_data@[t]) == emitted_index(
                    old(self).vertex_data@.len() as int,
                    t - old(self).index_data@.len(),
                ),
    {
        self.draw_text(text, [0, 0], Some(world_position), 0, color);
    }

    /// Append screen-anchored text at an integer pixel position: the quads
    /// carry no world anchor and a set screen-relative flag.
    pub fn draw_text_on_screen(&mut self, text: &[char], screen_position: [i32; 2], color: C)
        requires
            old(self).wf(),
            old(self).vertex_data@.len() + 4 * text@.len() <= u32::MAX,
        ensures
            final(self).wf(),
            final(self).font == old(self).font,
            final(self).vertex_size_bytes == old(self).vertex_size_bytes,
            final(self).vertex_capacity_bytes == old(self).vertex_capacity_bytes,
            final(self).index_capacity_bytes == old(self).index_capacity_bytes,
            final(self).appended_chars@ == old(self).appended_chars@ + text@.len(),
            final(self).vertex_data@.len() == old(self).vertex_data@.len() + 4 * text@.len(),
            final(self).index_data@.len() == old(self).index_data@.len() + 6 * text@.len(),
            forall|p: int|
                0 <= p < old(self).vertex_data@.len() ==> #[trigger] final(self).vertex_data@[p]
                    == old(self).vertex_data@[p],
            forall|t: int|
                0 <= t < old(self).index_data@.len() ==> #[trigger] final(self).index_data@[t]
                    == old(self).index_data@[t],
            forall|p: int|
                old(self).vertex_data@.len() <= p < final(self).vertex_data@.len() ==> (
                #[trigger] final(self).vertex_data@[p])@ == emitted_vertex(
                    old(self).font,
                    text@,
                    screen_position[0] as int,
                    screen_position[1] as int,
                    None::<W>,
                    1,
                    color,
                    p - old(self).vertex_data@.len(),
                ),
            forall|t: int|
                old(self).index_data@.len() <= t < final(self).index_data@.len() ==> (
                #[trigger] final(self).index_data@[t]) == emitted_index(
                    old(self).vertex_data@.len() as int,
                    t - old(self).index_data@.len(),
                ),
    {
        self.draw_text(text, screen_position, None, 1, color);
    }
}

impl<C, W> TextRenderer<C, W> {
    /// Flush the pending batch: replace (by doubled growth) each backing
    /// store the batch exceeds — at most once per store, and to a capacity
    /// that suffices — then plan one upload of both full lists at offset 0
    /// and one draw over the whole index range, and clear the batch.
    pub fn render(&mut self) -> (plan: FlushPlan<C, W>)
        requires
            old(self).wf(),
            old(self).vertex_data@.len() * old(self).vertex_size_bytes <= usize::MAX / 2,
            old(self).index_data@.len() * INDEX_SIZE_BYTES <= usize::MAX / 2,
        ensures
            final(self).wf(),
            final(self).font == old(self).font,
            final(self).vertex_size_bytes == old(self).vertex_size_bytes,
            final(self).vertex_data@.len() == 0,
            final(self).index_data@.len() == 0,
            final(self).appended_chars@ == 0,
            plan.vertex_upload@ == old(self).vertex_data@,
            plan.index_upload@ == old(self).index_data@,
            plan.vertex_count == old(self).vertex_data@.len(),
            plan.index_count == old(self).index_data@.len(),
            final(self).vertex_capacity_bytes == old(self).flushed_vertex_capacity_bytes(),
            final(self).index_capacity_bytes == old(self).flushed_index_capacity_bytes(),
            old(self).needs_vertex_growth() ==> plan.new_vertex_capacity_bytes == Some(
                final(self).vertex_capacity_bytes,
            ),
            !old(self).needs_vertex_growth() ==> plan.new_vertex_capacity_bytes == None::<usize>,
            old(self).needs_index_growth() ==> plan.new_index_capacity_bytes == Some(
                final(self).index_capacity_bytes,
            ),
            !old(self).needs_index_growth() ==> plan.new_index_capacity_bytes == None::<usize>,
            final(self).vertex_capacity_bytes >= old(self).vertex_data@.len() * old(
                self,
            ).vertex_size_bytes,
            final(self).index_capacity_bytes >= old(self).index_data@.len() * INDEX_SIZE_BYTES,
            final(self).vertex_capacity_elements() >= old(self).vertex_data@.len(),
            final(self).index_capacity_elements() >= old(self).index_data@.len(),
    {
        let vertex_count = self.vertex_data.len();
        let index_count = self.index_data.len();
        let mut new_vertex_capacity_bytes: Option<usize> = None;
        let mut new_index_capacity_bytes: Option<usize> = None;

        if vertex_count > self.vertex_capacity_bytes / self.vertex_size_bytes {
            let grown = grow_buffer(self.vertex_capacity_bytes, self.vertex_size_bytes,
                vertex_count);
            proof {
                let vsize = self.vertex_size_bytes as int;
                let seed = grow_seed(self.vertex_capacity_bytes as int, vsize);
                let required = vertex_count as int * vsize;
                lemma_grown_size_sufficient(seed, required);
                lemma_grown_size_pow2(seed, required);
                let k = choose|k: nat| grown_size(seed, required) == seed * pow2(k);
                vstd::arithmetic::div_mod::lemma_fundamental_div_mod(
                    self.vertex_capacity_bytes as int,
                    vsize,
                );
                let m = if self.vertex_capacity_bytes == 0 {
                    1int
                } else {
                    self.vertex_capacity_bytes as int / vsize
                };
                assert(seed == m * vsize);
                let p2 = pow2(k) as int;
                assert(seed * p2 == (m * p2) * vsize) by (nonlinear_arith)
                    requires
                        seed == m * vsize,
                ;
                lemma_mod_multiples_basic(m * p2, vsize);
                lemma_div_by_multiple(vertex_count as int, vsize);
                lemma_div_is_ordered(required, grown as int, vsize);
            }
            self.vertex_capacity_bytes = grown;
            new_vertex_capacity_bytes = Some(grown);
        } else {
            proof {
                let vsize = self.vertex_size_bytes as int;
                let q = self.vertex_capacity_bytes as int / vsize;
                vstd::arithmetic::div_mod::lemma_fundamental_div_mod(
                    self.vertex_capacity_bytes as int,
                    vsize,
                );
                assert(vertex_count as int * vsize <= q * vsize) by (nonlinear_arith)
                    requires
                        vertex_count as int <= q,
                        vsize >= 1,
                ;
            }
        }

        if index_count > self.index_capacity_bytes / INDEX_SIZE_BYTES {
            let grown = grow_buffer(self.index_capacity_bytes, INDEX_SIZE_BYTES, index_count);
            proof {
                let isize_ = INDEX_SIZE_BYTES as int;
                let seed = grow_seed(self.index_capacity_bytes as int, isize_);
                let required = index_count as int * isize_;
                lemma_grown_size_sufficient(seed, required);
                lemma_grown_size_pow2(seed, required);
                let k = choose|k: nat| grown_size(seed, required) == seed * pow2(k);
                vstd::arithmetic::div_mod::lemma_fundamental_div_mod(
                    self.index_capacity_bytes as int,
                    isize_,
                );
                let m = if self.index_capacity_bytes == 0 {
                    1int
                } else {
                    self.index_capacity_bytes as int / isize_
                };
                assert(seed == m * isize_);
                let p2 = pow2(k) as int;
                assert(seed * p2 == (m * p2) * isize_) by (nonlinear_arith)
                    requires
                        seed == m * isize_,
                ;
                lemma_mod_multiples_basic(m * p2, isize_);
                lemma_div_by_multiple(index_count as int, isize_);
                lemma_div_is_ordered(required, grown as int, isize_);
            }
            self.index_capacity_bytes = grown;
            new_index_capacity_bytes = Some(grown);
        } else {
            proof {
                let isize_ = INDEX_SIZE_BYTES as int;
                let q = self.index_capacity_bytes as int / isize_;
                vstd::arithmetic::div_mod::lemma_fundamental_div_mod(
                    self.index_capacity_bytes as int,
                    isize_,
                );
                assert(index_count as int * isize_ <= q * isize_) by (nonlinear_arith)
                    requires
                        index_count as int <= q,
                        isize_ >= 1,
                ;
            }
        }

        let mut vertex_upload: Vec<Vertex<C, W>> = Vec::new();
        let mut index_upload: Vec<u32> = Vec::new();
        core::mem::swap(&mut vertex_upload, &mut self.vertex_data);
        core::mem::swap(&mut index_upload, &mut self.index_data);
        self.appended_chars = Ghost(0);

        FlushPlan {
            new_vertex_capacity_bytes,
            new_index_capacity_bytes,
            vertex_upload,
            index_upload,
            vertex_count,
            index_count,
        }
    }
}

/// However many `draw_text` calls have accumulated since the last flush, the
/// pending batch holds exactly four vertices and six indices per appended
/// character — six index entries for every four vertices.
pub proof fn lemma_batch_counts<C, W>(s: TextRenderer<C, W>)
    requires
        s.wf(),
    ensures
        s.vertex_data@.len() == 4 * s.appended_chars@,
        s.index_data@.len() == 6 * s.appended_chars@,
        2 * s.index_data@.len() == 3 * s.vertex_data@.len(),
{
}

/// Flush idempotence: a flushed renderer's pending batch is empty, and
/// flushing it again draws a zero-length index range and leaves both
/// backing-store capacities exactly as they were — an empty batch never
/// exceeds a store.
pub proof fn lemma_flush_idempotent<C, W>(s: TextRenderer<C, W>)
    requires
        s.wf(),
        s.vertex_data@.len() == 0,
        s.index_data@.len() == 0,
    ensures
        !s.needs_vertex_growth(),
        !s.needs_index_growth(),
        s.flushed_vertex_capacity_bytes() == s.vertex_capacity_bytes,
        s.flushed_index_capacity_bytes() == s.index_capacity_bytes,
{
    lemma_div_pos_is_pos(s.vertex_capacity_bytes as int, s.vertex_size_bytes as int);
    lemma_div_pos_is_pos(s.index_capacity_bytes as int, INDEX_SIZE_BYTES as int);
}

/// Growth correctness: whether or not a flush replaces a backing store, the
/// capacity it settles on holds the whole pending batch, so one replacement
/// per exceeded store suffices — the store cannot be exceeded again within
/// the same flush.
pub proof fn lemma_flush_capacity_sufficient<C, W>(s: TextRenderer<C, W>)
    requires
        s.wf(),
    ensures
        s.flushed_vertex_capacity_bytes() >= s.vertex_data@.len() * s.vertex_size_bytes,
        s.flushed_index_capacity_bytes() >= s.index_data@.len() * INDEX_SIZE_BYTES,
{
    let vsize = s.vertex_size_bytes as int;
    if s.needs_vertex_growth() {
        lemma_grown_size_sufficient(
            grow_seed(s.vertex_capacity_bytes as int, vsize),
            s.vertex_data@.len() * vsize,
        );
    } else {
        let q = s.vertex_capacity_bytes as int / vsize;
        vstd::arithmetic::div_mod::lemma_fundamental_div_mod(s.vertex_capacity_bytes as int, vsize);
        assert(s.vertex_data@.len() * vsize <= q * vsize) by (nonlinear_arith)
            requires
                s.vertex_data@.len() <= q,
                vsize >= 1,
        ;
    }
    let isize_ = INDEX_SIZE_BYTES as int;
    if s.needs_index_growth() {
        lemma_grown_size_sufficient(
            grow_seed(s.index_capacity_bytes as int, isize_),
            s.index_data@.len() * isize_,
        );
    } else {
        let q = s.index_capacity_bytes as int / isize_;
        vstd::arithmetic::div_mod::lemma_fundamental_div_mod(s.index_capacity_bytes as int, isize_);
        assert(s.index_data@.len() * isize_ <= q * isize_) by (nonlinear_arith)
            requires
                s.index_data@.len() <= q,
                isize_ >= 1,
        ;
    }
}

} // verus!
