//! Glyph metrics: the per-character atlas rectangle, drawing offsets and
//! horizontal advance, together with the table that maps character codes to
//! metrics. Characters absent from the table use an always-present all-zero
//! fallback metric, held alongside the table.

use std::collections::HashMap;
use vstd::prelude::*;

verus! {

broadcast use vstd::std_specs::hash::group_hash_axioms;

/// The metric of one glyph: its rectangle in the font atlas (`x`, `y`,
/// `width`, `height`, in atlas pixels), the offset at which it is drawn
/// relative to the cursor (`xoffset`, `yoffset`), and how far the cursor
/// moves after it (`xadvance`).
#[derive(Clone, Copy, PartialEq, Eq, Structural, Debug)]
pub struct GlyphMetric {
    pub x: u32,
    pub y: u32,
    pub width: u32,
    pub height: u32,
    pub xoffset: i32,
    pub yoffset: i32,
    pub xadvance: i32,
}

impl GlyphMetric {
    /// The all-zero metric: a zero-size quad that does not move the cursor.
    pub open spec fn zero_spec() -> GlyphMetric {
        GlyphMetric { x: 0, y: 0, width: 0, height: 0, xoffset: 0, yoffset: 0, xadvance: 0 }
    }

    /// Build the all-zero metric.
    pub fn zero() -> (m: GlyphMetric)
        ensures
            m == GlyphMetric::zero_spec(),
    {
        GlyphMetric { x: 0, y: 0, width: 0, height: 0, xoffset: 0, yoffset: 0, xadvance: 0 }
    }
}

impl Default for GlyphMetric {
    /// The default metric is the all-zero fallback.
    fn default() -> (m: GlyphMetric)
        ensures
            m == GlyphMetric::zero_spec(),
    {
        GlyphMetric::zero()
    }
}

/// A font's metrics: the declared atlas dimensions, the table from character
/// code to glyph metric, and the sentinel metric used for characters the
/// table does not cover.
pub struct FontMetrics {
    pub scale_w: u32,
    pub scale_h: u32,
    pub glyphs: HashMap<u32, GlyphMetric>,
    pub fallback: GlyphMetric,
}

impl FontMetrics {
    /// The fallback entry is always the all-zero metric.
    pub open spec fn wf(self) -> bool {
        self.fallback == GlyphMetric::zero_spec()
    }

    /// The metric a character resolves to: its table entry, or the all-zero
    /// fallback when the table has no entry for it.
    pub open spec fn metric_of(self, c: char) -> GlyphMetric {
        if self.glyphs@.contains_key(c as u32) {
            self.glyphs@[c as u32]
        } else {
            GlyphMetric::zero_spec()
        }
    }

    /// Assemble a font's metrics from the atlas dimensions and the glyph
    /// table, installing the all-zero fallback.
    pub fn new(scale_w: u32, scale_h: u32, glyphs: HashMap<u32, GlyphMetric>) -> (font:
        FontMetrics)
        ensures
            font.wf(),
            font.scale_w == scale_w,
            font.scale_h == scale_h,
            font.glyphs@ == glyphs@,
    {
        FontMetrics { scale_w, scale_h, glyphs, fallback: GlyphMetric::zero() }
    }

    /// Look a character up, handing back the fallback when it is absent.
    pub fn metric(&self, c: char) -> (m: &GlyphMetric)
        requires
            self.wf(),
        ensures
            *m == self.metric_of(c),
    {
        match self.glyphs.get(&(c as u32)) {
            Some(g) => g,
            None => &self.fallback,
        }
    }
}

/// A character with no entry in the metrics table resolves to the all-zero
/// fallback metric: its quad spans no atlas pixels and its advance is zero,
/// so the cursor does not move past it.
pub proof fn lemma_absent_char_uses_fallback(font: FontMetrics, c: char)
    requires
        !font.glyphs@.contains_key(c as u32),
    ensures
        font.metric_of(c) == GlyphMetric::zero_spec(),
        font.metric_of(c).width == 0,
        font.metric_of(c).height == 0,
        font.metric_of(c).xadvance == 0,
{
}

} // verus!
