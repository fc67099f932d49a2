//! The text overlay: a layout buffer, a glyph-atlas account, and the
//! per-frame prepare/trim cycle.
//!
//! The shaping engine, the rasterizer and the GPU-resident atlas texture live
//! with the host binary; what is kept and reasoned about here is the logical
//! content they are driven with: the laid-out text and its metrics, the
//! viewport resolution, which glyphs the atlas holds, and which of them the
//! frame being built references. A draw call re-shapes its text from scratch
//! and marks every glyph it needs; the end-of-frame trim evicts exactly the
//! cache entries the frame just rendered did not reference, which bounds the
//! atlas and leaves repeated identical frames in a steady state.

use crate::wgpu_state::PhysicalSize;
use vstd::prelude::*;

verus! {

/// An RGBA color with 8 bits per channel.
#[derive(Clone, Copy, PartialEq, Eq, Structural, Debug)]
pub struct Color {
    pub r: u8,
    pub g: u8,
    pub b: u8,
    pub a: u8,
}

impl Color {
    /// An opaque color from its red, green and blue channels.
    pub fn rgb(r: u8, g: u8, b: u8) -> (c: Color)
        ensures
            c == (Color { r, g, b, a: 255 }),
    {
        Color { r, g, b, a: 255 }
    }
}

/// Identifies a rasterized glyph in the atlas: the character shaped and the
/// font size it was rasterized at, in thousandths of a point.
#[derive(Clone, Copy, PartialEq, Eq, Structural, Debug)]
pub struct GlyphKey {
    pub ch: char,
    pub font_size_milli: u32,
}

/// Whether a glyph is among those that shaping this text at this font size
/// needs.
pub open spec fn is_glyph_of(k: GlyphKey, text: Seq<char>, font_size_milli: u32) -> bool {
    k.font_size_milli == font_size_milli && text.contains(k.ch)
}

/// Two duplicate-free lists of glyphs with the same members have the same
/// length.
pub proof fn lemma_same_membership_same_len(a: Seq<GlyphKey>, b: Seq<GlyphKey>)
    requires
        a.no_duplicates(),
        b.no_duplicates(),
        forall|k: GlyphKey| a.contains(k) <==> b.contains(k),
    ensures
        a.len() == b.len(),
{
    a.unique_seq_to_set();
    b.unique_seq_to_set();
    assert(a.to_set() =~= b.to_set());
}

/// The glyph cache behind the GPU-resident atlas texture: which glyphs are
/// resident, and which of them the frame being built has referenced since the
/// last trim.
pub struct TextAtlas {
    /// Resident glyphs, each listed once.
    pub glyphs: Vec<GlyphKey>,
    /// Glyphs referenced since the last trim, each listed once; always
    /// resident.
    pub referenced: Vec<GlyphKey>,
}

impl TextAtlas {
    /// Both lists are duplicate-free and every referenced glyph is resident.
    pub open spec fn well_formed(self) -> bool {
        &&& self.glyphs@.no_duplicates()
        &&& self.referenced@.no_duplicates()
        &&& forall|k: GlyphKey| self.referenced@.contains(k) ==> self.glyphs@.contains(k)
    }

    /// An empty atlas: nothing resident, nothing referenced.
    pub fn new() -> (a: TextAtlas)
        ensures
            a.glyphs@.len() == 0,
            a.referenced@.len() == 0,
            a.well_formed(),
    {
        TextAtlas { glyphs: Vec::new(), referenced: Vec::new() }
    }

    /// How many glyphs are resident.
    pub fn cached_len(&self) -> (n: usize)
        ensures
            n == self.glyphs@.len(),
    {
        self.glyphs.len()
    }

    /// Rasterizes into the atlas every glyph the text needs that is not yet
    /// resident, and marks all of them as referenced by the current frame.
    pub fn prepare(&mut self, text: &Vec<char>, font_size_milli: u32)
        requires
            old(self).well_formed(),
        ensures
            final(self).well_formed(),
            forall|k: GlyphKey| #[trigger]
                final(self).glyphs@.contains(k) <==> (old(self).glyphs@.contains(k) || is_glyph_of(
                    k,
                    text@,
                    font_size_milli,
                )),
            forall|k: GlyphKey| #[trigger]
                final(self).referenced@.contains(k) <==> (old(self).referenced@.contains(k)
                    || is_glyph_of(k, text@, font_size_milli)),
    {
        let mut i: usize = 0;
        while i < text.len()
            invariant
                i <= text@.len(),
                self.well_formed(),
                forall|k: GlyphKey| #[trigger]
                    self.glyphs@.contains(k) <==> (old(self).glyphs@.contains(k) || is_glyph_of(
                        k,
                        text@.take(i as int),
                        font_size_milli,
                    )),
                forall|k: GlyphKey| #[trigger]
                    self.referenced@.contains(k) <==> (old(self).referenced@.contains(k)
                        || is_glyph_of(k, text@.take(i as int), font_size_milli)),
            decreases text@.len() - i,
        {
            let key = GlyphKey { ch: text[i], font_size_milli };
            let ghost glyphs_before = self.glyphs@;
            let resident = contains_key(&self.glyphs, key);
            if !resident {
                proof {
                    lemma_push_keeps_no_duplicates(self.glyphs@, key);
                }
                self.glyphs.push(key);
            }
            let ghost referenced_before = self.referenced@;
            let was_referenced = contains_key(&self.referenced, key);
            if !was_referenced {
                proof {
                    lemma_push_keeps_no_duplicates(self.referenced@, key);
                }
                self.referenced.push(key);
            }
            proof {
                text@.lemma_take_succ_push(i as int);
                assert forall|k: GlyphKey| #[trigger]
                    self.glyphs@.contains(k) <==> (old(self).glyphs@.contains(k) || is_glyph_of(
                        k,
                        text@.take(i + 1),
                        font_size_milli,
                    )) by {
                    vstd::seq_lib::lemma_seq_contains_after_push(
                        text@.take(i as int),
                        text@[i as int],
                        k.ch,
                    );
                    if !resident {
                        vstd::seq_lib::lemma_seq_contains_after_push(glyphs_before, key, k);
                    }
                    assert(k == (GlyphKey { ch: k.ch, font_size_milli: k.font_size_milli }));
                }
                assert forall|k: GlyphKey| #[trigger]
                    self.referenced@.contains(k) <==> (old(self).referenced@.contains(k)
                        || is_glyph_of(k, text@.take(i + 1), font_size_milli)) by {
                    vstd::seq_lib::lemma_seq_contains_after_push(
                        text@.take(i as int),
                        text@[i as int],
                        k.ch,
                    );
                    if !was_referenced {
                        vstd::seq_lib::lemma_seq_contains_after_push(referenced_before, key, k);
                    }
                    assert(k == (GlyphKey { ch: k.ch, font_size_milli: k.font_size_milli }));
                }
                assert forall|k: GlyphKey| self.referenced@.contains(k) implies self.glyphs@
                    .contains(k) by {
                    if !resident {
                        vstd::seq_lib::lemma_seq_contains_after_push(glyphs_before, key, k);
                    }
                }
            }
            i = i + 1;
        }
        proof {
            assert(text@.take(text@.len() as int) =~= text@);
        }
    }

    /// Evicts every resident glyph the frame just rendered did not reference
    /// and opens a fresh frame: exactly the referenced glyphs stay resident.
    /// A no-op on an empty atlas.
    pub fn trim(&mut self)
        requires
            old(self).well_formed(),
        ensures
            final(self).well_formed(),
            final(self).glyphs@ == old(self).referenced@,
            final(self).referenced@.len() == 0,
    {
        core::mem::swap(&mut self.glyphs, &mut self.referenced);
        self.referenced.clear();
    }
}

/// Trimming an empty atlas is a no-op: with nothing resident and nothing
/// referenced, the account after the trim is exactly the account before it.
/// The hypotheses are what `trim` guarantees of its result.
pub proof fn lemma_trim_on_empty_atlas(before: TextAtlas, after: TextAtlas)
    requires
        before.glyphs@.len() == 0,
        before.referenced@.len() == 0,
        after.glyphs@ == before.referenced@,
        after.referenced@.len() == 0,
    ensures
        after.glyphs@ == before.glyphs@,
        after.referenced@ == before.referenced@,
{
    assert(after.glyphs@ =~= before.glyphs@);
    assert(after.referenced@ =~= before.referenced@);
}

/// Steady state of the atlas: drawing the same text at the same font size on
/// two consecutive frames leaves the glyph cache with the same members and
/// the same size after the second frame's trim as after the first. The
/// hypotheses are what `prepare` (through `draw_text`) and `trim` guarantee:
/// the first frame prepares `a0` into `a1` and trims it into `a2`; the
/// second frame prepares `a2` into `a3` and trims it into `a4`.
pub proof fn lemma_atlas_steady_state(
    a0: TextAtlas,
    a1: TextAtlas,
    a2: TextAtlas,
    a3: TextAtlas,
    a4: TextAtlas,
    text: Seq<char>,
    font_size_milli: u32,
)
    requires
        a2.well_formed(),
        a4.well_formed(),
        a0.referenced@.len() == 0,
        forall|k: GlyphKey| #[trigger]
            a1.glyphs@.contains(k) <==> (a0.glyphs@.contains(k) || is_glyph_of(
                k,
                text,
                font_size_milli,
            )),
        forall|k: GlyphKey| #[trigger]
            a1.referenced@.contains(k) <==> (a0.referenced@.contains(k) || is_glyph_of(
                k,
                text,
                font_size_milli,
            )),
        a2.glyphs@ == a1.referenced@,
        a2.referenced@.len() == 0,
        forall|k: GlyphKey| #[trigger]
            a3.glyphs@.contains(k) <==> (a2.glyphs@.contains(k) || is_glyph_of(
                k,
                text,
                font_size_milli,
            )),
        forall|k: GlyphKey| #[trigger]
            a3.referenced@.contains(k) <==> (a2.referenced@.contains(k) || is_glyph_of(
                k,
                text,
                font_size_milli,
            )),
        a4.glyphs@ == a3.referenced@,
        a4.referenced@.len() == 0,
    ensures
        forall|k: GlyphKey| #[trigger] a4.glyphs@.contains(k) <==> a2.glyphs@.contains(k),
        a4.glyphs@.len() == a2.glyphs@.len(),
{
    assert forall|k: GlyphKey| #[trigger] a4.glyphs@.contains(k) <==> a2.glyphs@.contains(k) by {
        assert(!a0.referenced@.contains(k));
        assert(!a2.referenced@.contains(k));
    }
    lemma_same_membership_same_len(a4.glyphs@, a2.glyphs@);
}

/// Pushing a key that is not in a duplicate-free list keeps it
/// duplicate-free.
proof fn lemma_push_keeps_no_duplicates(s: Seq<GlyphKey>, key: GlyphKey)
    requires
        s.no_duplicates(),
        !s.contains(key),
    ensures
        s.push(key).no_duplicates(),
{
    assert forall|p: int, q: int|
        0 <= p < s.push(key).len() && 0 <= q < s.push(key).len() && p != q implies s.push(key)[p]
        != s.push(key)[q] by {
        if q == s.len() && 0 <= p < s.len() {
            assert(s.contains(s[p]));
        }
        if p == s.len() && 0 <= q < s.len() {
            assert(s.contains(s[q]));
        }
    }
}

/// Whether the list holds the key.
fn contains_key(v: &Vec<GlyphKey>, key: GlyphKey) -> (r: bool)
    ensures
        r == v@.contains(key),
{
    let mut i: usize = 0;
    while i < v.len()
        invariant
            i <= v@.len(),
            forall|j: int| 0 <= j < i ==> v@[j] != key,
        decreases v@.len() - i,
    {
        if v[i] == key {
            return true;
        }
        i = i + 1;
    }
    false
}

/// Font metrics of the layout buffer, in thousandths of a point: the font
/// size and the line height, both scaled by the display scale factor.
#[derive(Clone, Copy, PartialEq, Eq, Structural, Debug)]
pub struct Metrics {
    pub font_size_milli: u64,
    pub line_height_milli: u64,
}

/// The screen-space rectangle text is clipped to.
#[derive(Clone, Copy, PartialEq, Eq, Structural, Debug)]
pub struct TextBounds {
    pub left: i32,
    pub top: i32,
    pub right: i32,
    pub bottom: i32,
}

/// The fixed on-screen bounding rectangle every draw call uses.
pub open spec fn default_text_bounds() -> TextBounds {
    TextBounds { left: 0, top: 0, right: 600, bottom: 600 }
}

/// One draw call's submission to the renderer's prepare stage: where the laid
/// out text goes on screen, at what size, in what color, and clipped to which
/// bounds.
#[derive(Clone, Copy, PartialEq, Eq, Structural, Debug)]
pub struct TextArea {
    pub left: u32,
    pub top: u32,
    pub font_size_milli: u32,
    pub default_color: Color,
    pub bounds: TextBounds,
}

/// The resolution context used to position laid-out text against the current
/// framebuffer.
#[derive(Clone, Copy, PartialEq, Eq, Structural, Debug)]
pub struct Viewport {
    pub width: u32,
    pub height: u32,
}

impl Viewport {
    /// Sets the resolution glyph positions are computed against.
    pub fn update(&mut self, resolution: PhysicalSize)
        ensures
            *final(self) == (Viewport { width: resolution.width, height: resolution.height }),
    {
        self.width = resolution.width;
        self.height = resolution.height;
    }
}

/// One logical block's layout state: its current text and its metrics.
pub struct TextBuffer {
    pub text: Vec<char>,
    pub metrics: Metrics,
}

/// The base font size of the layout buffer, in thousandths of a point,
/// before display scaling.
pub const BASE_FONT_SIZE_MILLI: u64 = 24_000;

/// The base line height of the layout buffer, in thousandths of a point,
/// before display scaling.
pub const BASE_LINE_HEIGHT_MILLI: u64 = 42_000;

/// The text overlay engine: the viewport, the glyph atlas, the layout buffer,
/// and the most recent submission to the renderer's prepare stage.
pub struct TextEngine {
    pub viewport: Viewport,
    pub atlas: TextAtlas,
    pub text_buffer: TextBuffer,
    pub last_area: Option<TextArea>,
}

impl TextEngine {
    /// The atlas account is coherent.
    pub open spec fn well_formed(self) -> bool {
        self.atlas.well_formed()
    }

    /// The layout metrics initialization computes for a display scale factor
    /// given in thousandths.
    pub open spec fn scaled_metrics(scale_factor_milli: u64) -> Metrics {
        Metrics {
            font_size_milli: (BASE_FONT_SIZE_MILLI * scale_factor_milli / 1000) as u64,
            line_height_milli: (BASE_LINE_HEIGHT_MILLI * scale_factor_milli / 1000) as u64,
        }
    }

    /// Fresh shaping state: an empty atlas, an empty layout buffer with
    /// metrics scaled by the display scale factor (given in thousandths), no
    /// viewport resolution yet, and nothing submitted.
    pub fn default(scale_factor_milli: u64) -> (e: TextEngine)
        requires
            scale_factor_milli <= 0xffff_ffff,
        ensures
            e.viewport == (Viewport { width: 0, height: 0 }),
            e.atlas.glyphs@.len() == 0,
            e.atlas.referenced@.len() == 0,
            e.text_buffer.text@.len() == 0,
            e.text_buffer.metrics == Self::scaled_metrics(scale_factor_milli),
            e.last_area is None,
            e.well_formed(),
    {
        TextEngine {
            viewport: Viewport { width: 0, height: 0 },
            atlas: TextAtlas::new(),
            text_buffer: TextBuffer {
                text: Vec::new(),
                metrics: Metrics {
                    font_size_milli: BASE_FONT_SIZE_MILLI * scale_factor_milli / 1000,
                    line_height_milli: BASE_LINE_HEIGHT_MILLI * scale_factor_milli / 1000,
                },
            },
            last_area: None,
        }
    }

    /// Replaces the layout buffer's content with this text, re-shapes it from
    /// scratch, and submits it to the renderer's prepare stage at the given
    /// position, font size and color, clipped to the fixed bounds: every
    /// glyph the text needs becomes resident in the atlas and referenced by
    /// the current frame.
    pub fn draw_text(&mut self, text: Vec<char>, x: u32, y: u32, font_size_milli: u32, color: Color)
        requires
            old(self).well_formed(),
        ensures
            final(self).well_formed(),
            final(self).viewport == old(self).viewport,
            final(self).text_buffer.metrics == old(self).text_buffer.metrics,
            final(self).text_buffer.text@ == text@,
            final(self).last_area == Some(
                TextArea {
                    left: x,
                    top: y,
                    font_size_milli,
                    default_color: color,
                    bounds: default_text_bounds(),
                },
            ),
            forall|k: GlyphKey| #[trigger]
                final(self).atlas.glyphs@.contains(k) <==> (old(self).atlas.glyphs@.contains(k)
                    || is_glyph_of(k, text@, font_size_milli)),
            forall|k: GlyphKey| #[trigger]
                final(self).atlas.referenced@.contains(k) <==> (old(
                    self,
                ).atlas.referenced@.contains(k) || is_glyph_of(k, text@, font_size_milli)),
    {
        self.atlas.prepare(&text, font_size_milli);
        self.text_buffer.text = text;
        self.last_area = Some(
            TextArea {
                left: x,
                top: y,
                font_size_milli,
                default_color: color,
                bounds: TextBounds { left: 0, top: 0, right: 600, bottom: 600 },
            },
        );
    }
}

} // verus!
