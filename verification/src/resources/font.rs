//! Bitmap font descriptions and the glyph lookup built from them.

use super::buffer::Upload;
use super::device::{BufferUsage, Transfer, COPY_DST, INDEX, VERTEX};
use std::collections::HashMap;
use vstd::layout::size_of;
use vstd::prelude::*;

verus! {

/// A font description: its glyphs and the metrics they share.
#[derive(Debug, Clone)]
pub struct FontData {
    pub pages: Vec<String>,
    pub glyphs: Vec<Glyph>,
    pub info: FontInfo,
    pub common: FontCommonInfo,
    pub distance_field: DistanceFieldInfo,
}

/// One glyph: the character it draws, where it lies in the atlas, and how it
/// is placed on the line.
#[derive(Debug, Clone)]
pub struct Glyph {
    pub id: u32,
    pub index: u32,
    pub page: u32,
    pub char: char,
    pub width: u32,
    pub height: u32,
    pub x: u32,
    pub y: u32,
    pub xoffset: i32,
    pub yoffset: i32,
    pub xadvance: u32,
    pub chnl: u32,
}

/// How the font was rasterised.
#[derive(Debug, Clone)]
pub struct FontInfo {
    pub face: String,
    pub size: u32,
    pub bold: u32,
    pub italic: u32,
    pub charset: Vec<char>,
    pub unicode: u32,
    pub stretch_h: u32,
    pub smooth: u32,
    pub aa: u32,
    pub padding: [u32; 4],
    pub spacing: [u32; 2],
}

/// Metrics shared by every glyph of the font.
#[derive(Debug, Clone)]
pub struct FontCommonInfo {
    pub line_height: u32,
    pub base: u32,
    pub scale_w: u32,
    pub scale_h: u32,
    pub pages: u32,
    pub packed: u32,
    pub alpha_channel: u32,
    pub red_channel: u32,
    pub green_channel: u32,
    pub blue_channel: u32,
}

/// The distance field the atlas encodes.
#[derive(Debug, Clone)]
pub struct DistanceFieldInfo {
    pub field_type: String,
    pub distance_range: u32,
}

impl Glyph {
    /// The glyph covers no pixels: it moves the pen and draws nothing.
    pub open spec fn blank(&self) -> bool {
        self.width == 0 || self.height == 0
    }

    /// Whether the glyph covers no pixels.
    pub fn is_blank(&self) -> (blank: bool)
        ensures
            blank == self.blank(),
    {
        self.width == 0 || self.height == 0
    }
}

/// How the texels of an atlas lie in the bytes that are uploaded: four bytes
/// a texel, row after row without gaps.
#[derive(Debug, Clone, Copy, PartialEq, Eq, Structural)]
pub struct AtlasLayout {
    pub width: u32,
    pub height: u32,
    pub bytes_per_row: u32,
    pub rows_per_image: u32,
}

/// The layout of an atlas of `width` by `height` texels.
pub fn atlas_layout(width: u32, height: u32) -> (layout: AtlasLayout)
    requires
        4 * width <= u32::MAX,
    ensures
        layout == (AtlasLayout {
            width,
            height,
            bytes_per_row: (4 * width) as u32,
            rows_per_image: height,
        }),
{
    AtlasLayout { width, height, bytes_per_row: 4 * width, rows_per_image: height }
}

/// Why a font description cannot be used.
#[derive(Debug, Clone, Copy, PartialEq, Eq, Structural)]
pub enum FontError {
    /// The font has no glyph for the character that stands in for
    /// characters it cannot draw.
    Unsupported { character: char },
}

/// The position of the glyph that draws `c`: the last one in `glyphs` that
/// names `c`, if any does.
pub open spec fn glyph_position(glyphs: Seq<Glyph>, c: char) -> Option<int>
    decreases glyphs.len(),
{
    if glyphs.len() == 0 {
        None
    } else if glyphs.last().char == c {
        Some(glyphs.len() - 1)
    } else {
        glyph_position(glyphs.drop_last(), c)
    }
}

/// A position that `glyph_position` finds is a position in `glyphs`, the
/// glyph there names `c`, and no later glyph does.
pub proof fn lemma_glyph_position(glyphs: Seq<Glyph>, c: char)
    ensures
        (match glyph_position(glyphs, c) {
            Some(at) => {
                &&& 0 <= at < glyphs.len()
                &&& glyphs[at].char == c
                &&& forall|later: int| at < later < glyphs.len() ==> glyphs[later].char != c
            },
            None => forall|at: int| 0 <= at < glyphs.len() ==> glyphs[at].char != c,
        }),
    decreases glyphs.len(),
{
    if glyphs.len() > 0 && glyphs.last().char != c {
        let front = glyphs.drop_last();
        lemma_glyph_position(front, c);
        assert forall|at: int| 0 <= at < front.len() implies front[at] == #[trigger] glyphs[at] by {}
    }
}

/// A font description with a lookup from characters to glyphs.
pub struct Font {
    unknown_char: char,
    info: FontData,
    glyph_map: HashMap<u32, usize>,
}

impl Font {
    /// The description the font was made from.
    pub closed spec fn data(&self) -> FontData {
        self.info
    }

    /// The character whose glyph stands in for characters without one.
    pub closed spec fn fallback(&self) -> char {
        self.unknown_char
    }

    /// The lookup agrees with the glyphs of the description, and the
    /// stand-in character has a glyph.
    pub closed spec fn wf(&self) -> bool {
        &&& forall|c: char| #[trigger]
            self.glyph_map@.contains_key(c as u32) <==> glyph_position(self.info.glyphs@, c)
                is Some
        &&& forall|c: char| #[trigger]
            self.glyph_map@.contains_key(c as u32) ==> glyph_position(self.info.glyphs@, c)
                == Some(self.glyph_map@[c as u32] as int)
        &&& glyph_position(self.info.glyphs@, self.unknown_char) is Some
    }

    /// The glyph the font draws `c` with: the one for `c` where there is
    /// one, the stand-in glyph otherwise.
    pub open spec fn resolved(&self, c: char) -> Glyph {
        match glyph_position(self.data().glyphs@, c) {
            Some(at) => self.data().glyphs@[at],
            None => self.data().glyphs@[glyph_position(
                self.data().glyphs@,
                self.fallback(),
            )->0],
        }
    }

    /// A font over `info` that draws characters without a glyph as
    /// `unknown_char`. Fails when `unknown_char` has no glyph itself.
    pub fn new(info: FontData, unknown_char: char) -> (font: Result<Font, FontError>)
        ensures
            font is Ok <==> glyph_position(info.glyphs@, unknown_char) is Some,
            font matches Ok(font) ==> font.wf() && font.data() == info && font.fallback()
                == unknown_char,
            font matches Err(error) ==> error == (FontError::Unsupported {
                character: unknown_char,
            }),
    {
        broadcast use vstd::std_specs::hash::group_hash_axioms;

        let mut glyph_map: HashMap<u32, usize> = HashMap::new();
        let mut i: usize = 0;
        while i < info.glyphs.len()
            invariant
                i <= info.glyphs.len(),
                forall|c: char| #[trigger]
                    glyph_map@.contains_key(c as u32) <==> glyph_position(
                        info.glyphs@.take(i as int),
                        c,
                    ) is Some,
                forall|c: char| #[trigger]
                    glyph_map@.contains_key(c as u32) ==> glyph_position(
                        info.glyphs@.take(i as int),
                        c,
                    ) == Some(glyph_map@[c as u32] as int),
            decreases info.glyphs.len() - i,
        {
            let named = info.glyphs[i].char;
            glyph_map.insert(named as u32, i);
            proof {
                let before = info.glyphs@.take(i as int);
                let now = info.glyphs@.take(i + 1);
                assert(now.drop_last() =~= before);
                assert(now.last() == info.glyphs@[i as int]);
            }
            i += 1;
        }
        proof {
            assert(info.glyphs@.take(i as int) =~= info.glyphs@);
        }
        if glyph_map.contains_key(&(unknown_char as u32)) {
            Ok(Font { unknown_char, info, glyph_map })
        } else {
            Err(FontError::Unsupported { character: unknown_char })
        }
    }

    /// The description the font was made from.
    pub fn info(&self) -> (info: &FontData)
        ensures
            *info == self.data(),
    {
        &self.info
    }

    /// The character whose glyph stands in for characters without one.
    pub fn unknown_char(&self) -> (c: char)
        ensures
            c == self.fallback(),
    {
        self.unknown_char
    }

    /// The glyph for `c`, if the font has one.
    pub fn glyph(&self, c: char) -> (glyph: Option<&Glyph>)
        requires
            self.wf(),
        ensures
            glyph is Some <==> glyph_position(self.data().glyphs@, c) is Some,
            glyph matches Some(glyph) ==> *glyph == self.data().glyphs@[glyph_position(
                self.data().glyphs@,
                c,
            )->0],
    {
        broadcast use vstd::std_specs::hash::group_hash_axioms;

        proof {
            lemma_glyph_position(self.info.glyphs@, c);
        }
        match self.glyph_map.get(&(c as u32)) {
            Some(at) => Some(&self.info.glyphs[*at]),
            None => None,
        }
    }

    /// The glyph the font draws `c` with: its own, or the stand-in glyph
    /// where it has none.
    pub fn resolve(&self, c: char) -> (glyph: &Glyph)
        requires
            self.wf(),
        ensures
            *glyph == self.resolved(c),
    {
        match self.glyph(c) {
            Some(glyph) => glyph,
            None => self.unknown_glyph(),
        }
    }

    /// How many characters of `text` are drawn with a glyph that covers
    /// pixels.
    pub open spec fn visible(&self, text: Seq<char>) -> nat
        decreases text.len(),
    {
        if text.len() == 0 {
            0
        } else if self.resolved(text.last()).blank() {
            self.visible(text.drop_last())
        } else {
            self.visible(text.drop_last()) + 1
        }
    }

    /// The index buffer of `text`: one quad of two triangles for each
    /// character that is drawn with a visible glyph, over four vertices of
    /// its own.
    pub fn text_indices(&self, text: &[char]) -> (indices: Vec<u32>)
        requires
            self.wf(),
            4 * self.visible(text@) <= u32::MAX,
        ensures
            indices@ == quad_indices(self.visible(text@)),
    {
        let mut indices: Vec<u32> = Vec::new();
        let mut next: u32 = 0;
        let mut at: usize = 0;
        proof {
            assert(text@.take(0) =~= Seq::<char>::empty());
            assert(indices@ =~= quad_indices(0));
        }
        while at < text.len()
            invariant
                self.wf(),
                at <= text.len(),
                4 * self.visible(text@) <= u32::MAX,
                next == 4 * self.visible(text@.take(at as int)),
                self.visible(text@.take(at as int)) <= self.visible(text@),
                indices@ == quad_indices(self.visible(text@.take(at as int))),
            decreases text.len() - at,
        {
            proof {
                assert(text@.take(at + 1).drop_last() =~= text@.take(at as int));
                self.lemma_visible_grows(text@, at + 1);
            }
            let glyph = self.resolve(text[at]);
            if !glyph.is_blank() {
                let ghost quads = self.visible(text@.take(at as int));
                indices.push(next);
                indices.push(next + 1);
                indices.push(next + 2);
                indices.push(next);
                indices.push(next + 2);
                indices.push(next + 3);
                next += 4;
                proof {
                    lemma_quad_indices_step(quads);
                    assert(indices@ =~= quad_indices(quads + 1));
                }
            }
            at += 1;
        }
        proof {
            assert(text@.take(at as int) =~= text@);
        }
        indices
    }

    /// A text has no more visible characters than characters.
    pub proof fn lemma_visible_is_bounded(&self, text: Seq<char>)
        ensures
            self.visible(text) <= text.len(),
        decreases text.len(),
    {
        if text.len() > 0 {
            self.lemma_visible_is_bounded(text.drop_last());
        }
    }

    /// A prefix of a text has no more visible characters than the text.
    pub proof fn lemma_visible_grows(&self, text: Seq<char>, prefix: int)
        requires
            0 <= prefix <= text.len(),
        ensures
            self.visible(text.take(prefix)) <= self.visible(text),
        decreases text.len(),
    {
        if prefix == text.len() {
            assert(text.take(prefix) =~= text);
        } else {
            self.lemma_visible_grows(text.drop_last(), prefix);
            assert(text.drop_last().take(prefix) =~= text.take(prefix));
        }
    }

    /// The glyph that stands in for characters without one.
    pub fn unknown_glyph(&self) -> (glyph: &Glyph)
        requires
            self.wf(),
        ensures
            *glyph == self.data().glyphs@[glyph_position(
                self.data().glyphs@,
                self.fallback(),
            )->0],
    {
        self.glyph(self.unknown_char).unwrap()
    }
}

/// The indices of `quads` quads, each drawn as the triangles `0 1 2` and
/// `0 2 3` over its own four vertices.
pub open spec fn quad_indices(quads: nat) -> Seq<u32> {
    Seq::new(
        6 * quads,
        |k: int|
            {
                let base = 4 * (k / 6);
                let corner = k % 6;
                if corner == 0 || corner == 3 {
                    base as u32
                } else if corner == 1 {
                    (base + 1) as u32
                } else if corner == 2 || corner == 4 {
                    (base + 2) as u32
                } else {
                    (base + 3) as u32
                }
            },
    )
}

/// One quad more adds its six indices behind those of the quads before.
pub proof fn lemma_quad_indices_step(quads: nat)
    ensures
        quad_indices(quads + 1) == quad_indices(quads) + seq![
            (4 * quads) as u32,
            (4 * quads + 1) as u32,
            (4 * quads + 2) as u32,
            (4 * quads) as u32,
            (4 * quads + 2) as u32,
            (4 * quads + 3) as u32,
        ],
{
    let more = quad_indices(quads + 1);
    let six = seq![
        (4 * quads) as u32,
        (4 * quads + 1) as u32,
        (4 * quads + 2) as u32,
        (4 * quads) as u32,
        (4 * quads + 2) as u32,
        (4 * quads + 3) as u32,
    ];
    let joined = quad_indices(quads) + six;
    assert(more.len() == joined.len());
    assert forall|k: int| 0 <= k < more.len() implies more[k] == joined[k] by {
        if k >= 6 * quads {
            let corner = k - 6 * quads;
            assert(k / 6 == quads && k % 6 == corner) by (nonlinear_arith)
                requires
                    0 <= corner < 6,
                    k == 6 * quads + corner,
            ;
            assert(joined[k] == six[corner]);
        }
    }
    assert(more =~= joined);
}

/// The upload that makes a device buffer of `device_size` bytes hold exactly
/// `records`, when their need is measured as `stride` bytes each: a
/// replacement of just their size where that need exceeds the buffer, and a
/// write from the start of the buffer otherwise.
pub open spec fn refit<T>(records: Seq<T>, stride: nat, device_size: nat, usage: BufferUsage)
    -> Transfer<T> {
    if records.len() * stride > device_size {
        Transfer::Replace { size: records.len() * size_of::<T>(), usage, records }
    } else {
        Transfer::Write { first: 0, offset: 0, records }
    }
}

/// The sizes of the two device buffers that hold the geometry of one text.
pub struct TextBuffer {
    num_indices: u32,
    vertex_size: u64,
    index_size: u64,
}

/// A text buffer as contracts see it.
pub struct TextModel {
    /// The number of indices to draw.
    pub num_indices: nat,
    /// The byte size of the device buffer for the vertices.
    pub vertex_size: nat,
    /// The byte size of the device buffer for the indices.
    pub index_size: nat,
}

impl View for TextBuffer {
    type V = TextModel;

    closed spec fn view(&self) -> TextModel {
        TextModel {
            num_indices: self.num_indices as nat,
            vertex_size: self.vertex_size as nat,
            index_size: self.index_size as nat,
        }
    }
}

impl TextBuffer {
    /// The usages of the device buffer for the vertices.
    pub open spec fn vertex_usage() -> BufferUsage {
        BufferUsage { bits: COPY_DST | VERTEX }
    }

    /// The usages of the device buffer for the indices.
    pub open spec fn index_usage() -> BufferUsage {
        BufferUsage { bits: COPY_DST | INDEX }
    }

    /// The byte size of a device buffer after `upload`: that of the
    /// replacement, or `size` where the buffer stays.
    pub open spec fn resized<T>(size: nat, upload: Transfer<T>) -> nat {
        match upload {
            Transfer::Replace { size: replaced, .. } => replaced,
            _ => size,
        }
    }

    /// The buffers for a text with the given geometry, and the uploads that
    /// create them: each is allocated at the size of its records and filled
    /// with them.
    pub fn new<'a, V>(verts: &'a [V], indices: &'a [u32]) -> (made: (
        TextBuffer,
        Upload<'a, V>,
        Upload<'a, u32>,
    ))
        requires
            verts@.len() * size_of::<V>() <= u64::MAX,
            indices@.len() <= u32::MAX,
        ensures
            made.0@ == (TextModel {
                num_indices: indices@.len(),
                vertex_size: verts@.len() * size_of::<V>(),
                index_size: indices@.len() * size_of::<u32>(),
            }),
            made.1@ == (Transfer::Replace {
                size: verts@.len() * size_of::<V>(),
                usage: Self::vertex_usage(),
                records: verts@,
            }),
            made.2@ == (Transfer::Replace {
                size: indices@.len() * size_of::<u32>(),
                usage: Self::index_usage(),
                records: indices@,
            }),
    {
        broadcast use vstd::layout::layout_of_primitives;

        let vertex_size: u64 = verts.len() as u64 * core::mem::size_of::<V>() as u64;
        let index_size: u64 = indices.len() as u64 * core::mem::size_of::<u32>() as u64;
        (
            TextBuffer { num_indices: indices.len() as u32, vertex_size, index_size },
            Upload::Replace {
                size: vertex_size,
                usage: BufferUsage::from_bits(COPY_DST | VERTEX),
                records: verts,
            },
            Upload::Replace {
                size: index_size,
                usage: BufferUsage::from_bits(COPY_DST | INDEX),
                records: indices,
            },
        )
    }

    /// The number of indices to draw.
    pub fn num_indices(&self) -> (count: u32)
        ensures
            count == self@.num_indices,
    {
        self.num_indices
    }

    /// Takes the geometry of a new text and returns the uploads that bring
    /// the two device buffers to hold it, vertices first. The need of both
    /// buffers is measured in vertex strides; a buffer that is too small for
    /// it is replaced by one of just the size of its records.
    pub fn update<'a, V>(&mut self, verts: &'a [V], indices: &'a [u32]) -> (uploads: (
        Upload<'a, V>,
        Upload<'a, u32>,
    ))
        requires
            verts@.len() * size_of::<V>() <= u64::MAX,
            indices@.len() <= u32::MAX,
        ensures
            uploads.0@ == refit(
                verts@,
                size_of::<V>(),
                old(self)@.vertex_size,
                Self::vertex_usage(),
            ),
            uploads.1@ == refit(
                indices@,
                size_of::<V>(),
                old(self)@.index_size,
                Self::index_usage(),
            ),
            final(self)@ == (TextModel {
                num_indices: indices@.len(),
                vertex_size: Self::resized(old(self)@.vertex_size, uploads.0@),
                index_size: Self::resized(old(self)@.index_size, uploads.1@),
            }),
    {
        broadcast use vstd::layout::layout_of_primitives;

        let stride: u64 = core::mem::size_of::<V>() as u64;
        let vertex_need: u64 = verts.len() as u64 * stride;
        let vertex_upload = if vertex_need > self.vertex_size {
            self.vertex_size = vertex_need;
            Upload::Replace {
                size: vertex_need,
                usage: BufferUsage::from_bits(COPY_DST | VERTEX),
                records: verts,
            }
        } else {
            Upload::Write { first: 0, offset: 0, records: verts }
        };
        assert(indices.len() * stride <= 0xffff_ffff * 0xffff_ffff_ffff_ffff) by (nonlinear_arith)
            requires
                indices.len() <= 0xffff_ffff,
                stride <= 0xffff_ffff_ffff_ffff,
        ;
        let index_need: u128 = indices.len() as u128 * stride as u128;
        let index_upload = if index_need > self.index_size as u128 {
            let index_size: u64 = indices.len() as u64 * core::mem::size_of::<u32>() as u64;
            self.index_size = index_size;
            Upload::Replace {
                size: index_size,
                usage: BufferUsage::from_bits(COPY_DST | INDEX),
                records: indices,
            }
        } else {
            Upload::Write { first: 0, offset: 0, records: indices }
        };
        self.num_indices = indices.len() as u32;
        (vertex_upload, index_upload)
    }
}

} // verus!
