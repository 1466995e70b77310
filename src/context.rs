//! The drawing context: rendering state, video memory and the resident
//! regions, and the decisions of each drawing and transfer operation. The
//! work on the rendering device is the caller's: each operation says which
//! regions to move between video memory and the render target, and what to
//! draw, copy or clear there.

use vstd::math::min;
use vstd::prelude::*;

use std::ops::Range;

use crate::blend::{draw_blend, draw_blend_of, BlendParams};
use crate::decode::{DrawingTextureParams, DrawingVertex};
use crate::pixel::{gl_pixel_to_u16, packed_pixel, VRAM_HEIGHT, VRAM_WIDTH};
use crate::region::{
    is_block, is_half_resident, is_resident, kept_regions, overlapped_regions, RegionTracker,
};
use crate::vram::{
    in_vram, is_block_read, is_block_write, pixel_at, region_contains, region_height,
    region_in_vram, region_width, reverse_rows, rows_reversed, RenderingRegion, Vram,
};

verus! {

broadcast use vstd::seq_lib::group_seq_properties;

/// The rectangle that a pair of half-open column and row ranges names.
pub open spec fn region_of_ranges(b: (Range<u32>, Range<u32>)) -> RenderingRegion {
    RenderingRegion { x_start: b.0.start, x_end: b.0.end, y_start: b.1.start, y_end: b.1.end }
}

fn to_region(b: &(Range<u32>, Range<u32>)) -> (r: RenderingRegion)
    ensures
        r == region_of_ranges(*b),
{
    RenderingRegion { x_start: b.0.start, x_end: b.0.end, y_start: b.1.start, y_end: b.1.end }
}

/// Moves between the two stores that make a region resident: first read
/// each of `write_back` from the render target and write it to video
/// memory, in order; then, if `upload` names a region, copy it from video
/// memory to the render target.
pub struct RegionTransfer {
    pub write_back: Vec<RenderingRegion>,
    pub upload: Option<RenderingRegion>,
}

/// The 16-bit pixel of an opaque colour with a clear mask bit.
pub open spec fn fill_pixel(color: (u8, u8, u8)) -> int {
    packed_pixel(color.0, color.1, color.2, 0)
}

/// The part of the span of `n` cells from `start` that lies before `limit`,
/// as half-open bounds.
pub open spec fn span_main(start: int, n: int, limit: int) -> (int, int) {
    (start, if start + n <= limit { start + n } else { limit })
}

/// The part of the span of `n` cells from `start` that wraps round past
/// `limit` to 0, as half-open bounds.
pub open spec fn span_wrapped(start: int, n: int, limit: int) -> (int, int) {
    (0, if start + n <= limit { 0 } else { start + n - limit })
}

/// The rectangle of columns `xs` and rows `ys`.
pub open spec fn piece(xs: (int, int), ys: (int, int)) -> RenderingRegion {
    RenderingRegion {
        x_start: xs.0 as u32,
        x_end: xs.1 as u32,
        y_start: ys.0 as u32,
        y_end: ys.1 as u32,
    }
}

/// The four rectangles, some of them empty, that a fill of `size` pixels
/// from `top_left` covers once it wraps round the right and bottom edges of
/// video memory: the part in place, the part wrapped to the left edge, the
/// part wrapped to the top edge, and the part wrapped to the top-left corner.
pub open spec fn fill_pieces_of(top_left: (u32, u32), size: (u32, u32)) -> Seq<RenderingRegion> {
    let xm = span_main(top_left.0 as int, size.0 as int, 1024);
    let xw = span_wrapped(top_left.0 as int, size.0 as int, 1024);
    let ym = span_main(top_left.1 as int, size.1 as int, 512);
    let yw = span_wrapped(top_left.1 as int, size.1 as int, 512);
    seq![piece(xm, ym), piece(xw, ym), piece(xm, yw), piece(xw, yw)]
}

/// A fill from `top_left` of `size` pixels, each at most video memory's
/// own, starting inside it.
pub open spec fn fill_in_range(top_left: (u32, u32), size: (u32, u32)) -> bool {
    top_left.0 < VRAM_WIDTH && top_left.1 < VRAM_HEIGHT && size.0 <= VRAM_WIDTH && size.1
        <= VRAM_HEIGHT
}

/// Pixel `(x, y)` lies in one of the first `k` pieces that is a non-empty
/// block not resident in `set`: such pieces are filled in video memory.
pub open spec fn filled_in_vram(
    pieces: Seq<RenderingRegion>,
    k: int,
    set: Set<RenderingRegion>,
    x: int,
    y: int,
) -> bool
    decreases k,
{
    if k <= 0 {
        false
    } else {
        filled_in_vram(pieces, k - 1, set, x, y) || (is_block(pieces[k - 1]) && !is_resident(
            set,
            pieces[k - 1],
        ) && region_contains(pieces[k - 1], x, y))
    }
}

/// Cell `v` is one of the `n` cells from `start`, counted round a line of
/// `limit` cells.
pub open spec fn in_wrapped_span(v: int, start: int, n: int, limit: int) -> bool {
    (start <= v < start + n && v < limit) || v < start + n - limit
}

/// Splits a fill of `size` pixels from `top_left` into the rectangles that
/// it covers once it wraps round the edges of video memory.
pub fn fill_pieces(top_left: (u32, u32), size: (u32, u32)) -> (r: Vec<RenderingRegion>)
    requires
        fill_in_range(top_left, size),
    ensures
        r@ == fill_pieces_of(top_left, size),
        forall|i: int| 0 <= i < 4 ==> region_in_vram(#[trigger] r@[i]),
{
    let (x0, y0) = top_left;
    let (w, h) = size;
    let x_end = if x0 + w <= VRAM_WIDTH {
        x0 + w
    } else {
        VRAM_WIDTH
    };
    let x_wrap = if x0 + w <= VRAM_WIDTH {
        0
    } else {
        x0 + w - VRAM_WIDTH
    };
    let y_end = if y0 + h <= VRAM_HEIGHT {
        y0 + h
    } else {
        VRAM_HEIGHT
    };
    let y_wrap = if y0 + h <= VRAM_HEIGHT {
        0
    } else {
        y0 + h - VRAM_HEIGHT
    };
    let mut r: Vec<RenderingRegion> = Vec::new();
    r.push(RenderingRegion { x_start: x0, x_end, y_start: y0, y_end });
    r.push(RenderingRegion { x_start: 0, x_end: x_wrap, y_start: y0, y_end });
    r.push(RenderingRegion { x_start: x0, x_end, y_start: 0, y_end: y_wrap });
    r.push(RenderingRegion { x_start: 0, x_end: x_wrap, y_start: 0, y_end: y_wrap });
    assert(r@ =~= fill_pieces_of(top_left, size));
    r
}

/// With nothing resident, a fill writes to video memory exactly the pixels
/// whose column lies in the `size.0` columns from `top_left.0` and whose
/// row lies in the `size.1` rows from `top_left.1`, both counted round the
/// edges of video memory.
pub proof fn lemma_fill_covers_wrapped_span(top_left: (u32, u32), size: (u32, u32), x: int, y: int)
    requires
        fill_in_range(top_left, size),
        in_vram(x, y),
    ensures
        filled_in_vram(fill_pieces_of(top_left, size), 4, Set::<RenderingRegion>::empty(), x, y)
            == (in_wrapped_span(x, top_left.0 as int, size.0 as int, 1024) && in_wrapped_span(
            y,
            top_left.1 as int,
            size.1 as int,
            512,
        )),
{
    let p = fill_pieces_of(top_left, size);
    let e = Set::<RenderingRegion>::empty();
    reveal_with_fuel(filled_in_vram, 5);
    assert forall|i: int| 0 <= i < 4 implies !is_resident(e, #[trigger] p[i]) by {}
    assert forall|i: int| 0 <= i < 4 && region_contains(#[trigger] p[i], x, y) implies is_block(
        p[i],
    ) by {}
}

/// `after` is the status word `before` with its texture-page fields set
/// from `tp`: x page (bits 0..4), y page (bit 4), semi-transparency mode
/// (bits 5..7), colour mode (bits 7..9) and texture disable (bit 15); all
/// other bits are kept.
pub open spec fn texture_page_status(before: u32, tp: DrawingTextureParams, after: u32) -> bool {
    &&& after as int % 16 == (tp.tex_page_base[0] as int / 64) % 16
    &&& (after as int / 16) % 2 == (tp.tex_page_base[1] as int / 256) % 2
    &&& (after as int / 32) % 4 == tp.semi_transparency_mode as int % 4
    &&& (after as int / 128) % 4 == tp.tex_page_color_mode as int % 4
    &&& (after as int / 32768) % 2 == (if tp.texture_disable {
        1int
    } else {
        0int
    })
    &&& (after as int / 512) % 64 == (before as int / 512) % 64
    &&& after as int / 65536 == before as int / 65536
}

/// The semi-transparency mode field of a status word.
pub open spec fn status_semi_transparency(bits: u32) -> int {
    (bits as int / 32) % 4
}

/// The display width in pixels that a status word selects: 368 when bit 16
/// is set, else 256, 320, 512 or 640 by bits 17..19.
pub open spec fn horizontal_resolution_of(bits: u32) -> int {
    if (bits / 65536) % 2 == 1 {
        368
    } else {
        let h = (bits / 131072) % 4;
        if h == 0 {
            256
        } else if h == 1 {
            320
        } else if h == 2 {
            512
        } else {
            640
        }
    }
}

/// The display height in pixels that a status word selects: 480 when both
/// the vertical resolution bit 19 and the interlace bit 22 are set, else 240.
pub open spec fn vertical_resolution_of(bits: u32) -> int {
    if (bits / 524288) % 2 == 1 && (bits / 4194304) % 2 == 1 {
        480
    } else {
        240
    }
}

/// The columns of video memory that one row of a texture page spans for a
/// colour mode: 64 for 4-bit texels, 128 for 8-bit, 256 for 15-bit (and
/// for the reserved mode 3, read as 15-bit).
pub open spec fn texture_page_columns(color_mode: u8) -> int {
    let m = color_mode % 4;
    if m == 0 {
        64
    } else if m == 1 {
        128
    } else {
        256
    }
}

/// The block of video memory that a texture page covers: 256 rows from its
/// base, as many columns as its colour mode needs, cut at the right edge.
pub open spec fn texture_block_of(tp: DrawingTextureParams) -> RenderingRegion {
    let x = ((tp.tex_page_base[0] as int / 64) % 16) * 64;
    let y = ((tp.tex_page_base[1] as int / 256) % 2) * 256;
    let end = x + texture_page_columns(tp.tex_page_color_mode);
    RenderingRegion {
        x_start: x as u32,
        x_end: (if end <= 1024 {
            end
        } else {
            1024
        }) as u32,
        y_start: y as u32,
        y_end: (y + 256) as u32,
    }
}

/// The texture parameters that a draw uses: texture disable holds only
/// where the context allows it.
pub open spec fn effective_texture_params(tp: DrawingTextureParams, allow_disable: bool) -> DrawingTextureParams {
    if allow_disable {
        tp
    } else {
        DrawingTextureParams { texture_disable: false, ..tp }
    }
}

/// The vertex order of a draw: one triangle, or a quad as two triangles
/// that share an edge.
pub open spec fn draw_indices(vertex_count: int) -> Seq<u16> {
    if vertex_count == 4 {
        seq![0u16, 1, 2, 1, 2, 3]
    } else {
        seq![0u16, 1, 2]
    }
}

/// A draw for the rendering device, to submit after the transfers.
pub struct DrawCommand {
    /// Regions to write back to video memory and to upload, before drawing.
    pub transfer: RegionTransfer,
    /// The drawing area; the draw is scoped to it.
    pub viewport: RenderingRegion,
    /// `None` for an opaque draw, whose pixels replace the destination.
    pub blend: Option<BlendParams>,
    pub semi_transparency_mode: u8,
    pub texture_params: DrawingTextureParams,
    pub textured: bool,
    pub texture_blending: bool,
    pub semi_transparent: bool,
    pub drawing_offset: (i32, i32),
    /// The vertices to draw, as triangles.
    pub indices: Vec<u16>,
}

/// Two regions made resident one after the other, the second overlapping
/// the first: the first is sent back to video memory and only the second
/// stays resident; once the first region's content, read from the render
/// target (rows bottom to top), is written back, video memory holds it at
/// every pixel of the first region, in particular outside the second.
pub proof fn lemma_overlapping_region_replaces(
    first: RenderingRegion,
    second: RenderingRegion,
    target_pixels: Seq<u16>,
    before: Seq<u16>,
    after: Seq<u16>,
)
    requires
        region_in_vram(first),
        region_in_vram(second),
        first != second,
        crate::region::regions_overlap(first, second),
        target_pixels.len() == region_width(first) * region_height(first),
        is_block_write(
            before,
            first,
            rows_reversed(target_pixels, region_width(first), region_height(first)),
            after,
        ),
    ensures
        ({
            let once = kept_regions(Set::<RenderingRegion>::empty(), first).insert(first);
            &&& once == set![first]
            &&& !once.contains(second)
            &&& overlapped_regions(once, second) == set![first]
            &&& kept_regions(once, second).insert(second) == set![second]
        }),
        forall|x: int, y: int|
            #![trigger pixel_at(after, x, y)]
            region_contains(first, x, y) ==> pixel_at(after, x, y) == crate::vram::block_at(
                target_pixels,
                region_width(first),
                first.y_end - 1 - y,
                x - first.x_start,
            ),
{
    let once = kept_regions(Set::<RenderingRegion>::empty(), first).insert(first);
    assert(once =~= set![first]);
    assert(overlapped_regions(once, second) =~= set![first]);
    assert(kept_regions(once, second).insert(second) =~= set![second]);
    let w = region_width(first);
    let h = region_height(first);
    assert forall|x: int, y: int|
        #![trigger pixel_at(after, x, y)]
        region_contains(first, x, y) implies pixel_at(after, x, y) == crate::vram::block_at(
            target_pixels,
            w,
            first.y_end - 1 - y,
            x - first.x_start,
        ) by {
        assert(in_vram(x, y));
        crate::vram::lemma_rows_reversed_at(target_pixels, w, h, y - first.y_start, x - first.x_start);
    }
}

/// The rendering state and video memory of the emulated GPU.
pub struct GpuContext {
    /// The status register, laid out as the hardware's.
    pub gpu_stat: u32,
    pub allow_texture_disable: bool,
    pub textured_rect_flip: (bool, bool),
    pub gpu_read: Option<u32>,
    pub vram: Vram,
    /// The regions whose current content is in the render target.
    pub resident: RegionTracker,
    pub drawing_area_top_left: (u32, u32),
    pub drawing_area_bottom_right: (u32, u32),
    pub drawing_offset: (i32, i32),
    pub texture_window_mask: (u32, u32),
    pub texture_window_offset: (u32, u32),
    pub vram_display_area_start: (u32, u32),
    pub display_horizontal_range: (u32, u32),
    pub display_vertical_range: (u32, u32),
    /// Raw words of the last drawing-setting commands, kept to answer
    /// status queries.
    pub cached_gp0_e2: u32,
    pub cached_gp0_e3: u32,
    pub cached_gp0_e4: u32,
    pub cached_gp0_e5: u32,
}

/// The drawing area, whose corners are both inclusive, as a region.
pub open spec fn drawing_region(top_left: (u32, u32), bottom_right: (u32, u32)) -> RenderingRegion {
    RenderingRegion {
        x_start: top_left.0,
        x_end: (bottom_right.0 + 1) as u32,
        y_start: top_left.1,
        y_end: (bottom_right.1 + 1) as u32,
    }
}

impl GpuContext {
    pub open spec fn wf(&self) -> bool {
        self.vram.wf() && self.resident.wf()
    }

    /// The drawing area lies in video memory, its corners in order.
    pub open spec fn drawing_area_valid(&self) -> bool {
        &&& self.drawing_area_top_left.0 <= self.drawing_area_bottom_right.0 < VRAM_WIDTH
        &&& self.drawing_area_top_left.1 <= self.drawing_area_bottom_right.1 < VRAM_HEIGHT
    }

    pub open spec fn drawing_area(&self) -> RenderingRegion {
        drawing_region(self.drawing_area_top_left, self.drawing_area_bottom_right)
    }

    /// A context with cleared video memory, nothing resident and every
    /// setting zero.
    pub fn new() -> (r: GpuContext)
        ensures
            r.wf(),
            r.resident@ == Set::<RenderingRegion>::empty(),
            forall|x: int, y: int| in_vram(x, y) ==> #[trigger] pixel_at(r.vram@, x, y) == 0,
            r.gpu_stat == 0,
            !r.allow_texture_disable,
            r.textured_rect_flip == (false, false),
            r.gpu_read == None::<u32>,
            r.drawing_area_top_left == (0u32, 0u32),
            r.drawing_area_bottom_right == (0u32, 0u32),
            r.drawing_offset == (0i32, 0i32),
            r.texture_window_mask == (0u32, 0u32),
            r.texture_window_offset == (0u32, 0u32),
            r.vram_display_area_start == (0u32, 0u32),
            r.display_horizontal_range == (0u32, 0u32),
            r.display_vertical_range == (0u32, 0u32),
            r.cached_gp0_e2 == 0 && r.cached_gp0_e3 == 0 && r.cached_gp0_e4 == 0 && r.cached_gp0_e5
                == 0,
    {
        GpuContext {
            gpu_stat: 0,
            allow_texture_disable: false,
            textured_rect_flip: (false, false),
            gpu_read: None,
            vram: Vram::new(),
            resident: RegionTracker::new(),
            drawing_area_top_left: (0, 0),
            drawing_area_bottom_right: (0, 0),
            drawing_offset: (0, 0),
            texture_window_mask: (0, 0),
            texture_window_offset: (0, 0),
            vram_display_area_start: (0, 0),
            display_horizontal_range: (0, 0),
            display_vertical_range: (0, 0),
            cached_gp0_e2: 0,
            cached_gp0_e3: 0,
            cached_gp0_e4: 0,
            cached_gp0_e5: 0,
        }
    }

    /// The drawing area as a region.
    pub fn drawing_range(&self) -> (r: RenderingRegion)
        requires
            self.drawing_area_valid(),
        ensures
            r == self.drawing_area(),
            is_block(r),
    {
        RenderingRegion {
            x_start: self.drawing_area_top_left.0,
            x_end: self.drawing_area_bottom_right.0 + 1,
            y_start: self.drawing_area_top_left.1,
            y_end: self.drawing_area_bottom_right.1 + 1,
        }
    }

    /// Makes `r` resident in the render target, and says what to move:
    /// the resident regions that `r` overlaps go back to video memory, then
    /// `r` goes to the render target. Nothing moves if `r` already is
    /// resident.
    pub fn add_to_rendering_range(&mut self, r: RenderingRegion) -> (t: RegionTransfer)
        requires
            old(self).wf(),
            region_in_vram(r),
        ensures
            final(self).wf(),
            final(self).vram@ == old(self).vram@,
            old(self).resident@.contains(r) ==> final(self).resident@ == old(self).resident@
                && t.write_back@.len() == 0 && t.upload == None::<RenderingRegion>,
            !old(self).resident@.contains(r) ==> final(self).resident@ == kept_regions(
                old(self).resident@,
                r,
            ).insert(r) && t.write_back@.to_set() == overlapped_regions(old(self).resident@, r)
                && t.upload == Some(r),
            t.write_back@.no_duplicates(),
            *final(self) == (GpuContext { resident: final(self).resident, ..*old(self) }),
    {
        let was_resident = self.resident.contains(&r);
        let write_back = self.resident.make_resident(r);
        let upload = if was_resident {
            None
        } else {
            Some(r)
        };
        RegionTransfer { write_back, upload }
    }

    /// Writes a region's content, read from the render target, back to
    /// video memory. The render target counts rows upward, so
    /// `target_pixels` holds the region's rows bottom to top.
    pub fn move_from_rendering_to_vram(&mut self, r: &RenderingRegion, target_pixels: &[u16])
        requires
            old(self).wf(),
            region_in_vram(*r),
            target_pixels@.len() == region_width(*r) * region_height(*r),
        ensures
            final(self).wf(),
            is_block_write(
                old(self).vram@,
                *r,
                rows_reversed(target_pixels@, region_width(*r), region_height(*r)),
                final(self).vram@,
            ),
            final(self).resident@ == old(self).resident@,
    {
        let rows = reverse_rows(target_pixels, r.x_end - r.x_start, r.y_end - r.y_start);
        proof {
            let w = region_width(*r);
            let h = region_height(*r);
            assert(w * h == rows_reversed(target_pixels@, w, h).len());
        }
        self.vram.write_block(r, rows.as_slice());
    }

    /// The pixels of region `r` of video memory, rows bottom to top, to copy
    /// into the render target.
    pub fn move_from_vram_to_rendering(&self, r: &RenderingRegion) -> (pixels: Vec<u16>)
        requires
            self.wf(),
            region_in_vram(*r),
        ensures
            is_block_read(self.vram@, *r, true, pixels@),
    {
        self.vram.read_block(r, true)
    }

    /// The drawing area is valid and resident in the render target.
    pub open spec fn drawing_area_resident(&self) -> bool {
        self.drawing_area_valid() && self.resident@.contains(self.drawing_area())
    }

    /// The first step of every block read and write: makes the drawing area
    /// resident, and says what to move for it. The caller carries out the
    /// transfer (the write-backs reach video memory) before the read or
    /// write.
    pub fn make_drawing_area_resident(&mut self) -> (t: RegionTransfer)
        requires
            old(self).wf(),
            old(self).drawing_area_valid(),
        ensures
            final(self).wf(),
            final(self).drawing_area_resident(),
            final(self).vram@ == old(self).vram@,
            old(self).resident@.contains(old(self).drawing_area()) ==> final(self).resident@ == old(
                self,
            ).resident@ && t.write_back@.len() == 0 && t.upload == None::<RenderingRegion>,
            !old(self).resident@.contains(old(self).drawing_area()) ==> final(self).resident@
                == kept_regions(old(self).resident@, old(self).drawing_area()).insert(
                old(self).drawing_area(),
            ) && t.write_back@.to_set() == overlapped_regions(
                old(self).resident@,
                old(self).drawing_area(),
            ) && t.upload == Some(old(self).drawing_area()),
            t.write_back@.no_duplicates(),
            *final(self) == (GpuContext { resident: final(self).resident, ..*old(self) }),
    {
        let area = self.drawing_range();
        self.add_to_rendering_range(area)
    }

    /// Writes the row-major `block` to the rectangle `block_range`: to the
    /// render target when the rectangle is resident there, as the returned
    /// rows (bottom to top, the render target's order), and otherwise to
    /// video memory. The drawing area is made resident first
    /// (`make_drawing_area_resident`, its transfer carried out): a write
    /// near an active drawing joins the render target.
    pub fn write_vram_block(&mut self, block_range: (Range<u32>, Range<u32>), block: &[u16]) -> (target: Option<Vec<u16>>)
        requires
            old(self).wf(),
            old(self).drawing_area_resident(),
            region_in_vram(region_of_ranges(block_range)),
            block@.len() == region_width(region_of_ranges(block_range)) * region_height(
                region_of_ranges(block_range),
            ),
            is_block(region_of_ranges(block_range)) ==> !is_half_resident(
                old(self).resident@,
                region_of_ranges(block_range),
            ),
        ensures
            final(self).wf(),
            final(self).drawing_area_resident(),
            ({
                let b = region_of_ranges(block_range);
                if is_block(b) && is_resident(old(self).resident@, b) {
                    &&& final(self).vram@ == old(self).vram@
                    &&& target matches Some(rows) && rows@ == rows_reversed(
                        block@,
                        region_width(b),
                        region_height(b),
                    )
                } else {
                    &&& is_block_write(old(self).vram@, b, block@, final(self).vram@)
                    &&& target is None
                }
            }),
            *final(self) == (GpuContext { vram: final(self).vram, ..*old(self) }),
    {
        let b = to_region(&block_range);
        if b.x_start < b.x_end && b.y_start < b.y_end && self.resident.is_block_in_rendering(&b) {
            Some(reverse_rows(block, b.x_end - b.x_start, b.y_end - b.y_start))
        } else {
            self.vram.write_block(&b, block);
            None
        }
    }

    /// Reads the rectangle `block_range` of video memory, rows top to
    /// bottom; `None` when it is resident in the render target, which then
    /// holds its current content. As for a write, the drawing area is made
    /// resident first (`make_drawing_area_resident`, its transfer carried
    /// out); the read itself changes nothing.
    pub fn read_vram_block(&self, block_range: &(Range<u32>, Range<u32>)) -> (r: Option<Vec<u16>>)
        requires
            self.wf(),
            self.drawing_area_resident(),
            region_in_vram(region_of_ranges(*block_range)),
            is_block(region_of_ranges(*block_range)) ==> !is_half_resident(
                self.resident@,
                region_of_ranges(*block_range),
            ),
        ensures
            ({
                let b = region_of_ranges(*block_range);
                if is_block(b) && is_resident(self.resident@, b) {
                    r is None
                } else {
                    r matches Some(pixels) && is_block_read(self.vram@, b, false, pixels@)
                }
            }),
    {
        let b = to_region(block_range);
        if b.x_start < b.x_end && b.y_start < b.y_end && self.resident.is_block_in_rendering(&b) {
            None
        } else {
            Some(self.vram.read_block(&b, false))
        }
    }

    /// No piece of the fill is half resident.
    pub open spec fn fill_allowed(&self, top_left: (u32, u32), size: (u32, u32)) -> bool {
        forall|i: int|
            0 <= i < 4 && is_block(#[trigger] fill_pieces_of(top_left, size)[i])
                ==> !is_half_resident(self.resident@, fill_pieces_of(top_left, size)[i])
    }

    /// Fills `size` pixels from `top_left` with `color`, wrapping round the
    /// right and bottom edges. Each piece of the fill that is not resident
    /// is filled in video memory; the resident ones are returned, for the
    /// caller to clear to `color` in the render target.
    pub fn fill_color(&mut self, top_left: (u32, u32), size: (u32, u32), color: (u8, u8, u8)) -> (cleared: Vec<RenderingRegion>)
        requires
            old(self).wf(),
            fill_in_range(top_left, size),
            old(self).fill_allowed(top_left, size),
        ensures
            final(self).wf(),
            forall|x: int, y: int|
                in_vram(x, y) ==> #[trigger] pixel_at(final(self).vram@, x, y) == if filled_in_vram(
                    fill_pieces_of(top_left, size),
                    4,
                    old(self).resident@,
                    x,
                    y,
                ) {
                    fill_pixel(color) as u16
                } else {
                    pixel_at(old(self).vram@, x, y)
                },
            forall|p: RenderingRegion|
                #[trigger] cleared@.contains(p) ==> fill_pieces_of(top_left, size).contains(p)
                    && is_block(p) && is_resident(old(self).resident@, p),
            forall|i: int|
                0 <= i < 4 && is_block(#[trigger] fill_pieces_of(top_left, size)[i]) && is_resident(
                    old(self).resident@,
                    fill_pieces_of(top_left, size)[i],
                ) ==> cleared@.contains(fill_pieces_of(top_left, size)[i]),
            *final(self) == (GpuContext { vram: final(self).vram, ..*old(self) }),
    {
        let value = gl_pixel_to_u16(&(color.0, color.1, color.2, 0));
        let pieces = fill_pieces(top_left, size);
        let ghost before = self.vram@;
        let ghost set = self.resident@;
        let ghost orig = *self;
        let mut cleared: Vec<RenderingRegion> = Vec::new();
        let mut k: usize = 0;
        while k < 4
            invariant
                self.wf(),
                self.resident@ == set,
                *self == (GpuContext { vram: self.vram, ..orig }),
                pieces@ == fill_pieces_of(top_left, size),
                forall|i: int| 0 <= i < 4 ==> region_in_vram(#[trigger] pieces@[i]),
                forall|i: int|
                    0 <= i < 4 && is_block(#[trigger] pieces@[i]) ==> !is_half_resident(
                        set,
                        pieces@[i],
                    ),
                value as int == fill_pixel(color),
                k <= 4,
                forall|x: int, y: int|
                    in_vram(x, y) ==> #[trigger] pixel_at(self.vram@, x, y) == if filled_in_vram(
                        pieces@,
                        k as int,
                        set,
                        x,
                        y,
                    ) {
                        value
                    } else {
                        pixel_at(before, x, y)
                    },
                forall|p: RenderingRegion|
                    #[trigger] cleared@.contains(p) ==> pieces@.contains(p) && is_block(p)
                        && is_resident(set, p),
                forall|i: int|
                    0 <= i < k && is_block(#[trigger] pieces@[i]) && is_resident(set, pieces@[i])
                        ==> cleared@.contains(pieces@[i]),
            decreases 4 - k,
        {
            let p = pieces[k];
            assert(pieces@[k as int] == p);
            if p.x_start < p.x_end && p.y_start < p.y_end {
                if self.resident.is_block_in_rendering(&p) {
                    cleared.push(p);
                    assert(pieces@.contains(p));
                } else {
                    self.vram.fill_block(&p, value);
                }
            }
            k = k + 1;
        }
        cleared
    }

    /// Sets the texture-page fields of the status register from `tp`.
    pub fn update_gpu_stat_from_texture_params(&mut self, tp: &DrawingTextureParams)
        ensures
            texture_page_status(old(self).gpu_stat, *tp, final(self).gpu_stat),
            *final(self) == (GpuContext { gpu_stat: final(self).gpu_stat, ..*old(self) }),
    {
        let x = (tp.tex_page_base[0] / 64) & 0xF;
        let y = (tp.tex_page_base[1] / 256) & 1;
        let semi = (tp.semi_transparency_mode & 3) as u32;
        let mode = (tp.tex_page_color_mode & 3) as u32;
        let disable: u32 = if tp.texture_disable {
            1
        } else {
            0
        };
        let old_bits = self.gpu_stat;
        let bits = (old_bits & !0x81FFu32) | x | (y << 4u32) | (semi << 5u32) | (mode << 7u32) | (
        disable << 15u32);
        let b0 = tp.tex_page_base[0] / 64;
        let b1 = tp.tex_page_base[1] / 256;
        let sm = tp.semi_transparency_mode;
        let cm = tp.tex_page_color_mode;
        assert(x == b0 & 0xF && y == b1 & 1 && semi == (sm & 3) as u32 && mode == (cm & 3) as u32
            && disable <= 1 && bits == (old_bits & !0x81FFu32) | x | (y << 4u32) | (semi << 5u32)
            | (mode << 7u32) | (disable << 15u32) ==> bits % 16 == b0 % 16 && (bits / 16) % 2 == b1
            % 2 && (bits / 32) % 4 == (sm % 4) as u32 && (bits / 128) % 4 == (cm % 4) as u32 && (
        bits / 32768) % 2 == disable && (bits / 512) % 64 == (old_bits / 512) % 64 && bits / 65536
            == old_bits / 65536) by (bit_vector);
        self.gpu_stat = bits;
    }

    /// The semi-transparency mode held in the status register.
    pub fn semi_transparency_mode(&self) -> (r: u8)
        ensures
            r as int == status_semi_transparency(self.gpu_stat),
    {
        let bits = self.gpu_stat;
        assert((bits >> 5u32) & 3 == (bits / 32) % 4) by (bit_vector);
        ((bits >> 5u32) & 3) as u8
    }

    /// The display width that the status register selects.
    pub fn horizontal_resolution(&self) -> (r: u32)
        ensures
            r as int == horizontal_resolution_of(self.gpu_stat),
    {
        let bits = self.gpu_stat;
        assert((bits >> 16u32) & 1 == (bits / 65536) % 2) by (bit_vector);
        assert((bits >> 17u32) & 3 == (bits / 131072) % 4) by (bit_vector);
        if (bits >> 16u32) & 1 == 1 {
            368
        } else {
            let h = (bits >> 17u32) & 3;
            if h == 0 {
                256
            } else if h == 1 {
                320
            } else if h == 2 {
                512
            } else {
                640
            }
        }
    }

    /// The display height that the status register selects.
    pub fn vertical_resolution(&self) -> (r: u32)
        ensures
            r as int == vertical_resolution_of(self.gpu_stat),
    {
        let bits = self.gpu_stat;
        assert((bits >> 19u32) & 1 == (bits / 524288) % 2) by (bit_vector);
        assert((bits >> 22u32) & 1 == (bits / 4194304) % 2) by (bit_vector);
        if (bits >> 19u32) & 1 == 1 && (bits >> 22u32) & 1 == 1 {
            480
        } else {
            240
        }
    }

    /// The rectangle of the render target to present, as left, top, width
    /// and height: all of video memory, or the display area cut at the
    /// edges of video memory.
    pub fn blit_source_rect(&self, full_vram: bool) -> (r: (u32, u32, u32, u32))
        ensures
            full_vram ==> r == (0u32, 0u32, VRAM_WIDTH, VRAM_HEIGHT),
            !full_vram ==> r.0 as int == min(self.vram_display_area_start.0 as int, 1024) && r.1 as int
                == min(self.vram_display_area_start.1 as int, 512) && r.2 as int == min(
                horizontal_resolution_of(self.gpu_stat),
                1024 - r.0,
            ) && r.3 as int == min(vertical_resolution_of(self.gpu_stat), 512 - r.1),
            r.0 + r.2 <= VRAM_WIDTH,
            r.1 + r.3 <= VRAM_HEIGHT,
    {
        if full_vram {
            (0, 0, VRAM_WIDTH, VRAM_HEIGHT)
        } else {
            let (x, y) = self.vram_display_area_start;
            let left = if x <= VRAM_WIDTH {
                x
            } else {
                VRAM_WIDTH
            };
            let top = if y <= VRAM_HEIGHT {
                y
            } else {
                VRAM_HEIGHT
            };
            let w = self.horizontal_resolution();
            let h = self.vertical_resolution();
            let width = if w <= VRAM_WIDTH - left {
                w
            } else {
                VRAM_WIDTH - left
            };
            let height = if h <= VRAM_HEIGHT - top {
                h
            } else {
                VRAM_HEIGHT - top
            };
            (left, top, width, height)
        }
    }

    fn texture_block(tp: &DrawingTextureParams) -> (r: RenderingRegion)
        ensures
            r == texture_block_of(*tp),
            region_in_vram(r),
    {
        let b0 = tp.tex_page_base[0] / 64;
        let b1 = tp.tex_page_base[1] / 256;
        assert(b0 & 0xF == b0 % 16) by (bit_vector);
        assert(b1 & 1 == b1 % 2) by (bit_vector);
        let x = (b0 & 0xF) * 64;
        let y = (b1 & 1) * 256;
        let cm = tp.tex_page_color_mode;
        let m = cm & 3;
        assert(cm & 3 == cm % 4) by (bit_vector);
        let columns: u32 = if m == 0 {
            64
        } else if m == 1 {
            128
        } else {
            256
        };
        let end = if x + columns <= VRAM_WIDTH {
            x + columns
        } else {
            VRAM_WIDTH
        };
        RenderingRegion { x_start: x, x_end: end, y_start: y, y_end: y + 256 }
    }

    /// Prepares a draw of a triangle or a quad. A textured draw first sets
    /// the status register's texture page, and sends the resident regions
    /// that overlap the texture page back to video memory so that sampling
    /// sees current texels. Then the drawing area becomes resident. The
    /// returned command carries the transfers to make, in order, and the
    /// draw itself.
    pub fn draw_polygon(
        &mut self,
        vertices: &[DrawingVertex],
        texture_params: DrawingTextureParams,
        textured: bool,
        texture_blending: bool,
        semi_transparent: bool,
    ) -> (cmd: DrawCommand)
        requires
            old(self).wf(),
            old(self).drawing_area_valid(),
            3 <= vertices@.len() <= 4,
        ensures
            final(self).wf(),
            final(self).vram@ == old(self).vram@,
            ({
                let tp = if textured {
                    effective_texture_params(texture_params, old(self).allow_texture_disable)
                } else {
                    texture_params
                };
                let tex_kept = if textured {
                    kept_regions(old(self).resident@, texture_block_of(tp))
                } else {
                    old(self).resident@
                };
                let tex_evicted = if textured {
                    overlapped_regions(old(self).resident@, texture_block_of(tp))
                } else {
                    Set::<RenderingRegion>::empty()
                };
                let area = old(self).drawing_area();
                &&& textured ==> texture_page_status(old(self).gpu_stat, tp, final(self).gpu_stat)
                &&& !textured ==> final(self).gpu_stat == old(self).gpu_stat
                &&& cmd.texture_params == tp
                &&& tex_kept.contains(area) ==> final(self).resident@ == tex_kept
                    && cmd.transfer.write_back@.to_set() == tex_evicted && cmd.transfer.upload
                    == None::<RenderingRegion>
                &&& !tex_kept.contains(area) ==> final(self).resident@ == kept_regions(
                    tex_kept,
                    area,
                ).insert(area) && cmd.transfer.write_back@.to_set() == tex_evicted.union(
                    overlapped_regions(tex_kept, area),
                ) && cmd.transfer.upload == Some(area)
                &&& cmd.semi_transparency_mode as int == if textured {
                    tp.semi_transparency_mode as int
                } else {
                    status_semi_transparency(old(self).gpu_stat)
                }
            }),
            cmd.transfer.write_back@.no_duplicates(),
            cmd.viewport == old(self).drawing_area(),
            cmd.blend == draw_blend_of(cmd.semi_transparency_mode, semi_transparent),
            cmd.textured == textured,
            cmd.texture_blending == texture_blending,
            cmd.semi_transparent == semi_transparent,
            cmd.drawing_offset == old(self).drawing_offset,
            cmd.indices@ == draw_indices(vertices@.len() as int),
            *final(self) == (GpuContext {
                gpu_stat: final(self).gpu_stat,
                resident: final(self).resident,
                ..*old(self)
            }),
    {
        let ghost start = *self;
        let mut tp = texture_params;
        let mut write_back: Vec<RenderingRegion> = Vec::new();
        if textured {
            if !self.allow_texture_disable {
                tp.texture_disable = false;
            }
            self.update_gpu_stat_from_texture_params(&tp);
            let block = Self::texture_block(&tp);
            write_back = self.resident.evict_overlapping(&block);
            proof {
                assert forall|a: RenderingRegion| #[trigger] write_back@.contains(a) implies !self.resident@.contains(a) by {
                    assert(write_back@.to_set().contains(a));
                }
            }
        } else {
            assert(write_back@.to_set() =~= Set::<RenderingRegion>::empty());
        }
        assert(textured ==> tp == effective_texture_params(texture_params, start.allow_texture_disable));
        let ghost tex_evicted = write_back@;
        let ghost tex_kept = self.resident@;
        let area = self.drawing_range();
        let mut transfer = self.add_to_rendering_range(area);
        let ghost area_evicted = transfer.write_back@;
        proof {
            assert forall|a: RenderingRegion| #[trigger] area_evicted.contains(a) implies tex_kept.contains(a) by {
                if !tex_kept.contains(area) {
                    assert(area_evicted.to_set().contains(a));
                }
            }
        }
        let mut k: usize = 0;
        while k < transfer.write_back.len()
            invariant
                k <= area_evicted.len(),
                transfer.write_back@ == area_evicted,
                write_back@ == tex_evicted + area_evicted.subrange(0, k as int),
                write_back@.no_duplicates(),
                area_evicted.no_duplicates(),
                forall|a: RenderingRegion| #[trigger] tex_evicted.contains(a) ==> !tex_kept.contains(a),
                forall|a: RenderingRegion| #[trigger] area_evicted.contains(a) ==> tex_kept.contains(a),
            decreases area_evicted.len() - k,
        {
            let a = transfer.write_back[k];
            proof {
                assert(area_evicted.contains(a));
                assert(!write_back@.contains(a)) by {
                    if write_back@.contains(a) {
                        let j = choose|j: int| 0 <= j < write_back@.len() && write_back@[j] == a;
                        if j < tex_evicted.len() {
                            assert(tex_evicted.contains(a));
                        } else {
                            assert(area_evicted[j - tex_evicted.len()] == a);
                        }
                    }
                }
                let t = write_back@.push(a);
                assert forall|p: int, q: int| 0 <= p < t.len() && 0 <= q < t.len() && p != q implies t[p] != t[q] by {
                    if p == write_back@.len() {
                        assert(write_back@.contains(t[q]));
                    } else if q == write_back@.len() {
                        assert(write_back@.contains(t[p]));
                    }
                }
            }
            write_back.push(a);
            proof {
                assert(area_evicted.subrange(0, k + 1) =~= area_evicted.subrange(0, k as int).push(a));
            }
            k = k + 1;
        }
        proof {
            assert(area_evicted.subrange(0, area_evicted.len() as int) =~= area_evicted);
            assert(write_back@.to_set() =~= tex_evicted.to_set().union(area_evicted.to_set()));
        }
        transfer.write_back = write_back;
        let mode = if textured {
            tp.semi_transparency_mode
        } else {
            self.semi_transparency_mode()
        };
        let blend = draw_blend(mode, semi_transparent);
        let mut indices: Vec<u16> = Vec::new();
        indices.push(0);
        indices.push(1);
        indices.push(2);
        if vertices.len() == 4 {
            indices.push(1);
            indices.push(2);
            indices.push(3);
        }
        assert(indices@ =~= draw_indices(vertices@.len() as int));
        DrawCommand {
            transfer,
            viewport: area,
            blend,
            semi_transparency_mode: mode,
            texture_params: tp,
            textured,
            texture_blending,
            semi_transparent,
            drawing_offset: self.drawing_offset,
            indices,
        }
    }

    /// Whether block `b` is partly resident and partly not; such a block
    /// cannot be read, written or filled.
    pub fn is_block_half_resident(&self, b: &RenderingRegion) -> (r: bool)
        requires
            self.wf(),
            is_block(*b),
        ensures
            r == is_half_resident(self.resident@, *b),
    {
        self.resident.is_block_half_resident(b)
    }

    /// Whether block `b` is wholly resident in the render target.
    pub fn is_block_in_rendering(&self, b: &RenderingRegion) -> (r: bool)
        requires
            self.wf(),
            is_block(*b),
            !is_half_resident(self.resident@, *b),
        ensures
            r == is_resident(self.resident@, *b),
    {
        self.resident.is_block_in_rendering(b)
    }
}

} // verus!
