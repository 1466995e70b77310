//! The authoritative video memory: a 1024 x 512 grid of 16-bit pixels, and
//! the rectangular blocks in which it is read and written.

use vstd::prelude::*;

use crate::pixel::{VRAM_HEIGHT, VRAM_WIDTH};

verus! {

/// Number of pixels in video memory.
pub const VRAM_PIXELS: usize = 524288;

/// A rectangle of video memory: columns `x_start..x_end` of rows
/// `y_start..y_end`, both half-open.
#[derive(Copy, Clone, Debug, PartialEq, Eq, Structural)]
pub struct RenderingRegion {
    pub x_start: u32,
    pub x_end: u32,
    pub y_start: u32,
    pub y_end: u32,
}

pub open spec fn region_width(r: RenderingRegion) -> int {
    r.x_end - r.x_start
}

pub open spec fn region_height(r: RenderingRegion) -> int {
    r.y_end - r.y_start
}

/// The region is a (possibly empty) rectangle inside video memory.
pub open spec fn region_in_vram(r: RenderingRegion) -> bool {
    &&& r.x_start <= r.x_end <= VRAM_WIDTH
    &&& r.y_start <= r.y_end <= VRAM_HEIGHT
}

pub open spec fn region_contains(r: RenderingRegion, x: int, y: int) -> bool {
    r.x_start <= x < r.x_end && r.y_start <= y < r.y_end
}

pub open spec fn in_vram(x: int, y: int) -> bool {
    0 <= x < VRAM_WIDTH && 0 <= y < VRAM_HEIGHT
}

/// The pixel at column `x` of row `y` of a row-major video memory image.
pub open spec fn pixel_at(mem: Seq<u16>, x: int, y: int) -> u16 {
    mem[y * 1024 + x]
}

/// The element at column `j` of row `i` of a row-major block `w` pixels wide.
pub open spec fn block_at(block: Seq<u16>, w: int, i: int, j: int) -> u16 {
    block[i * w + j]
}

/// The row of video memory from which the `i`-th row of a block read of `r`
/// comes: top to bottom, or bottom to top when `reverse`.
pub open spec fn source_row(r: RenderingRegion, reverse: bool, i: int) -> int {
    if reverse {
        r.y_end - 1 - i
    } else {
        r.y_start + i
    }
}

/// `block` is what a read of region `r` of `mem` yields: rows of `r` in the
/// order that `reverse` picks, each row left to right.
pub open spec fn is_block_read(mem: Seq<u16>, r: RenderingRegion, reverse: bool, block: Seq<u16>) -> bool {
    &&& block.len() == region_width(r) * region_height(r)
    &&& forall|i: int, j: int|
        0 <= i < region_height(r) && 0 <= j < region_width(r) ==> #[trigger] block_at(
            block,
            region_width(r),
            i,
            j,
        ) == pixel_at(mem, r.x_start + j, source_row(r, reverse, i))
}

/// `after` is `before` with region `r` overwritten by the row-major `block`.
pub open spec fn is_block_write(before: Seq<u16>, r: RenderingRegion, block: Seq<u16>, after: Seq<u16>) -> bool {
    &&& after.len() == before.len()
    &&& forall|x: int, y: int|
        in_vram(x, y) ==> #[trigger] pixel_at(after, x, y) == if region_contains(r, x, y) {
            block_at(block, region_width(r), y - r.y_start, x - r.x_start)
        } else {
            pixel_at(before, x, y)
        }
}

proof fn lemma_block_index(i: int, j: int, w: int, h: int)
    requires
        0 <= i < h <= VRAM_HEIGHT,
        0 <= j < w <= VRAM_WIDTH,
    ensures
        0 <= i * w,
        0 <= i * w + j < h * w <= VRAM_PIXELS,
        h * w == w * h,
        forall|i2: int| i < i2 ==> #[trigger] (i2 * w) >= i * w + j + 1,
{
    assert(0 <= i * w && 0 <= i * w + j < h * w) by (nonlinear_arith)
        requires
            0 <= i < h,
            0 <= j < w,
    ;
    assert(h * w <= 512 * 1024) by (nonlinear_arith)
        requires
            0 <= h <= 512,
            0 <= w <= 1024,
    ;
    assert(h * w == w * h) by (nonlinear_arith);
    assert forall|i2: int| i < i2 implies #[trigger] (i2 * w) >= i * w + j + 1 by {
        assert(i2 * w >= (i + 1) * w) by (nonlinear_arith)
            requires
                i < i2,
                0 <= j < w,
        ;
        assert((i + 1) * w == i * w + w) by (nonlinear_arith);
    }
}

/// The block `s`, `w` pixels wide and `h` rows high, with its rows in the
/// opposite order.
pub open spec fn rows_reversed(s: Seq<u16>, w: int, h: int) -> Seq<u16> {
    Seq::new((w * h) as nat, |k: int| block_at(s, w, h - 1 - k / w, k % w))
}

proof fn lemma_index_split(k: int, w: int, h: int)
    requires
        0 < w,
        0 <= h,
        0 <= k < w * h,
    ensures
        0 <= k / w < h,
        0 <= k % w < w,
        (k / w) * w + k % w == k,
{
    vstd::arithmetic::div_mod::lemma_fundamental_div_mod(k, w);
    let q = k / w;
    let m = k % w;
    assert(0 <= m < w);
    assert(q * w == w * q) by (nonlinear_arith);
    assert(0 <= q) by (nonlinear_arith)
        requires
            k == w * q + m,
            0 <= k,
            0 <= m < w,
    ;
    assert(q < h) by (nonlinear_arith)
        requires
            k == w * q + m,
            k < w * h,
            0 <= m,
            0 < w,
    ;
}

/// Two blocks of the same shape that agree at every row and column are equal.
proof fn lemma_blocks_equal(a: Seq<u16>, b: Seq<u16>, w: int, h: int)
    requires
        0 <= w,
        0 <= h,
        a.len() == w * h,
        b.len() == w * h,
        forall|i: int, j: int|
            0 <= i < h && 0 <= j < w ==> #[trigger] block_at(a, w, i, j) == block_at(b, w, i, j),
    ensures
        a == b,
{
    assert forall|k: int| 0 <= k < a.len() implies a[k] == b[k] by {
        if w > 0 {
            lemma_index_split(k, w, h);
            assert(block_at(a, w, k / w, k % w) == block_at(b, w, k / w, k % w));
        } else {
            assert(w * h == 0) by (nonlinear_arith)
                requires
                    w == 0,
            ;
        }
    }
    assert(a =~= b);
}

/// Row `i` of the reversed block is row `h - 1 - i` of the block.
pub proof fn lemma_rows_reversed_at(s: Seq<u16>, w: int, h: int, i: int, j: int)
    requires
        0 <= i < h,
        0 <= j < w,
    ensures
        rows_reversed(s, w, h).len() == w * h,
        block_at(rows_reversed(s, w, h), w, i, j) == block_at(s, w, h - 1 - i, j),
{
    assert(0 <= i * w + j < w * h) by (nonlinear_arith)
        requires
            0 <= i < h,
            0 <= j < w,
    ;
    assert(0 <= w * h) by (nonlinear_arith)
        requires
            0 <= h,
            0 <= w,
    ;
    vstd::arithmetic::div_mod::lemma_fundamental_div_mod_converse(i * w + j, w, i, j);
}

/// Reading a block back after writing it returns what was written.
pub proof fn lemma_write_then_read(
    before: Seq<u16>,
    r: RenderingRegion,
    block: Seq<u16>,
    after: Seq<u16>,
    read: Seq<u16>,
)
    requires
        before.len() == VRAM_PIXELS,
        region_in_vram(r),
        block.len() == region_width(r) * region_height(r),
        is_block_write(before, r, block, after),
        is_block_read(after, r, false, read),
    ensures
        read == block,
{
    let w = region_width(r);
    let h = region_height(r);
    assert forall|i: int, j: int| 0 <= i < h && 0 <= j < w implies #[trigger] block_at(read, w, i, j)
        == block_at(block, w, i, j) by {
        assert(in_vram(r.x_start + j, r.y_start + i));
        assert(pixel_at(after, r.x_start + j, r.y_start + i) == block_at(block, w, i, j));
    }
    lemma_blocks_equal(read, block, w, h);
}

/// A bottom-to-top read of a block is the top-to-bottom read with its rows
/// in the opposite order.
pub proof fn lemma_reverse_read(mem: Seq<u16>, r: RenderingRegion, down: Seq<u16>, up: Seq<u16>)
    requires
        region_in_vram(r),
        is_block_read(mem, r, false, down),
        is_block_read(mem, r, true, up),
    ensures
        up == rows_reversed(down, region_width(r), region_height(r)),
{
    let w = region_width(r);
    let h = region_height(r);
    assert forall|i: int, j: int| 0 <= i < h && 0 <= j < w implies #[trigger] block_at(up, w, i, j)
        == block_at(rows_reversed(down, w, h), w, i, j) by {
        lemma_rows_reversed_at(down, w, h, i, j);
        assert(block_at(down, w, h - 1 - i, j) == pixel_at(mem, r.x_start + j, r.y_start + (h - 1 - i)));
    }
    assert(w * h == rows_reversed(down, w, h).len());
    lemma_blocks_equal(up, rows_reversed(down, w, h), w, h);
}

/// The block `block`, `width` pixels wide and `height` rows high, with its
/// rows in the opposite order; the render target and video memory count
/// rows in opposite directions.
pub fn reverse_rows(block: &[u16], width: u32, height: u32) -> (r: Vec<u16>)
    requires
        width <= VRAM_WIDTH,
        height <= VRAM_HEIGHT,
        block@.len() == width * height,
    ensures
        r@ == rows_reversed(block@, width as int, height as int),
{
    let w = width;
    let h = height;
    let mut out: Vec<u16> = Vec::new();
    let mut i: u32 = 0;
    while i < h
        invariant
            w <= VRAM_WIDTH,
            h <= VRAM_HEIGHT,
            block@.len() == w * h,
            i <= h,
            out@.len() == i * w,
            forall|i2: int, j2: int|
                0 <= i2 < i && 0 <= j2 < w ==> #[trigger] block_at(out@, w as int, i2, j2)
                    == block_at(block@, w as int, h - 1 - i2, j2),
        decreases h - i,
    {
        let mut j: u32 = 0;
        while j < w
            invariant
                w <= VRAM_WIDTH,
                h <= VRAM_HEIGHT,
                block@.len() == w * h,
                i < h,
                j <= w,
                out@.len() == i * w + j,
                forall|i2: int, j2: int|
                    0 <= i2 < i && 0 <= j2 < w ==> #[trigger] block_at(out@, w as int, i2, j2)
                        == block_at(block@, w as int, h - 1 - i2, j2),
                forall|j2: int|
                    0 <= j2 < j ==> #[trigger] block_at(out@, w as int, i as int, j2) == block_at(
                        block@,
                        w as int,
                        h - 1 - i,
                        j2,
                    ),
            decreases w - j,
        {
            let ghost prev = out@;
            proof {
                lemma_block_index((h - 1 - i) as int, j as int, w as int, h as int);
                lemma_block_index(i as int, j as int, w as int, h as int);
            }
            let k = ((h - 1 - i) as usize) * (w as usize) + (j as usize);
            out.push(block[k]);
            proof {
                assert forall|i2: int, j2: int| 0 <= i2 < i && 0 <= j2 < w implies #[trigger] block_at(
                    out@,
                    w as int,
                    i2,
                    j2,
                ) == block_at(block@, w as int, h - 1 - i2, j2) by {
                    lemma_block_index(i2, j2, w as int, h as int);
                    assert(block_at(out@, w as int, i2, j2) == block_at(prev, w as int, i2, j2));
                }
                assert forall|j2: int| 0 <= j2 < j + 1 implies #[trigger] block_at(
                    out@,
                    w as int,
                    i as int,
                    j2,
                ) == block_at(block@, w as int, h - 1 - i, j2) by {
                    if j2 < j {
                        assert(block_at(out@, w as int, i as int, j2) == block_at(
                            prev,
                            w as int,
                            i as int,
                            j2,
                        ));
                    }
                }
            }
            j = j + 1;
        }
        proof {
            assert((i + 1) * w == i * w + w) by (nonlinear_arith);
        }
        i = i + 1;
    }
    proof {
        assert(h * w == w * h) by (nonlinear_arith);
        let rr = rows_reversed(block@, w as int, h as int);
        assert forall|i2: int, j2: int| 0 <= i2 < h && 0 <= j2 < w implies #[trigger] block_at(
            out@,
            w as int,
            i2,
            j2,
        ) == block_at(rr, w as int, i2, j2) by {
            lemma_rows_reversed_at(block@, w as int, h as int, i2, j2);
        }
        lemma_blocks_equal(out@, rr, w as int, h as int);
    }
    out
}

/// The authoritative pixel store.
pub struct Vram {
    data: Vec<u16>,
}

impl View for Vram {
    type V = Seq<u16>;

    closed spec fn view(&self) -> Seq<u16> {
        self.data@
    }
}

impl Vram {
    pub open spec fn wf(&self) -> bool {
        self@.len() == VRAM_PIXELS
    }

    /// Video memory with every pixel zero.
    pub fn new() -> (r: Vram)
        ensures
            r.wf(),
            forall|x: int, y: int| in_vram(x, y) ==> #[trigger] pixel_at(r@, x, y) == 0,
    {
        let mut data: Vec<u16> = Vec::new();
        let mut i: usize = 0;
        while i < VRAM_PIXELS
            invariant
                i <= VRAM_PIXELS,
                data@.len() == i,
                forall|k: int| 0 <= k < i ==> data@[k] == 0,
            decreases VRAM_PIXELS - i,
        {
            data.push(0);
            i = i + 1;
        }
        Vram { data }
    }

    /// The pixel at column `x` of row `y`.
    pub fn pixel(&self, x: u32, y: u32) -> (r: u16)
        requires
            self.wf(),
            in_vram(x as int, y as int),
        ensures
            r == pixel_at(self@, x as int, y as int),
    {
        self.data[(y as usize) * 1024 + (x as usize)]
    }

    fn set_pixel(&mut self, x: u32, y: u32, value: u16)
        requires
            old(self).wf(),
            in_vram(x as int, y as int),
        ensures
            final(self).wf(),
            forall|x2: int, y2: int|
                in_vram(x2, y2) ==> #[trigger] pixel_at(final(self)@, x2, y2) == if x2 == x
                    && y2 == y {
                    value
                } else {
                    pixel_at(old(self)@, x2, y2)
                },
    {
        let index = (y as usize) * 1024 + (x as usize);
        self.data.set(index, value);
        assert forall|x2: int, y2: int| in_vram(x2, y2) && !(x2 == x && y2 == y) implies y2 * 1024
            + x2 != index by {}
    }

    /// Writes the row-major `block` into region `r`.
    pub fn write_block(&mut self, r: &RenderingRegion, block: &[u16])
        requires
            old(self).wf(),
            region_in_vram(*r),
            block@.len() == region_width(*r) * region_height(*r),
        ensures
            final(self).wf(),
            is_block_write(old(self)@, *r, block@, final(self)@),
    {
        let w = r.x_end - r.x_start;
        let h = r.y_end - r.y_start;
        let ghost before = self@;
        let mut i: u32 = 0;
        while i < h
            invariant
                self.wf(),
                region_in_vram(*r),
                w == r.x_end - r.x_start,
                h == r.y_end - r.y_start,
                block@.len() == w * h,
                before.len() == VRAM_PIXELS,
                i <= h,
                forall|x: int, y: int|
                    in_vram(x, y) ==> #[trigger] pixel_at(self@, x, y) == if region_contains(*r, x, y)
                        && y < r.y_start + i {
                        block_at(block@, w as int, y - r.y_start, x - r.x_start)
                    } else {
                        pixel_at(before, x, y)
                    },
            decreases h - i,
        {
            let mut j: u32 = 0;
            while j < w
                invariant
                    self.wf(),
                    region_in_vram(*r),
                    w == r.x_end - r.x_start,
                    h == r.y_end - r.y_start,
                    block@.len() == w * h,
                    i < h,
                    j <= w,
                    forall|x: int, y: int|
                        in_vram(x, y) ==> #[trigger] pixel_at(self@, x, y) == if region_contains(
                            *r,
                            x,
                            y,
                        ) && (y < r.y_start + i || (y == r.y_start + i && x < r.x_start + j)) {
                            block_at(block@, w as int, y - r.y_start, x - r.x_start)
                        } else {
                            pixel_at(before, x, y)
                        },
                decreases w - j,
            {
                proof {
                    lemma_block_index(i as int, j as int, w as int, h as int);
                }
                let k = (i as usize) * (w as usize) + (j as usize);
                let value = block[k];
                self.set_pixel(r.x_start + j, r.y_start + i, value);
                j = j + 1;
            }
            i = i + 1;
        }
    }

    /// Sets every pixel of region `r` to `value`.
    pub fn fill_block(&mut self, r: &RenderingRegion, value: u16)
        requires
            old(self).wf(),
            region_in_vram(*r),
        ensures
            final(self).wf(),
            forall|x: int, y: int|
                in_vram(x, y) ==> #[trigger] pixel_at(final(self)@, x, y) == if region_contains(
                    *r,
                    x,
                    y,
                ) {
                    value
                } else {
                    pixel_at(old(self)@, x, y)
                },
    {
        let ghost before = self@;
        let mut y: u32 = r.y_start;
        while y < r.y_end
            invariant
                self.wf(),
                region_in_vram(*r),
                r.y_start <= y <= r.y_end,
                forall|x2: int, y2: int|
                    in_vram(x2, y2) ==> #[trigger] pixel_at(self@, x2, y2) == if region_contains(
                        *r,
                        x2,
                        y2,
                    ) && y2 < y {
                        value
                    } else {
                        pixel_at(before, x2, y2)
                    },
            decreases r.y_end - y,
        {
            let mut x: u32 = r.x_start;
            while x < r.x_end
                invariant
                    self.wf(),
                    region_in_vram(*r),
                    r.y_start <= y < r.y_end,
                    r.x_start <= x <= r.x_end,
                    forall|x2: int, y2: int|
                        in_vram(x2, y2) ==> #[trigger] pixel_at(self@, x2, y2) == if region_contains(
                            *r,
                            x2,
                            y2,
                        ) && (y2 < y || (y2 == y && x2 < x)) {
                            value
                        } else {
                            pixel_at(before, x2, y2)
                        },
                decreases r.x_end - x,
            {
                self.set_pixel(x, y, value);
                x = x + 1;
            }
            y = y + 1;
        }
    }

    /// Reads region `r` as a row-major block; with `reverse` the rows come
    /// bottom to top.
    pub fn read_block(&self, r: &RenderingRegion, reverse: bool) -> (block: Vec<u16>)
        requires
            self.wf(),
            region_in_vram(*r),
        ensures
            is_block_read(self@, *r, reverse, block@),
    {
        let w = r.x_end - r.x_start;
        let h = r.y_end - r.y_start;
        let mut out: Vec<u16> = Vec::new();
        let mut i: u32 = 0;
        while i < h
            invariant
                self.wf(),
                region_in_vram(*r),
                w == r.x_end - r.x_start,
                h == r.y_end - r.y_start,
                i <= h,
                out@.len() == i * w,
                forall|i2: int, j2: int|
                    0 <= i2 < i && 0 <= j2 < w ==> #[trigger] block_at(out@, w as int, i2, j2)
                        == pixel_at(self@, r.x_start + j2, source_row(*r, reverse, i2)),
            decreases h - i,
        {
            let y = if reverse {
                r.y_end - 1 - i
            } else {
                r.y_start + i
            };
            let mut j: u32 = 0;
            while j < w
                invariant
                    self.wf(),
                    region_in_vram(*r),
                    w == r.x_end - r.x_start,
                    h == r.y_end - r.y_start,
                    i < h,
                    j <= w,
                    y == source_row(*r, reverse, i as int),
                    out@.len() == i * w + j,
                    forall|i2: int, j2: int|
                        0 <= i2 < i && 0 <= j2 < w ==> #[trigger] block_at(out@, w as int, i2, j2)
                            == pixel_at(self@, r.x_start + j2, source_row(*r, reverse, i2)),
                    forall|j2: int|
                        0 <= j2 < j ==> #[trigger] block_at(out@, w as int, i as int, j2)
                            == pixel_at(self@, r.x_start + j2, y as int),
                decreases w - j,
            {
                let ghost prev = out@;
                let value = self.pixel(r.x_start + j, y);
                out.push(value);
                proof {
                    lemma_block_index(i as int, j as int, w as int, h as int);
                    assert forall|i2: int, j2: int|
                        0 <= i2 < i && 0 <= j2 < w implies #[trigger] block_at(
                            out@,
                            w as int,
                            i2,
                            j2,
                        ) == pixel_at(self@, r.x_start + j2, source_row(*r, reverse, i2)) by {
                        lemma_block_index(i2, j2, w as int, h as int);
                        assert(block_at(out@, w as int, i2, j2) == block_at(prev, w as int, i2, j2));
                    }
                    assert forall|j2: int| 0 <= j2 < j + 1 implies #[trigger] block_at(
                        out@,
                        w as int,
                        i as int,
                        j2,
                    ) == pixel_at(self@, r.x_start + j2, y as int) by {
                        if j2 < j {
                            assert(block_at(out@, w as int, i as int, j2) == block_at(
                                prev,
                                w as int,
                                i as int,
                                j2,
                            ));
                        }
                    }
                }
                j = j + 1;
            }
            proof {
                assert((i + 1) * w == i * w + w) by (nonlinear_arith);
            }
            i = i + 1;
        }
        assert(h * w == w * h) by (nonlinear_arith);
        out
    }
}

} // verus!
