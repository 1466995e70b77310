//! Decoders for the packed words of drawing commands: vertex positions,
//! colours, texture coordinates, texture pages and colour lookup tables.

use vstd::prelude::*;

verus! {

/// The signed value of an 11-bit two's-complement field whose sign is bit 10.
pub open spec fn sign_extend_11(field: int) -> int {
    if field >= 1024 {
        field - 2048
    } else {
        field
    }
}

/// The x coordinate held in bits 0..11 of a position word.
pub open spec fn position_x_of(word: u32) -> int {
    sign_extend_11(word as int % 2048)
}

/// The y coordinate held in bits 16..27 of a position word.
pub open spec fn position_y_of(word: u32) -> int {
    sign_extend_11((word as int / 65536) % 2048)
}

/// The position word that holds `x` in its low field and `y` in its high
/// field, each as an 11-bit two's-complement value.
pub open spec fn position_word(x: int, y: int) -> int {
    (x % 2048) + (y % 2048) * 65536
}

proof fn lemma_field_value(word: u32, shift: u32)
    requires
        shift == 0 || shift == 16,
    ensures
        (word >> shift) & 0x7ff == (if shift == 0 {
            word as int % 2048
        } else {
            (word as int / 65536) % 2048
        }),
{
    if shift == 0 {
        assert((word >> 0u32) & 0x7ff == word % 2048) by (bit_vector);
    } else {
        assert((word >> 16u32) & 0x7ff == (word / 65536) % 2048) by (bit_vector);
    }
}

fn decode_field(word: u32, shift: u32) -> (r: i32)
    requires
        shift == 0 || shift == 16,
    ensures
        r as int == sign_extend_11(
            if shift == 0 {
                word as int % 2048
            } else {
                (word as int / 65536) % 2048
            },
        ),
{
    let field = (word >> shift) & 0x7ff;
    proof {
        lemma_field_value(word, shift);
    }
    if field >= 1024 {
        field as i32 - 2048
    } else {
        field as i32
    }
}

/// Decodes a vertex position word: two 11-bit signed fields, x in bits 0..11
/// and y in bits 16..27, each sign-extended from its bit 10.
#[inline]
pub fn vertex_position_from_u32(position: u32) -> (r: [i32; 2])
    ensures
        r[0] as int == position_x_of(position),
        r[1] as int == position_y_of(position),
{
    let x = decode_field(position, 0);
    let y = decode_field(position, 16);
    [x, y]
}

/// Every coordinate in `-1024..=1023` survives being packed into a position
/// word and decoded again.
pub proof fn lemma_position_round_trip(x: int, y: int)
    requires
        -1024 <= x <= 1023,
        -1024 <= y <= 1023,
    ensures
        0 <= position_word(x, y) <= u32::MAX,
        position_x_of(position_word(x, y) as u32) == x,
        position_y_of(position_word(x, y) as u32) == y,
{
    let w = position_word(x, y);
    let fx = x % 2048;
    let fy = y % 2048;
    assert(0 <= fx < 2048);
    assert(0 <= fy < 2048);
    assert(fx == if x >= 0 { x } else { x + 2048 });
    assert(fy == if y >= 0 { y } else { y + 2048 });
    assert(w % 2048 == fx) by (nonlinear_arith)
        requires
            w == fx + fy * 65536,
            0 <= fx < 2048,
            0 <= fy,
    ;
    assert(w / 65536 == fy) by (nonlinear_arith)
        requires
            w == fx + fy * 65536,
            0 <= fx < 2048,
            0 <= fy,
    ;
    assert((w as u32) as int == w);
}

/// One vertex of a drawing command: a position in drawing coordinates, an
/// 8-bit-per-channel colour (red, green, blue) and a texture coordinate.
#[derive(Copy, Clone, Debug)]
pub struct DrawingVertex {
    pub position: [i32; 2],
    pub color: [u8; 3],
    pub tex_coord: [u32; 2],
}

impl Default for DrawingVertex {
    fn default() -> (r: DrawingVertex)
        ensures
            r.position[0] == 0 && r.position[1] == 0,
            r.color[0] == 0 && r.color[1] == 0 && r.color[2] == 0,
            r.tex_coord[0] == 0 && r.tex_coord[1] == 0,
    {
        DrawingVertex { position: [0, 0], color: [0, 0, 0], tex_coord: [0, 0] }
    }
}

impl DrawingVertex {
    #[inline]
    pub fn position(&self) -> (r: [i32; 2])
        ensures
            r == self.position,
    {
        self.position
    }

    #[inline]
    pub fn set_position(&mut self, position: [i32; 2])
        ensures
            *final(self) == (DrawingVertex { position, ..*old(self) }),
    {
        self.position = position;
    }

    #[inline]
    pub fn tex_coord(&self) -> (r: [u32; 2])
        ensures
            r == self.tex_coord,
    {
        self.tex_coord
    }

    #[inline]
    pub fn set_tex_coord(&mut self, tex_coord: [u32; 2])
        ensures
            *final(self) == (DrawingVertex { tex_coord, ..*old(self) }),
    {
        self.tex_coord = tex_coord;
    }

    #[inline]
    pub fn color(&self) -> (r: [u8; 3])
        ensures
            r == self.color,
    {
        self.color
    }

    /// A vertex at the origin with texture coordinate zero and the colour
    /// held in the low 24 bits of `color`.
    #[inline]
    pub fn new_with_color(color: u32) -> (r: DrawingVertex)
        ensures
            r.position[0] == 0 && r.position[1] == 0,
            r.tex_coord[0] == 0 && r.tex_coord[1] == 0,
            r.color[0] as int == color as int % 256,
            r.color[1] as int == (color as int / 256) % 256,
            r.color[2] as int == (color as int / 65536) % 256,
    {
        let mut s = DrawingVertex::default();
        s.color_from_u32(color);
        s
    }

    /// Sets the position from a packed position word.
    #[inline]
    pub fn position_from_u32(&mut self, position: u32)
        ensures
            final(self).position[0] as int == position_x_of(position),
            final(self).position[1] as int == position_y_of(position),
            final(self).color == old(self).color,
            final(self).tex_coord == old(self).tex_coord,
    {
        self.position = vertex_position_from_u32(position);
    }

    /// Sets the colour from the low 24 bits of a word: red in bits 0..8,
    /// green in bits 8..16, blue in bits 16..24.
    #[inline]
    pub fn color_from_u32(&mut self, color: u32)
        ensures
            final(self).color[0] as int == color as int % 256,
            final(self).color[1] as int == (color as int / 256) % 256,
            final(self).color[2] as int == (color as int / 65536) % 256,
            final(self).position == old(self).position,
            final(self).tex_coord == old(self).tex_coord,
    {
        let r = (color & 0xFF) as u8;
        let g = ((color >> 8u32) & 0xFF) as u8;
        let b = ((color >> 16u32) & 0xFF) as u8;
        assert(color & 0xFF == color % 256) by (bit_vector);
        assert((color >> 8u32) & 0xFF == (color / 256) % 256) by (bit_vector);
        assert((color >> 16u32) & 0xFF == (color / 65536) % 256) by (bit_vector);
        self.color = [r, g, b];
    }

    /// Sets the texture coordinate from the two low bytes of a word.
    #[inline]
    pub fn tex_coord_from_u32(&mut self, tex_coord: u32)
        ensures
            final(self).tex_coord[0] as int == tex_coord as int % 256,
            final(self).tex_coord[1] as int == (tex_coord as int / 256) % 256,
            final(self).position == old(self).position,
            final(self).color == old(self).color,
    {
        assert(tex_coord & 0xFF == tex_coord % 256) by (bit_vector);
        assert((tex_coord >> 8u32) & 0xFF == (tex_coord / 256) % 256) by (bit_vector);
        self.tex_coord = [(tex_coord & 0xFF), ((tex_coord >> 8u32) & 0xFF)];
    }
}

/// Texture addressing and blending parameters of a drawing command.
#[derive(Copy, Clone, Debug)]
pub struct DrawingTextureParams {
    /// Top-left texel of the colour lookup table.
    pub clut_base: [u32; 2],
    /// Top-left texel of the texture page.
    pub tex_page_base: [u32; 2],
    /// Semi-transparency mode, two bits.
    pub semi_transparency_mode: u8,
    /// Texture colour mode, two bits: 4-bit, 8-bit or 15-bit texels.
    pub tex_page_color_mode: u8,
    pub texture_disable: bool,
    /// Horizontal and vertical texture flip.
    pub texture_flip: (bool, bool),
}

/// `after` is `before` with the texture-page fields taken from the status
/// layout in the low bits of `param`: x page in bits 0..4 (in units of 64
/// texels), y page in bit 4 (in units of 256 rows), semi-transparency mode in
/// bits 5..7, colour mode in bits 7..9 and texture disable in bit 11.
pub open spec fn tex_page_decoded(
    before: DrawingTextureParams,
    after: DrawingTextureParams,
    param: int,
) -> bool {
    &&& after.tex_page_base[0] as int == (param % 16) * 64
    &&& after.tex_page_base[1] as int == ((param / 16) % 2) * 256
    &&& after.semi_transparency_mode as int == (param / 32) % 4
    &&& after.tex_page_color_mode as int == (param / 128) % 4
    &&& after.texture_disable == ((param / 2048) % 2 == 1)
    &&& after.clut_base == before.clut_base
    &&& after.texture_flip == before.texture_flip
}

impl Default for DrawingTextureParams {
    fn default() -> (r: DrawingTextureParams)
        ensures
            r.clut_base[0] == 0 && r.clut_base[1] == 0,
            r.tex_page_base[0] == 0 && r.tex_page_base[1] == 0,
            r.semi_transparency_mode == 0,
            r.tex_page_color_mode == 0,
            !r.texture_disable,
            r.texture_flip == (false, false),
    {
        DrawingTextureParams {
            clut_base: [0, 0],
            tex_page_base: [0, 0],
            semi_transparency_mode: 0,
            tex_page_color_mode: 0,
            texture_disable: false,
            texture_flip: (false, false),
        }
    }
}

impl DrawingTextureParams {
    /// Decodes the texture page from the status-register layout in the low
    /// bits of `param`; rectangle commands take their page from there.
    #[inline]
    pub fn tex_page_from_gpustat(&mut self, param: u32)
        ensures
            tex_page_decoded(*old(self), *final(self), param as int),
    {
        let x = param & 0xF;
        let y = (param >> 4u32) & 1;
        assert(param & 0xF == param % 16) by (bit_vector);
        assert((param >> 4u32) & 1 == (param / 16) % 2) by (bit_vector);
        assert((param >> 5u32) & 3 == (param / 32) % 4) by (bit_vector);
        assert((param >> 7u32) & 3 == (param / 128) % 4) by (bit_vector);
        assert((param >> 11u32) & 1 == (param / 2048) % 2) by (bit_vector);
        self.tex_page_base = [x * 64, y * 256];
        self.semi_transparency_mode = ((param >> 5u32) & 3) as u8;
        self.tex_page_color_mode = ((param >> 7u32) & 3) as u8;
        self.texture_disable = (param >> 11u32) & 1 == 1;
    }

    /// Decodes the texture page from the high 16 bits of a command word, in
    /// the same layout as the status register.
    #[inline]
    pub fn tex_page_from_u32(&mut self, param: u32)
        ensures
            tex_page_decoded(*old(self), *final(self), param as int / 65536),
    {
        let high = param >> 16u32;
        assert(param >> 16u32 == param / 65536) by (bit_vector);
        self.tex_page_from_gpustat(high);
    }

    /// Decodes the colour lookup table position from the high 16 bits of a
    /// command word: x in bits 0..6 (in units of 16 texels), y in bits 6..15.
    #[inline]
    pub fn clut_from_u32(&mut self, param: u32)
        ensures
            final(self).clut_base[0] as int == ((param as int / 65536) % 64) * 16,
            final(self).clut_base[1] as int == (param as int / 65536 / 64) % 512,
            final(self).tex_page_base == old(self).tex_page_base,
            final(self).semi_transparency_mode == old(self).semi_transparency_mode,
            final(self).tex_page_color_mode == old(self).tex_page_color_mode,
            final(self).texture_disable == old(self).texture_disable,
            final(self).texture_flip == old(self).texture_flip,
    {
        let p = param >> 16u32;
        let x = p & 0x3F;
        let y = (p >> 6u32) & 0x1FF;
        assert((param >> 16u32) & 0x3F == (param / 65536) % 64) by (bit_vector);
        assert(((param >> 16u32) >> 6u32) & 0x1FF == (param / 65536 / 64) % 512) by (bit_vector);
        self.clut_base = [x * 16, y];
    }

    #[inline]
    pub fn set_texture_flip(&mut self, flip: (bool, bool))
        ensures
            *final(self) == (DrawingTextureParams { texture_flip: flip, ..*old(self) }),
    {
        self.texture_flip = flip;
    }
}

} // verus!
