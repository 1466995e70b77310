//! Translation of the 2-bit semi-transparency mode into a blend equation of
//! the rendering device.

use vstd::prelude::*;

verus! {

/// A factor that a blend equation multiplies a colour by.
#[derive(Copy, Clone, Debug, PartialEq, Eq, Structural)]
pub enum BlendFactor {
    One,
    SourceAlpha,
    OneMinusSourceAlpha,
}

/// How the source colour `s` and the destination colour `d` combine, each
/// multiplied by its factor first.
#[derive(Copy, Clone, Debug, PartialEq, Eq, Structural)]
pub enum BlendFunction {
    /// `s * source + d * destination`
    Addition { source: BlendFactor, destination: BlendFactor },
    /// `d * destination - s * source`
    ReverseSubtraction { source: BlendFactor, destination: BlendFactor },
}

/// The blend state of a draw: `color` for the colour channels; the mask
/// channel is always replaced by the source.
#[derive(Copy, Clone, Debug, PartialEq, Eq, Structural)]
pub struct BlendParams {
    pub color: BlendFunction,
}

/// The colour blend function of each semi-transparency mode (its low two
/// bits): 0 averages, 1 adds, 2 subtracts the source from the destination,
/// 3 stands in for "destination plus a quarter of the source" by an
/// alpha blend.
pub open spec fn blend_function_of(mode: u8) -> BlendFunction {
    let m = mode % 4;
    if m == 0 || m == 3 {
        BlendFunction::Addition {
            source: BlendFactor::SourceAlpha,
            destination: BlendFactor::OneMinusSourceAlpha,
        }
    } else if m == 1 {
        BlendFunction::Addition { source: BlendFactor::One, destination: BlendFactor::SourceAlpha }
    } else {
        BlendFunction::ReverseSubtraction {
            source: BlendFactor::One,
            destination: BlendFactor::SourceAlpha,
        }
    }
}

/// The source alpha, in quarters, that the fragment stage gives a pixel
/// drawn with semi-transparency mode `mode`; `semi` tells whether the pixel
/// is semi-transparent.
pub open spec fn source_alpha_quarters_of(mode: u8, semi: bool) -> int {
    let m = mode % 4;
    if m == 0 {
        if semi {
            2
        } else {
            4
        }
    } else if m == 3 {
        if semi {
            1
        } else {
            4
        }
    } else if semi {
        4
    } else {
        0
    }
}

/// The value of a factor, in quarters, for a source alpha of `alpha`
/// quarters.
pub open spec fn factor_quarters(f: BlendFactor, alpha: int) -> int {
    match f {
        BlendFactor::One => 4,
        BlendFactor::SourceAlpha => alpha,
        BlendFactor::OneMinusSourceAlpha => 4 - alpha,
    }
}

/// Four times the colour that blend function `f` computes from source `s`
/// and destination `d` with a source alpha of `alpha` quarters, before the
/// device clamps it.
pub open spec fn blend_quadruple(f: BlendFunction, alpha: int, s: int, d: int) -> int {
    match f {
        BlendFunction::Addition { source, destination } => s * factor_quarters(source, alpha) + d
            * factor_quarters(destination, alpha),
        BlendFunction::ReverseSubtraction { source, destination } => d * factor_quarters(
            destination,
            alpha,
        ) - s * factor_quarters(source, alpha),
    }
}

/// The blend state for semi-transparency mode `mode`; only its low two bits
/// count.
pub fn semi_transparency_blending_params(mode: u8) -> (r: BlendParams)
    ensures
        r.color == blend_function_of(mode),
{
    let m = mode & 3;
    assert(mode & 3 == mode % 4) by (bit_vector);
    let color = if m == 0 || m == 3 {
        BlendFunction::Addition {
            source: BlendFactor::SourceAlpha,
            destination: BlendFactor::OneMinusSourceAlpha,
        }
    } else if m == 1 {
        BlendFunction::Addition { source: BlendFactor::One, destination: BlendFactor::SourceAlpha }
    } else {
        BlendFunction::ReverseSubtraction {
            source: BlendFactor::One,
            destination: BlendFactor::SourceAlpha,
        }
    };
    BlendParams { color }
}

/// The source alpha, in quarters, of a pixel drawn with semi-transparency
/// mode `mode`: a half for mode 0 and a quarter for mode 3 where the pixel
/// is semi-transparent, the whole otherwise; modes 1 and 2 weigh the
/// destination by it, so there it is whole where the pixel is
/// semi-transparent and zero otherwise.
pub fn source_alpha_quarters(mode: u8, semi_transparent: bool) -> (r: u8)
    ensures
        r as int == source_alpha_quarters_of(mode, semi_transparent),
{
    let m = mode & 3;
    assert(mode & 3 == mode % 4) by (bit_vector);
    if m == 0 {
        if semi_transparent {
            2
        } else {
            4
        }
    } else if m == 3 {
        if semi_transparent {
            1
        } else {
            4
        }
    } else if semi_transparent {
        4
    } else {
        0
    }
}

/// The blend state of a draw: none for an opaque draw, whose pixels
/// replace the destination, and the mode's function for a semi-transparent
/// one.
pub open spec fn draw_blend_of(mode: u8, semi_transparent: bool) -> Option<BlendParams> {
    if semi_transparent {
        Some(BlendParams { color: blend_function_of(mode) })
    } else {
        None
    }
}

/// The blend state of a draw with semi-transparency mode `mode`.
pub fn draw_blend(mode: u8, semi_transparent: bool) -> (r: Option<BlendParams>)
    ensures
        r == draw_blend_of(mode, semi_transparent),
{
    if semi_transparent {
        Some(semi_transparency_blending_params(mode))
    } else {
        None
    }
}

/// Four times the colour that a draw with blend state `blend` writes for
/// source `s` over destination `d`, with a source alpha of `alpha`
/// quarters, before the device clamps it.
pub open spec fn drawn_quadruple(blend: Option<BlendParams>, alpha: int, s: int, d: int) -> int {
    match blend {
        None => 4 * s,
        Some(b) => blend_quadruple(b.color, alpha, s, d),
    }
}

/// What each mode computes for a semi-transparent pixel, in quarters:
/// mode 0 the average of source and destination, mode 1 their sum, mode 2
/// the destination less the source, and mode 3 a quarter of the source plus
/// three quarters of the destination (in place of the hardware's
/// destination plus a quarter of the source).
pub proof fn lemma_semi_transparent_equations(mode: u8, s: int, d: int)
    ensures
        ({
            let q = drawn_quadruple(
                draw_blend_of(mode, true),
                source_alpha_quarters_of(mode, true),
                s,
                d,
            );
            &&& mode % 4 == 0 ==> q == 2 * s + 2 * d
            &&& mode % 4 == 1 ==> q == 4 * (s + d)
            &&& mode % 4 == 2 ==> q == 4 * (d - s)
            &&& mode % 4 == 3 ==> q == s + 3 * d
        }),
{
    let m = mode % 4;
    if m == 0 || m == 3 {
        let a = source_alpha_quarters_of(mode, true);
        assert(blend_quadruple(blend_function_of(mode), a, s, d) == s * a + d * (4 - a));
        assert(s * a + d * (4 - a) == if m == 0 {
            2 * s + 2 * d
        } else {
            s + 3 * d
        }) by (nonlinear_arith)
            requires
                a == (if m == 0 {
                    2int
                } else {
                    1int
                }),
        ;
    } else if m == 1 {
        assert(blend_quadruple(blend_function_of(mode), 4, s, d) == s * 4 + d * 4);
    } else {
        assert(blend_quadruple(blend_function_of(mode), 4, s, d) == d * 4 - s * 4);
    }
}

/// In every mode an opaque pixel replaces the destination.
pub proof fn lemma_opaque_pixel_replaces(mode: u8, s: int, d: int)
    ensures
        drawn_quadruple(draw_blend_of(mode, false), source_alpha_quarters_of(mode, false), s, d)
            == 4 * s,
{
}

} // verus!
