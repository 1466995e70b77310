use psx_gpu::decode::{vertex_position_from_u32, DrawingTextureParams, DrawingVertex};
use psx_gpu::pixel::{gl_pixel_to_u16, target_to_vram_pixel, to_gl_bottom, vram_to_target_pixel};

#[test]
fn position_sign_extends_both_fields() {
    assert_eq!(vertex_position_from_u32(0x07FF_0400), [-1024, -1]);
    assert_eq!(vertex_position_from_u32(0x0010_0020), [32, 16]);
    assert_eq!(vertex_position_from_u32(0xF800_03FF), [1023, 0]);
}

#[test]
fn position_round_trips_over_signed_range() {
    for x in -1024i32..=1023 {
        let y = -1 - x;
        let word = ((x & 0x7FF) as u32) | (((y & 0x7FF) as u32) << 16);
        assert_eq!(vertex_position_from_u32(word), [x, y]);
    }
}

#[test]
fn vertex_setters_and_decoders() {
    let mut v = DrawingVertex::new_with_color(0xFF12_3456);
    assert_eq!(v.color(), [0x56, 0x34, 0x12]);
    assert_eq!(v.position(), [0, 0]);
    v.color_from_u32(0x0030_2010);
    assert_eq!(v.color(), [0x10, 0x20, 0x30]);
    v.tex_coord_from_u32(0xABCD_1234);
    assert_eq!(v.tex_coord(), [0x34, 0x12]);
    v.position_from_u32(0x0005_0FFF);
    assert_eq!(v.position(), [-1, 5]);
    v.set_position([7, -8]);
    assert_eq!(v.position(), [7, -8]);
    v.set_tex_coord([9, 10]);
    assert_eq!(v.tex_coord(), [9, 10]);
    assert_eq!(v.color(), [0x10, 0x20, 0x30]);
}

#[test]
fn tex_page_from_status_layout() {
    let mut p = DrawingTextureParams::default();
    p.tex_page_from_gpustat(0x8D5);
    assert_eq!(p.tex_page_base, [320, 256]);
    assert_eq!(p.semi_transparency_mode, 2);
    assert_eq!(p.tex_page_color_mode, 1);
    assert!(p.texture_disable);
    assert_eq!(p.clut_base, [0, 0]);
}

#[test]
fn tex_page_from_command_high_half() {
    let mut p = DrawingTextureParams::default();
    p.tex_page_from_u32(0x08D5_FFFF);
    assert_eq!(p.tex_page_base, [320, 256]);
    assert_eq!(p.semi_transparency_mode, 2);
    assert_eq!(p.tex_page_color_mode, 1);
    assert!(p.texture_disable);
    p.tex_page_from_u32(0x0000_08D5);
    assert_eq!(p.tex_page_base, [0, 0]);
    assert!(!p.texture_disable);
}

#[test]
fn clut_from_command_high_half() {
    let mut p = DrawingTextureParams::default();
    p.clut_from_u32(0x1903_0000);
    assert_eq!(p.clut_base, [48, 100]);
    p.clut_from_u32(0xFFFF_FFFF);
    assert_eq!(p.clut_base, [63 * 16, 511]);
}

#[test]
fn texture_flip_is_stored() {
    let mut p = DrawingTextureParams::default();
    p.set_texture_flip((true, false));
    assert_eq!(p.texture_flip, (true, false));
}

#[test]
fn pixel_packing_keeps_high_bits() {
    assert_eq!(gl_pixel_to_u16(&(255, 0, 0, 0)), 0x001F);
    assert_eq!(gl_pixel_to_u16(&(0, 0, 255, 1)), 0xFC00);
    assert_eq!(gl_pixel_to_u16(&(8, 16, 24, 0)), 3137);
    assert_eq!(gl_pixel_to_u16(&(7, 7, 7, 2)), 0);
}

#[test]
fn render_target_bottom() {
    assert_eq!(to_gl_bottom(10, 20), 482);
    assert_eq!(to_gl_bottom(0, 512), 0);
}

#[test]
fn render_target_layout_moves_channels() {
    assert_eq!(vram_to_target_pixel(0x001F), 0xF800);
    assert_eq!(vram_to_target_pixel(0x7C00), 0x003E);
    assert_eq!(vram_to_target_pixel(0x8000), 0x0001);
    assert_eq!(vram_to_target_pixel(0x03E0), 0x07C0);
    assert_eq!(target_to_vram_pixel(0xF800), 0x001F);
    for p in [0u16, 1, 0x1234, 0x8421, 0xFFFF, 0x7FFF] {
        assert_eq!(target_to_vram_pixel(vram_to_target_pixel(p)), p);
    }
}
