use psx_gpu::blend::{BlendFactor, BlendFunction};
use psx_gpu::context::{fill_pieces, GpuContext};
use psx_gpu::decode::{DrawingTextureParams, DrawingVertex};
use psx_gpu::vram::RenderingRegion;

fn rect(x0: u32, x1: u32, y0: u32, y1: u32) -> RenderingRegion {
    RenderingRegion { x_start: x0, x_end: x1, y_start: y0, y_end: y1 }
}

/// A fresh context whose drawing area, away from the blocks the tests use,
/// is resident.
fn context_drawing_far() -> GpuContext {
    let mut ctx = GpuContext::new();
    ctx.drawing_area_top_left = (512, 256);
    ctx.drawing_area_bottom_right = (575, 319);
    let t = ctx.make_drawing_area_resident();
    assert_eq!(t.upload, Some(rect(512, 576, 256, 320)));
    ctx
}

#[test]
fn fill_wraps_round_the_right_edge() {
    let mut ctx = context_drawing_far();
    let cleared = ctx.fill_color((1020, 0), (8, 1), (255, 0, 0));
    assert!(cleared.is_empty());
    assert_eq!(ctx.read_vram_block(&(1020..1024, 0..1)), Some(vec![0x1F; 4]));
    assert_eq!(ctx.read_vram_block(&(0..4, 0..1)), Some(vec![0x1F; 4]));
    assert_eq!(ctx.read_vram_block(&(4..5, 0..1)), Some(vec![0]));
    assert_eq!(ctx.read_vram_block(&(1019..1020, 0..1)), Some(vec![0]));
    assert_eq!(ctx.read_vram_block(&(1020..1024, 1..2)), Some(vec![0; 4]));
}

#[test]
fn fill_wraps_round_both_edges() {
    let mut ctx = GpuContext::new();
    ctx.fill_color((1023, 511), (2, 2), (0, 0, 255));
    let blue = 31u16 << 10;
    assert_eq!(ctx.vram.pixel(1023, 511), blue);
    assert_eq!(ctx.vram.pixel(0, 511), blue);
    assert_eq!(ctx.vram.pixel(1023, 0), blue);
    assert_eq!(ctx.vram.pixel(0, 0), blue);
    assert_eq!(ctx.vram.pixel(1, 0), 0);
    assert_eq!(ctx.vram.pixel(1022, 511), 0);
}

#[test]
fn fill_pieces_split_at_edges() {
    let p = fill_pieces((1020, 510), (8, 4));
    assert_eq!(p, vec![rect(1020, 1024, 510, 512), rect(0, 4, 510, 512), rect(1020, 1024, 0, 2), rect(0, 4, 0, 2)]);
    let q = fill_pieces((0, 0), (1024, 512));
    assert_eq!(q[0], rect(0, 1024, 0, 512));
    assert_eq!(q[1], rect(0, 0, 0, 512));
}

#[test]
fn fill_of_resident_region_goes_to_render_target() {
    let mut ctx = GpuContext::new();
    ctx.add_to_rendering_range(rect(0, 64, 0, 64));
    let cleared = ctx.fill_color((8, 8), (4, 4), (255, 255, 255));
    assert_eq!(cleared, vec![rect(8, 12, 8, 12)]);
    assert_eq!(ctx.vram.pixel(8, 8), 0);
}

#[test]
fn write_outside_rendering_goes_to_vram() {
    let mut ctx = context_drawing_far();
    assert_eq!(ctx.write_vram_block((100..102, 200..202), &[1, 2, 3, 4]), None);
    assert_eq!(ctx.read_vram_block(&(100..102, 200..202)), Some(vec![1, 2, 3, 4]));
    assert_eq!(ctx.read_vram_block(&(101..102, 200..202)), Some(vec![2, 4]));
}

#[test]
fn write_inside_rendering_goes_to_render_target() {
    let mut ctx = GpuContext::new();
    ctx.drawing_area_bottom_right = (63, 63);
    let area = ctx.drawing_range();
    assert_eq!(area, rect(0, 64, 0, 64));
    let t = ctx.make_drawing_area_resident();
    assert!(t.write_back.is_empty());
    assert_eq!(t.upload, Some(area));
    assert_eq!(ctx.write_vram_block((0..2, 0..2), &[1, 2, 3, 4]), Some(vec![3, 4, 1, 2]));
    assert_eq!(ctx.read_vram_block(&(0..2, 0..2)), None);
    assert_eq!(ctx.vram.pixel(0, 0), 0);
}

#[test]
fn making_resident_again_moves_nothing() {
    let mut ctx = GpuContext::new();
    let area = rect(0, 64, 0, 64);
    ctx.add_to_rendering_range(area);
    let t = ctx.add_to_rendering_range(area);
    assert!(t.write_back.is_empty());
    assert_eq!(t.upload, None);
}

#[test]
fn overlapping_region_writes_back_the_first() {
    let mut ctx = context_drawing_far();
    let first = rect(0, 2, 0, 2);
    let second = rect(1, 3, 1, 3);
    ctx.add_to_rendering_range(first);
    let up = ctx.move_from_vram_to_rendering(&second);
    assert_eq!(up, vec![0; 4]);
    let t = ctx.add_to_rendering_range(second);
    assert_eq!(t.write_back, vec![first]);
    assert_eq!(t.upload, Some(second));
    ctx.move_from_rendering_to_vram(&first, &[3, 4, 1, 2]);
    assert_eq!(ctx.resident.regions(), vec![rect(512, 576, 256, 320), second]);
    assert_eq!(ctx.read_vram_block(&(0..2, 0..1)), Some(vec![1, 2]));
    assert_eq!(ctx.read_vram_block(&(0..1, 1..2)), Some(vec![3]));
    assert_eq!(ctx.move_from_vram_to_rendering(&first), vec![3, 4, 1, 2]);
}

#[test]
fn untextured_quad_at_drawing_origin() {
    let mut ctx = GpuContext::new();
    ctx.drawing_area_bottom_right = (63, 63);
    let mut vertices = [DrawingVertex::default(); 4];
    let corners = [[0, 0], [1, 0], [0, 1], [1, 1]];
    for (v, c) in vertices.iter_mut().zip(corners.iter()) {
        v.set_position(*c);
        v.color_from_u32(0x00FF_8000);
    }
    let cmd = ctx.draw_polygon(&vertices, DrawingTextureParams::default(), false, false, false);
    assert_eq!(cmd.viewport, rect(0, 64, 0, 64));
    assert_eq!(cmd.indices, vec![0, 1, 2, 1, 2, 3]);
    assert_eq!(cmd.transfer.upload, Some(rect(0, 64, 0, 64)));
    assert!(cmd.transfer.write_back.is_empty());
    assert_eq!(cmd.semi_transparency_mode, 0);
    assert_eq!(cmd.blend, None);
    assert!(!cmd.textured);
    assert_eq!(ctx.gpu_stat, 0);
    let again = ctx.draw_polygon(&vertices[..3], DrawingTextureParams::default(), false, false, true);
    assert_eq!(again.indices, vec![0, 1, 2]);
    assert_eq!(again.transfer.upload, None);
    assert!(again.semi_transparent);
    assert_eq!(
        again.blend.map(|b| b.color),
        Some(BlendFunction::Addition { source: BlendFactor::SourceAlpha, destination: BlendFactor::OneMinusSourceAlpha })
    );
}

#[test]
fn untextured_draw_takes_mode_from_status() {
    let mut ctx = GpuContext::new();
    ctx.gpu_stat = 2 << 5;
    let vertices = [DrawingVertex::default(); 3];
    let cmd = ctx.draw_polygon(&vertices, DrawingTextureParams::default(), false, false, true);
    assert_eq!(cmd.semi_transparency_mode, 2);
    assert_eq!(
        cmd.blend.unwrap().color,
        BlendFunction::ReverseSubtraction { source: BlendFactor::One, destination: BlendFactor::SourceAlpha }
    );
}

#[test]
fn textured_draw_evicts_its_texture_page() {
    let mut ctx = GpuContext::new();
    ctx.add_to_rendering_range(rect(0, 32, 0, 32));
    ctx.drawing_area_top_left = (512, 0);
    ctx.drawing_area_bottom_right = (575, 63);
    let mut tp = DrawingTextureParams::default();
    tp.tex_page_from_gpustat(0x0800 | (1 << 5));
    assert!(tp.texture_disable);
    let vertices = [DrawingVertex::default(); 4];
    let cmd = ctx.draw_polygon(&vertices, tp, true, true, false);
    assert_eq!(cmd.transfer.write_back, vec![rect(0, 32, 0, 32)]);
    assert_eq!(cmd.transfer.upload, Some(rect(512, 576, 0, 64)));
    assert_eq!(ctx.resident.regions(), vec![rect(512, 576, 0, 64)]);
    assert!(!cmd.texture_params.texture_disable);
    assert_eq!(cmd.semi_transparency_mode, 1);
    assert_eq!(ctx.gpu_stat, 1 << 5);
}

#[test]
fn status_takes_texture_page_fields() {
    let mut ctx = GpuContext::new();
    ctx.gpu_stat = 0xFFFF_FFFF;
    let mut tp = DrawingTextureParams::default();
    tp.tex_page_from_gpustat(0x8D5);
    ctx.update_gpu_stat_from_texture_params(&tp);
    assert_eq!(ctx.gpu_stat, 0xFFFF_FED5);
    ctx.gpu_stat = 0;
    ctx.update_gpu_stat_from_texture_params(&tp);
    assert_eq!(ctx.gpu_stat, 32981);
    assert_eq!(ctx.semi_transparency_mode(), 2);
}

#[test]
fn display_resolution_from_status() {
    let mut ctx = GpuContext::new();
    assert_eq!((ctx.horizontal_resolution(), ctx.vertical_resolution()), (256, 240));
    ctx.gpu_stat = 1 << 16;
    assert_eq!(ctx.horizontal_resolution(), 368);
    ctx.gpu_stat = 2 << 17;
    assert_eq!(ctx.horizontal_resolution(), 512);
    ctx.gpu_stat = (1 << 19) | (1 << 22) | (3 << 17);
    assert_eq!((ctx.horizontal_resolution(), ctx.vertical_resolution()), (640, 480));
    ctx.gpu_stat = 1 << 19;
    assert_eq!(ctx.vertical_resolution(), 240);
}

#[test]
fn blit_source_is_vram_or_display_area() {
    let mut ctx = GpuContext::new();
    assert_eq!(ctx.blit_source_rect(true), (0, 0, 1024, 512));
    ctx.vram_display_area_start = (8, 16);
    ctx.gpu_stat = 1 << 17;
    assert_eq!(ctx.blit_source_rect(false), (8, 16, 320, 240));
    ctx.vram_display_area_start = (900, 400);
    ctx.gpu_stat = 0;
    assert_eq!(ctx.blit_source_rect(false), (900, 400, 124, 112));
    ctx.vram_display_area_start = (5000, 0);
    assert_eq!(ctx.blit_source_rect(false), (1024, 0, 0, 240));
}

#[test]
fn half_resident_block_is_reported() {
    let mut ctx = GpuContext::new();
    ctx.add_to_rendering_range(rect(0, 64, 0, 64));
    assert!(ctx.is_block_half_resident(&rect(60, 70, 0, 10)));
    assert!(ctx.is_block_in_rendering(&rect(1, 2, 1, 2)));
    assert!(!ctx.is_block_in_rendering(&rect(100, 102, 1, 2)));
}

#[test]
fn drawing_area_resident_after_block_write() {
    let mut ctx = context_drawing_far();
    let t = ctx.make_drawing_area_resident();
    assert!(t.write_back.is_empty());
    assert_eq!(t.upload, None);
    ctx.write_vram_block((0..1, 0..1), &[5]);
    assert!(ctx.resident.contains(&rect(512, 576, 256, 320)));
    assert_eq!(ctx.read_vram_block(&(512..513, 256..257)), None);
}

#[test]
fn new_drawing_area_evicts_overlapping_resident_region() {
    let mut ctx = context_drawing_far();
    ctx.drawing_area_top_left = (540, 300);
    ctx.drawing_area_bottom_right = (600, 350);
    let t = ctx.make_drawing_area_resident();
    assert_eq!(t.write_back, vec![rect(512, 576, 256, 320)]);
    assert_eq!(t.upload, Some(rect(540, 601, 300, 351)));
    assert_eq!(ctx.resident.regions(), vec![rect(540, 601, 300, 351)]);
}
