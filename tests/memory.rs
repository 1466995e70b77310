use psx_gpu::blend::{draw_blend, semi_transparency_blending_params, source_alpha_quarters, BlendFactor, BlendFunction};
use psx_gpu::region::RegionTracker;
use psx_gpu::vram::{reverse_rows, RenderingRegion, Vram};

fn rect(x0: u32, x1: u32, y0: u32, y1: u32) -> RenderingRegion {
    RenderingRegion { x_start: x0, x_end: x1, y_start: y0, y_end: y1 }
}

#[test]
fn block_write_then_read_round_trips() {
    let mut v = Vram::new();
    let r = rect(10, 13, 5, 7);
    v.write_block(&r, &[1, 2, 3, 4, 5, 6]);
    assert_eq!(v.read_block(&r, false), vec![1, 2, 3, 4, 5, 6]);
    assert_eq!(v.pixel(10, 5), 1);
    assert_eq!(v.pixel(12, 6), 6);
    assert_eq!(v.pixel(13, 6), 0);
    assert_eq!(v.pixel(9, 5), 0);
}

#[test]
fn block_write_at_far_corner() {
    let mut v = Vram::new();
    let r = rect(1022, 1024, 510, 512);
    v.write_block(&r, &[7, 8, 9, 10]);
    assert_eq!(v.read_block(&r, false), vec![7, 8, 9, 10]);
    assert_eq!(v.pixel(1023, 511), 10);
}

#[test]
fn reversed_read_flips_rows() {
    let mut v = Vram::new();
    let r = rect(0, 3, 0, 2);
    v.write_block(&r, &[1, 2, 3, 4, 5, 6]);
    assert_eq!(v.read_block(&r, true), vec![4, 5, 6, 1, 2, 3]);
    assert_eq!(reverse_rows(&[1, 2, 3, 4, 5, 6], 3, 2), vec![4, 5, 6, 1, 2, 3]);
    assert_eq!(reverse_rows(&[], 0, 5), Vec::<u16>::new());
}

#[test]
fn empty_block_reads_empty() {
    let v = Vram::new();
    assert!(v.read_block(&rect(5, 5, 0, 10), false).is_empty());
}

#[test]
fn fill_block_sets_only_the_region() {
    let mut v = Vram::new();
    v.fill_block(&rect(2, 4, 1, 2), 0x1234);
    assert_eq!(v.read_block(&rect(1, 5, 1, 2), false), vec![0, 0x1234, 0x1234, 0]);
    assert_eq!(v.pixel(2, 0), 0);
}

#[test]
fn overlapping_region_evicts_the_first() {
    let mut t = RegionTracker::new();
    let a = rect(0, 64, 0, 64);
    let b = rect(32, 96, 32, 96);
    assert!(t.make_resident(a).is_empty());
    assert_eq!(t.regions(), vec![a]);
    assert_eq!(t.make_resident(b), vec![a]);
    assert_eq!(t.regions(), vec![b]);
}

#[test]
fn same_region_twice_changes_nothing() {
    let mut t = RegionTracker::new();
    let a = rect(0, 64, 0, 64);
    t.make_resident(a);
    assert!(t.make_resident(a).is_empty());
    assert_eq!(t.regions(), vec![a]);
}

#[test]
fn disjoint_regions_are_both_kept() {
    let mut t = RegionTracker::new();
    let a = rect(0, 64, 0, 64);
    let c = rect(64, 128, 0, 64);
    t.make_resident(a);
    assert!(t.make_resident(c).is_empty());
    let regions = t.regions();
    assert_eq!(regions.len(), 2);
    assert!(regions.contains(&a) && regions.contains(&c));
}

#[test]
fn residency_of_blocks() {
    let mut t = RegionTracker::new();
    t.make_resident(rect(0, 64, 0, 64));
    assert!(t.is_block_in_rendering(&rect(10, 20, 10, 20)));
    assert!(t.is_block_in_rendering(&rect(0, 64, 0, 64)));
    assert!(!t.is_block_in_rendering(&rect(64, 70, 0, 10)));
    assert!(t.is_block_half_resident(&rect(60, 70, 0, 10)));
    assert!(!t.is_block_half_resident(&rect(10, 20, 10, 20)));
    assert!(t.contains(&rect(0, 64, 0, 64)));
    assert!(!t.contains(&rect(0, 64, 0, 63)));
}

#[test]
fn evicting_overlaps_of_a_block() {
    let mut t = RegionTracker::new();
    let a = rect(0, 64, 0, 64);
    let c = rect(64, 128, 0, 64);
    t.make_resident(a);
    t.make_resident(c);
    assert_eq!(t.evict_overlapping(&rect(100, 101, 10, 11)), vec![c]);
    assert_eq!(t.regions(), vec![a]);
}

#[test]
fn blend_modes() {
    let avg = BlendFunction::Addition { source: BlendFactor::SourceAlpha, destination: BlendFactor::OneMinusSourceAlpha };
    assert_eq!(semi_transparency_blending_params(0).color, avg);
    assert_eq!(
        semi_transparency_blending_params(1).color,
        BlendFunction::Addition { source: BlendFactor::One, destination: BlendFactor::SourceAlpha }
    );
    assert_eq!(
        semi_transparency_blending_params(2).color,
        BlendFunction::ReverseSubtraction { source: BlendFactor::One, destination: BlendFactor::SourceAlpha }
    );
    assert_eq!(semi_transparency_blending_params(3).color, avg);
    assert_eq!(semi_transparency_blending_params(6), semi_transparency_blending_params(2));
}

#[test]
fn source_alpha_per_mode() {
    assert_eq!(source_alpha_quarters(0, true), 2);
    assert_eq!(source_alpha_quarters(0, false), 4);
    assert_eq!(source_alpha_quarters(1, true), 4);
    assert_eq!(source_alpha_quarters(2, false), 0);
    assert_eq!(source_alpha_quarters(3, true), 1);
    assert_eq!(source_alpha_quarters(7, false), 4);
}

#[test]
fn opaque_draws_do_not_blend() {
    for mode in 0u8..4 {
        assert_eq!(draw_blend(mode, false), None);
        assert_eq!(draw_blend(mode, true), Some(semi_transparency_blending_params(mode)));
    }
}
